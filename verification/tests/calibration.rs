use camera_viz::calib::{
    DistortionModel, ExtrinsicsData, ExtrinsicsMatrix, ExtrinsicsTransform, Matrix,
    MrptCalibration, UncheckedMatrix, ValidationError,
};
use camera_viz::projection::CameraParams;
use camera_viz::config::{Config, Version};
use camera_viz::fixed::SCALE;
use camera_viz::geometry::{Pose, Vec3};

fn q(units: i64) -> i64 {
    units * SCALE
}

fn good_camera_matrix() -> Matrix {
    Matrix::new(3, 3, vec![q(10), 0, q(320), 0, q(10), q(240), 0, 0, q(1)]).unwrap()
}

fn good_distortion() -> Matrix {
    Matrix::new(1, 5, vec![0, 0, 0, 0, 0]).unwrap()
}

fn calibration() -> MrptCalibration {
    MrptCalibration {
        camera_name: String::from("camera_front"),
        focal_length_meters: SCALE / 250,
        image_height: 480,
        image_width: 640,
        distortion_model: DistortionModel::PlumbBob,
        distortion_coefficients: good_distortion(),
        camera_matrix: good_camera_matrix(),
        projection_matrix: Matrix::new(3, 4, vec![0; 12]).unwrap(),
        rectification_matrix: Matrix::new(3, 3, vec![0; 9]).unwrap(),
    }
}

fn identity_pose() -> Pose {
    Pose::identity()
}

#[test]
fn malformed_matrix_is_rejected_naming_the_mismatch() {
    let err = Matrix::new(3, 3, vec![0; 8]).expect_err("8 entries cannot be 3x3");
    assert_eq!(err, ValidationError::MatrixDimensions { rows: 3, cols: 3, len: 8 });
}

#[test]
fn malformed_matrix_fails_before_any_projection() {
    // The calibration load step itself fails: no camera parameters can
    // even be constructed from the rejected matrix.
    let unchecked = UncheckedMatrix { rows: 2, cols: 3, data: vec![0; 7] };
    let err = unchecked.validate().expect_err("7 entries cannot be 2x3");
    assert_eq!(err, ValidationError::MatrixDimensions { rows: 2, cols: 3, len: 7 });
}

#[test]
fn well_formed_matrix_keeps_its_data() {
    let m = Matrix::new(2, 2, vec![1, 2, 3, 4]).expect("4 entries are 2x2");
    assert_eq!(m.rows(), 2);
    assert_eq!(m.cols(), 2);
    assert_eq!(m.data(), &vec![1, 2, 3, 4]);
}

#[test]
fn camera_params_read_the_camera_matrix_and_distortion() {
    let cp = CameraParams::new(&calibration(), &identity_pose()).expect("valid calibration");
    assert_eq!(cp.fx, q(10));
    assert_eq!(cp.fy, q(10));
    assert_eq!(cp.cx, q(320));
    assert_eq!(cp.cy, q(240));
    assert_eq!(cp.k1, 0);
    assert_eq!(cp.k3, 0);
    assert_eq!(cp.pose, identity_pose());
}

#[test]
fn camera_params_reject_a_non_3x3_camera_matrix() {
    let mut intr = calibration();
    intr.camera_matrix = Matrix::new(3, 4, vec![0; 12]).unwrap();
    let err = CameraParams::new(&intr, &identity_pose()).expect_err("not 3x3");
    assert_eq!(err, ValidationError::CameraMatrixShape { rows: 3, cols: 4 });
}

#[test]
fn camera_params_reject_a_wrong_coefficient_count() {
    let mut intr = calibration();
    intr.distortion_coefficients = Matrix::new(1, 4, vec![0; 4]).unwrap();
    let err = CameraParams::new(&intr, &identity_pose()).expect_err("not five coefficients");
    assert_eq!(err, ValidationError::DistortionCoefficientCount { len: 4 });
}

#[test]
fn identity_quaternion_gives_the_identity_rotation() {
    let ext = ExtrinsicsTransform { rot_wijk: [q(1), 0, 0, 0], trans_xyz: [q(5), 0, -q(2)] };
    let pose = ext.to_pose().expect("unit quaternion");
    assert_eq!(pose.row_x, Vec3 { x: SCALE, y: 0, z: 0 });
    assert_eq!(pose.row_y, Vec3 { x: 0, y: SCALE, z: 0 });
    assert_eq!(pose.row_z, Vec3 { x: 0, y: 0, z: SCALE });
    assert_eq!(pose.translation, Vec3 { x: q(5), y: 0, z: -q(2) });
}

#[test]
fn pure_k_quaternion_gives_a_half_turn_about_z() {
    let ext = ExtrinsicsTransform { rot_wijk: [0, 0, 0, q(1)], trans_xyz: [0, 0, 0] };
    let pose = ext.to_pose().expect("unit quaternion");
    assert_eq!(pose.row_x, Vec3 { x: -SCALE, y: 0, z: 0 });
    assert_eq!(pose.row_y, Vec3 { x: 0, y: -SCALE, z: 0 });
    assert_eq!(pose.row_z, Vec3 { x: 0, y: 0, z: SCALE });
}

#[test]
fn zero_quaternion_is_degenerate() {
    let ext = ExtrinsicsTransform { rot_wijk: [0, 0, 0, 0], trans_xyz: [0, 0, 0] };
    let err = ext.to_pose().expect_err("zero quaternion");
    assert_eq!(err, ValidationError::DegenerateRotation);
}

#[test]
fn rotation_matrix_extrinsics_pass_through() {
    let ext = ExtrinsicsMatrix {
        rot: [[0, -q(1), 0], [q(1), 0, 0], [0, 0, q(1)]],
        trans: [q(1), q(2), q(3)],
    };
    let pose = ext.to_pose().expect("entries within one unit");
    assert_eq!(pose.row_x, Vec3 { x: 0, y: -SCALE, z: 0 });
    assert_eq!(pose.translation, Vec3 { x: q(1), y: q(2), z: q(3) });
}

#[test]
fn rotation_matrix_entry_beyond_one_unit_is_degenerate() {
    let ext = ExtrinsicsMatrix {
        rot: [[q(2), 0, 0], [0, q(1), 0], [0, 0, q(1)]],
        trans: [0, 0, 0],
    };
    let err = ext.to_pose().expect_err("entry beyond one unit");
    assert_eq!(err, ValidationError::DegenerateRotation);
}

#[test]
fn either_extrinsic_form_converts() {
    let quat = ExtrinsicsData::Quaternion(ExtrinsicsTransform {
        rot_wijk: [q(1), 0, 0, 0],
        trans_xyz: [0, 0, 0],
    });
    let mat = ExtrinsicsData::Matrix(ExtrinsicsMatrix {
        rot: [[q(1), 0, 0], [0, q(1), 0], [0, 0, q(1)]],
        trans: [0, 0, 0],
    });
    assert_eq!(quat.to_pose().unwrap().row_x, Vec3 { x: SCALE, y: 0, z: 0 });
    assert_eq!(mat.to_pose().unwrap().row_y, Vec3 { x: 0, y: SCALE, z: 0 });
}

fn config_with_rotation_flags(otobrite_rot: bool, kneron_rot: bool) -> Config {
    Config {
        version: Version,
        namespace: String::from("fuse"),
        pcd_topic: String::from("pcd"),
        kneron_det_topic: String::from("det"),
        kneron_intrinsics: calibration(),
        kneron_extrinsics: identity_pose(),
        kneron_present_size: 2,
        kneron_image_hw: [480, 640],
        kneron_det_hw: [480, 640],
        kneron_pcd_rotate_90: kneron_rot,
        kneron_image_roi_tlbr: [0, 0, 480, 640],
        otobrite_img_topic: String::from("img"),
        otobrite_image_hw: [480, 640],
        otobrite_image_roi_tlbr: [0, 0, 480, 640],
        otobrite_image_rotate_180: false,
        otobrite_pcd_rotate_90: otobrite_rot,
        otobrite_present_size: 2,
        otobrite_distance_range: [q(1), q(50)],
        otobrite_intrinsics: calibration(),
        otobrite_extrinsics: identity_pose(),
    }
}

#[test]
fn quarter_yaw_swaps_and_negates_the_rotation_columns() {
    let pose = Pose {
        row_x: Vec3 { x: 11, y: 12, z: 13 },
        row_y: Vec3 { x: 21, y: 22, z: 23 },
        row_z: Vec3 { x: 31, y: 32, z: 33 },
        translation: Vec3 { x: q(1), y: q(2), z: q(3) },
    };
    let turned = pose.compose_yaw90();
    assert_eq!(turned.row_x, Vec3 { x: 12, y: -11, z: 13 });
    assert_eq!(turned.row_y, Vec3 { x: 22, y: -21, z: 23 });
    assert_eq!(turned.row_z, Vec3 { x: 32, y: -31, z: 33 });
    assert_eq!(turned.translation, pose.translation);
}

#[test]
fn pose_without_rotation_flag_is_the_loaded_extrinsics() {
    let config = config_with_rotation_flags(false, false);
    assert_eq!(config.otobrite_pose(), identity_pose());
    assert_eq!(config.kneron_pose(), identity_pose());
}

#[test]
fn rotation_flag_composes_a_quarter_yaw() {
    let config = config_with_rotation_flags(true, true);
    let pose = config.otobrite_pose();
    // Identity right-multiplied by a 90-degree yaw: columns swapped,
    // one negated.
    assert_eq!(pose.row_x, Vec3 { x: 0, y: -SCALE, z: 0 });
    assert_eq!(pose.row_y, Vec3 { x: SCALE, y: 0, z: 0 });
    assert_eq!(pose.row_z, Vec3 { x: 0, y: 0, z: SCALE });
    assert_eq!(pose.translation, Vec3 { x: 0, y: 0, z: 0 });
    assert_eq!(config.kneron_pose().row_x, Vec3 { x: 0, y: -SCALE, z: 0 });
}
