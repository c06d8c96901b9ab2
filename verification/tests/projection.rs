use camera_viz::cloud::{Point, SharedPointCloud};
use camera_viz::fixed::SCALE;
use camera_viz::geometry::{PixelPoint, Pose, Vec3};
use camera_viz::projection::{CameraParams, PointProjector};

fn q(units: i64) -> i64 {
    units * SCALE
}

fn identity_pose() -> Pose {
    Pose::identity()
}

fn center_camera() -> CameraParams {
    CameraParams {
        pose: identity_pose(),
        fx: q(1),
        fy: q(1),
        cx: q(320),
        cy: q(240),
        k1: 0,
        k2: 0,
        k3: 0,
        p1: 0,
        p2: 0,
    }
}

fn vga_projector() -> PointProjector {
    PointProjector { height: 480, width: 640, camera_params: center_camera() }
}

fn pt(x: i64, y: i64, z: i64) -> Point {
    Point { position: Vec3 { x, y, z }, intensity: q(1) }
}

#[test]
fn three_point_scenario_yields_one_center_pixel() {
    // One point at distance 0.5, one at camera-space depth 0.5 (but
    // distance > 1), one on the optical axis at depth 2.
    let cloud = SharedPointCloud::new(vec![
        pt(SCALE / 2, 0, 0),
        pt(q(2), 0, SCALE / 2),
        pt(0, 0, q(2)),
    ]);
    let out = vga_projector().project(&cloud).expect("projection succeeds");
    assert_eq!(out.len(), 1);
    assert_eq!(out[0].0.index, 2);
    assert_eq!(out[0].1, PixelPoint { x: q(320), y: q(240) });
}

#[test]
fn empty_cloud_yields_empty_output_not_error() {
    let cloud = SharedPointCloud::new(vec![]);
    let out = vga_projector().project(&cloud).expect("empty input is not an error");
    assert!(out.is_empty());
}

#[test]
fn point_within_unit_distance_is_excluded() {
    // Exactly on the unit ball boundary: still excluded (<= 1).
    let cloud = SharedPointCloud::new(vec![pt(q(1), 0, 0), pt(0, SCALE / 4, SCALE / 2)]);
    let out = vga_projector().project(&cloud).expect("projection succeeds");
    assert!(out.is_empty());
}

#[test]
fn point_with_shallow_camera_depth_is_excluded() {
    // Distance from the lidar is 2.24, but depth is exactly 1: excluded.
    let cloud = SharedPointCloud::new(vec![pt(q(2), 0, q(1))]);
    let out = vga_projector().project(&cloud).expect("projection succeeds");
    assert!(out.is_empty());
}

#[test]
fn optical_axis_point_maps_to_principal_point() {
    let cloud = SharedPointCloud::new(vec![pt(0, 0, q(7))]);
    let out = vga_projector().project(&cloud).expect("projection succeeds");
    assert_eq!(out.len(), 1);
    assert_eq!(out[0].1, PixelPoint { x: q(320), y: q(240) });
}

#[test]
fn off_axis_point_maps_through_pinhole_exactly() {
    // Camera space (2, 2, 2): normalized (1, 1); with fx = fy = 10 px
    // and no distortion the pixel is (330, 250) exactly.
    let mut cam = center_camera();
    cam.fx = q(10);
    cam.fy = q(10);
    let pj = PointProjector { height: 480, width: 640, camera_params: cam };
    let cloud = SharedPointCloud::new(vec![pt(q(2), q(2), q(2))]);
    let out = pj.project(&cloud).expect("projection succeeds");
    assert_eq!(out.len(), 1);
    assert_eq!(out[0].1, PixelPoint { x: q(330), y: q(250) });
}

#[test]
fn radial_distortion_term_is_applied_exactly() {
    // Camera space (2, 0, 2): normalized (1, 0), r^2 = 1; k1 = 1 makes
    // the radial factor 2, so x lands at cx + 2 * fx.
    let mut cam = center_camera();
    cam.fx = q(10);
    cam.fy = q(10);
    cam.k1 = q(1);
    let pj = PointProjector { height: 480, width: 640, camera_params: cam };
    let cloud = SharedPointCloud::new(vec![pt(q(2), 0, q(2))]);
    let out = pj.project(&cloud).expect("projection succeeds");
    assert_eq!(out.len(), 1);
    assert_eq!(out[0].1, PixelPoint { x: q(340), y: q(240) });
}

#[test]
fn projected_points_outside_image_are_dropped() {
    // Normalized x is 15; with fx = 100 px the pixel falls far right of
    // a 640-wide image and is dropped, which is not an error.
    let mut cam = center_camera();
    cam.fx = q(100);
    cam.fy = q(100);
    let pj = PointProjector { height: 480, width: 640, camera_params: cam };
    let cloud = SharedPointCloud::new(vec![pt(q(30), 0, q(2)), pt(0, 0, q(2))]);
    let out = pj.project(&cloud).expect("projection succeeds");
    assert_eq!(out.len(), 1);
    assert_eq!(out[0].0.index, 1);
}

#[test]
fn projection_is_idempotent() {
    let cloud = SharedPointCloud::new(vec![
        pt(0, 0, q(2)),
        pt(q(2), q(2), q(3)),
        pt(SCALE / 2, 0, 0),
        pt(-q(1), q(1), q(5)),
    ]);
    let pj = vga_projector();
    let a = pj.project(&cloud).expect("projection succeeds");
    let b = pj.project(&cloud).expect("projection succeeds");
    assert_eq!(a.len(), b.len());
    for (x, y) in a.iter().zip(b.iter()) {
        assert_eq!(x.0.index, y.0.index);
        assert_eq!(x.1, y.1);
    }
}

#[test]
fn every_output_pixel_is_inside_the_image_bounds() {
    let cloud = SharedPointCloud::new(vec![
        pt(q(3), -q(2), q(4)),
        pt(-q(1), q(1), q(2)),
        pt(0, 0, q(9)),
        pt(q(30), q(10), q(2)),
    ]);
    let pj = vga_projector();
    let out = pj.project(&cloud).expect("projection succeeds");
    for (_, px) in &out {
        assert!(0 <= px.x && px.x <= 640 * SCALE);
        assert!(0 <= px.y && px.y <= 480 * SCALE);
    }
}

#[test]
fn overflowing_point_fails_the_whole_frame() {
    let cloud = SharedPointCloud::new(vec![pt(0, 0, q(2)), pt(i64::MAX, 0, q(2))]);
    let err = match vga_projector().project(&cloud) {
        Err(e) => e,
        Ok(_) => panic!("overflow must reject the frame"),
    };
    assert_eq!(err.index, 1);
}

#[test]
fn output_references_share_the_input_cloud() {
    let cloud = SharedPointCloud::new(vec![pt(0, 0, q(2))]);
    let out = vga_projector().project(&cloud).expect("projection succeeds");
    assert_eq!(out.len(), 1);
    let p = out[0].0.get();
    assert_eq!(p.position, Vec3 { x: 0, y: 0, z: q(2) });
    assert_eq!(p.intensity, q(1));
}
