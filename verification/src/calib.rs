//! Calibration data: dimension-checked matrices, the plumb-bob
//! intrinsic parameter set, and extrinsic rotations given either as a
//! quaternion or as a 3x3 matrix, converted to a projection-ready pose.

use vstd::prelude::*;

use crate::fixed::{
    imul_opt, imul_opt_spec, qadd_opt, qadd_opt_spec, qdiv_opt, qdiv_opt_spec, qsub_opt,
    qsub_opt_spec, SCALE,
};
use crate::geometry::{Pose, Vec3};
use crate::projection::CameraParams;

verus! {

/// Malformed calibration data, rejected at load time and never
/// silently degraded.
#[derive(Clone, Copy, Debug, PartialEq, Eq, Structural)]
pub enum ValidationError {
    /// A matrix whose declared row and column counts do not match its
    /// flattened data length; the mismatch is named.
    MatrixDimensions { rows: usize, cols: usize, len: usize },
    /// An extrinsic rotation that cannot be normalized into a rotation
    /// matrix (a zero quaternion, or entries outside one unit).
    DegenerateRotation,
    /// A camera matrix that is not 3x3.
    CameraMatrixShape { rows: usize, cols: usize },
    /// A plumb-bob distortion vector without exactly five coefficients.
    DistortionCoefficientCount { len: usize },
}

/// A row-major matrix whose declared dimensions were checked against
/// its data length when it was built. The fields are private and the
/// checking constructors are the only way in, so the dimension
/// invariant holds of every value of the type.
#[derive(Debug)]
pub struct Matrix {
    rows: usize,
    cols: usize,
    data: Vec<i64>,
}

impl Clone for Matrix {
    /// The clone declares the same shape and holds the same entries.
    fn clone(&self) -> (r: Self)
        ensures
            r.spec_rows() == self.spec_rows(),
            r.spec_cols() == self.spec_cols(),
            r.spec_data() == self.spec_data(),
    {
        proof {
            use_type_invariant(self);
        }
        let data = self.data.clone();
        proof {
            assert(data@ =~= self.data@);
        }
        Matrix { rows: self.rows, cols: self.cols, data }
    }
}

impl Matrix {
    /// Declared row count, as a specification value.
    pub closed spec fn spec_rows(self) -> usize {
        self.rows
    }

    /// Declared column count, as a specification value.
    pub closed spec fn spec_cols(self) -> usize {
        self.cols
    }

    /// Row-major entries, as a specification value.
    pub closed spec fn spec_data(self) -> Seq<i64> {
        self.data@
    }

    /// Dimensions consistent with the data length. This is the type's
    /// invariant: it holds of every `Matrix` that exists.
    #[verifier::type_invariant]
    pub open spec fn wf(self) -> bool {
        self.spec_rows() * self.spec_cols() == self.spec_data().len()
    }

    /// Builds a matrix, rejecting a declared `rows x cols` shape that
    /// does not match the data length — never silently truncated or
    /// padded.
    pub fn new(rows: usize, cols: usize, data: Vec<i64>) -> (r: Result<Matrix, ValidationError>)
        ensures
            match r {
                Result::Ok(m) => {
                    &&& rows * cols == data@.len()
                    &&& m.spec_rows() == rows
                    &&& m.spec_cols() == cols
                    &&& m.spec_data() == data@
                },
                Result::Err(e) => {
                    &&& rows * cols != data@.len()
                    &&& e == (ValidationError::MatrixDimensions {
                        rows,
                        cols,
                        len: data@.len() as usize,
                    })
                },
            },
    {
        let len = data.len();
        match rows.checked_mul(cols) {
            Some(n) if n == len => Ok(Matrix { rows, cols, data }),
            _ => Err(ValidationError::MatrixDimensions { rows, cols, len }),
        }
    }

    /// The matrix's declared row count.
    pub fn rows(&self) -> (r: usize)
        ensures
            r == self.spec_rows(),
    {
        self.rows
    }

    /// The matrix's declared column count.
    pub fn cols(&self) -> (r: usize)
        ensures
            r == self.spec_cols(),
    {
        self.cols
    }

    /// The matrix's row-major entries.
    pub fn data(&self) -> (r: &Vec<i64>)
        ensures
            r@ == self.spec_data(),
    {
        &self.data
    }
}

/// A matrix as it arrives from the calibration file, dimensions not yet
/// checked.
#[derive(Clone, Debug)]
pub struct UncheckedMatrix {
    /// Declared row count.
    pub rows: usize,
    /// Declared column count.
    pub cols: usize,
    /// Row-major entries, Q16.16 scalars.
    pub data: Vec<i64>,
}

impl UncheckedMatrix {
    /// Checks the declared dimensions against the data length.
    pub fn validate(self) -> (r: Result<Matrix, ValidationError>)
        ensures
            match r {
                Result::Ok(m) => {
                    &&& self.rows * self.cols == self.data@.len()
                    &&& m.spec_rows() == self.rows
                    &&& m.spec_cols() == self.cols
                    &&& m.spec_data() == self.data@
                },
                Result::Err(e) => {
                    &&& self.rows * self.cols != self.data@.len()
                    &&& e == (ValidationError::MatrixDimensions {
                        rows: self.rows,
                        cols: self.cols,
                        len: self.data@.len() as usize,
                    })
                },
            },
    {
        Matrix::new(self.rows, self.cols, self.data)
    }
}

/// The lens distortion model of a camera. Only the plumb-bob
/// (radial/tangential) model is supported.
#[derive(Clone, Copy, Debug, PartialEq, Eq, Structural)]
pub enum DistortionModel {
    /// Standard radial/tangential distortion with coefficients
    /// `[k1, k2, p1, p2, k3]`.
    PlumbBob,
}

/// A camera calibration parameter file's content: intrinsics of one
/// camera. Loaded once at startup, immutable thereafter.
#[derive(Clone, Debug)]
pub struct MrptCalibration {
    /// Name of the calibrated camera.
    pub camera_name: String,
    /// Focal length in meters, Q16.16.
    pub focal_length_meters: i64,
    /// Image height in pixels.
    pub image_height: usize,
    /// Image width in pixels.
    pub image_width: usize,
    /// The distortion model tag.
    pub distortion_model: DistortionModel,
    /// The five plumb-bob coefficients `[k1, k2, p1, p2, k3]`, as a
    /// 1x5 matrix.
    pub distortion_coefficients: Matrix,
    /// The 3x3 camera matrix `[[fx, s, cx], [0, fy, cy], [0, 0, 1]]`.
    pub camera_matrix: Matrix,
    /// The 3x4 projection matrix.
    pub projection_matrix: Matrix,
    /// The 3x3 rectification matrix.
    pub rectification_matrix: Matrix,
}

/// A rotation entry candidate that exists and lies within one unit.
pub open spec fn entry_in_unit(e: Option<i64>) -> bool {
    match e {
        Option::Some(v) => -SCALE <= v <= SCALE,
        Option::None => false,
    }
}

/// Bundles three rotation-entry candidates into a row when all three
/// exist and lie within one unit.
pub open spec fn row_of_entries(x: Option<i64>, y: Option<i64>, z: Option<i64>) -> Option<Vec3> {
    if entry_in_unit(x) && entry_in_unit(y) && entry_in_unit(z) {
        match (x, y, z) {
            (Option::Some(a), Option::Some(b), Option::Some(c)) => Option::Some(
                Vec3 { x: a, y: b, z: c },
            ),
            _ => Option::None::<Vec3>,
        }
    } else {
        Option::None::<Vec3>
    }
}

/// Extrinsics given as a rotation quaternion `[w, i, j, k]` and a
/// translation `[x, y, z]`, all Q16.16.
#[derive(Clone, Copy, Debug)]
pub struct ExtrinsicsTransform {
    /// Rotation quaternion components, `w` first.
    pub rot_wijk: [i64; 4],
    /// Translation components.
    pub trans_xyz: [i64; 3],
}

/// The pose of a quaternion extrinsic: the quaternion is normalized by
/// its squared norm `n`, each rotation entry is `num * SCALE / n`
/// rounded toward zero; `None` when the quaternion is zero, a step
/// overflows, or an entry leaves one unit.
#[verifier::opaque]
pub open spec fn quat_pose_spec(q: ExtrinsicsTransform) -> Option<Pose> {
    let w = Option::Some(q.rot_wijk@[0]);
    let i = Option::Some(q.rot_wijk@[1]);
    let j = Option::Some(q.rot_wijk@[2]);
    let k = Option::Some(q.rot_wijk@[3]);
    let ww = imul_opt_spec(w, w);
    let ii = imul_opt_spec(i, i);
    let jj = imul_opt_spec(j, j);
    let kk = imul_opt_spec(k, k);
    let wi = imul_opt_spec(w, i);
    let wj = imul_opt_spec(w, j);
    let wk = imul_opt_spec(w, k);
    let ij = imul_opt_spec(i, j);
    let ik = imul_opt_spec(i, k);
    let jk = imul_opt_spec(j, k);
    let n = qadd_opt_spec(qadd_opt_spec(ww, ii), qadd_opt_spec(jj, kk));
    let r00 = qdiv_opt_spec(qsub_opt_spec(n, qadd_opt_spec(qadd_opt_spec(jj, kk), qadd_opt_spec(jj, kk))), n);
    let r01 = qdiv_opt_spec(qadd_opt_spec(qsub_opt_spec(ij, wk), qsub_opt_spec(ij, wk)), n);
    let r02 = qdiv_opt_spec(qadd_opt_spec(qadd_opt_spec(ik, wj), qadd_opt_spec(ik, wj)), n);
    let r10 = qdiv_opt_spec(qadd_opt_spec(qadd_opt_spec(ij, wk), qadd_opt_spec(ij, wk)), n);
    let r11 = qdiv_opt_spec(qsub_opt_spec(n, qadd_opt_spec(qadd_opt_spec(ii, kk), qadd_opt_spec(ii, kk))), n);
    let r12 = qdiv_opt_spec(qadd_opt_spec(qsub_opt_spec(jk, wi), qsub_opt_spec(jk, wi)), n);
    let r20 = qdiv_opt_spec(qadd_opt_spec(qsub_opt_spec(ik, wj), qsub_opt_spec(ik, wj)), n);
    let r21 = qdiv_opt_spec(qadd_opt_spec(qadd_opt_spec(jk, wi), qadd_opt_spec(jk, wi)), n);
    let r22 = qdiv_opt_spec(qsub_opt_spec(n, qadd_opt_spec(qadd_opt_spec(ii, jj), qadd_opt_spec(ii, jj))), n);
    match (
        row_of_entries(r00, r01, r02),
        row_of_entries(r10, r11, r12),
        row_of_entries(r20, r21, r22),
    ) {
        (Option::Some(rx), Option::Some(ry), Option::Some(rz)) => Option::Some(
            Pose {
                row_x: rx,
                row_y: ry,
                row_z: rz,
                translation: Vec3 {
                    x: q.trans_xyz@[0],
                    y: q.trans_xyz@[1],
                    z: q.trans_xyz@[2],
                },
            },
        ),
        _ => Option::None::<Pose>,
    }
}

/// Bundles three computed entries into a rotation row, rejecting an
/// absent entry or one outside one unit.
fn build_row(x: Option<i64>, y: Option<i64>, z: Option<i64>) -> (r: Option<Vec3>)
    ensures
        r == row_of_entries(x, y, z),
{
    match (x, y, z) {
        (Some(a), Some(b), Some(c)) => {
            if -SCALE <= a && a <= SCALE && -SCALE <= b && b <= SCALE && -SCALE <= c && c
                <= SCALE {
                Some(Vec3 { x: a, y: b, z: c })
            } else {
                None
            }
        },
        _ => None,
    }
}

impl ExtrinsicsTransform {
    /// Converts the quaternion and translation to a rigid pose,
    /// normalizing by the quaternion's squared norm; a zero quaternion
    /// (or an overflowing component) is rejected as degenerate.
    pub fn to_pose(&self) -> (r: Result<Pose, ValidationError>)
        ensures
            match r {
                Result::Ok(p) => quat_pose_spec(*self) == Option::Some(p) && p.wf(),
                Result::Err(e) => quat_pose_spec(*self) == Option::None::<Pose> && e
                    == ValidationError::DegenerateRotation,
            },
    {
        proof {
            reveal(quat_pose_spec);
        }
        let w: Option<i64> = Some(self.rot_wijk[0]);
        let i: Option<i64> = Some(self.rot_wijk[1]);
        let j: Option<i64> = Some(self.rot_wijk[2]);
        let k: Option<i64> = Some(self.rot_wijk[3]);
        let ww = imul_opt(w, w);
        let ii = imul_opt(i, i);
        let jj = imul_opt(j, j);
        let kk = imul_opt(k, k);
        let wi = imul_opt(w, i);
        let wj = imul_opt(w, j);
        let wk = imul_opt(w, k);
        let ij = imul_opt(i, j);
        let ik = imul_opt(i, k);
        let jk = imul_opt(j, k);
        let n = qadd_opt(qadd_opt(ww, ii), qadd_opt(jj, kk));
        let r00 = qdiv_opt(qsub_opt(n, qadd_opt(qadd_opt(jj, kk), qadd_opt(jj, kk))), n);
        let r01 = qdiv_opt(qadd_opt(qsub_opt(ij, wk), qsub_opt(ij, wk)), n);
        let r02 = qdiv_opt(qadd_opt(qadd_opt(ik, wj), qadd_opt(ik, wj)), n);
        let r10 = qdiv_opt(qadd_opt(qadd_opt(ij, wk), qadd_opt(ij, wk)), n);
        let r11 = qdiv_opt(qsub_opt(n, qadd_opt(qadd_opt(ii, kk), qadd_opt(ii, kk))), n);
        let r12 = qdiv_opt(qadd_opt(qsub_opt(jk, wi), qsub_opt(jk, wi)), n);
        let r20 = qdiv_opt(qadd_opt(qsub_opt(ik, wj), qsub_opt(ik, wj)), n);
        let r21 = qdiv_opt(qadd_opt(qadd_opt(jk, wi), qadd_opt(jk, wi)), n);
        let r22 = qdiv_opt(qsub_opt(n, qadd_opt(qadd_opt(ii, jj), qadd_opt(ii, jj))), n);
        match (build_row(r00, r01, r02), build_row(r10, r11, r12), build_row(r20, r21, r22)) {
            (Some(rx), Some(ry), Some(rz)) => Ok(
                Pose {
                    row_x: rx,
                    row_y: ry,
                    row_z: rz,
                    translation: Vec3 {
                        x: self.trans_xyz[0],
                        y: self.trans_xyz[1],
                        z: self.trans_xyz[2],
                    },
                },
            ),
            _ => Err(ValidationError::DegenerateRotation),
        }
    }
}

/// Extrinsics given as a 3x3 rotation matrix and a translation, all
/// Q16.16.
#[derive(Clone, Copy, Debug)]
pub struct ExtrinsicsMatrix {
    /// Rotation matrix rows.
    pub rot: [[i64; 3]; 3],
    /// Translation components.
    pub trans: [i64; 3],
}

/// The pose of a matrix extrinsic: the rows taken as given, when every
/// entry lies within one unit; `None` otherwise.
pub open spec fn matrix_pose_spec(m: ExtrinsicsMatrix) -> Option<Pose> {
    match (
        row_of_entries(
            Option::Some(m.rot@[0]@[0]),
            Option::Some(m.rot@[0]@[1]),
            Option::Some(m.rot@[0]@[2]),
        ),
        row_of_entries(
            Option::Some(m.rot@[1]@[0]),
            Option::Some(m.rot@[1]@[1]),
            Option::Some(m.rot@[1]@[2]),
        ),
        row_of_entries(
            Option::Some(m.rot@[2]@[0]),
            Option::Some(m.rot@[2]@[1]),
            Option::Some(m.rot@[2]@[2]),
        ),
    ) {
        (Option::Some(rx), Option::Some(ry), Option::Some(rz)) => Option::Some(
            Pose {
                row_x: rx,
                row_y: ry,
                row_z: rz,
                translation: Vec3 { x: m.trans@[0], y: m.trans@[1], z: m.trans@[2] },
            },
        ),
        _ => Option::None::<Pose>,
    }
}

impl ExtrinsicsMatrix {
    /// Converts the rotation matrix and translation to a rigid pose,
    /// rejecting entries outside one unit as degenerate.
    pub fn to_pose(&self) -> (r: Result<Pose, ValidationError>)
        ensures
            match r {
                Result::Ok(p) => matrix_pose_spec(*self) == Option::Some(p) && p.wf(),
                Result::Err(e) => matrix_pose_spec(*self) == Option::None::<Pose> && e
                    == ValidationError::DegenerateRotation,
            },
    {
        match (
            build_row(Some(self.rot[0][0]), Some(self.rot[0][1]), Some(self.rot[0][2])),
            build_row(Some(self.rot[1][0]), Some(self.rot[1][1]), Some(self.rot[1][2])),
            build_row(Some(self.rot[2][0]), Some(self.rot[2][1]), Some(self.rot[2][2])),
        ) {
            (Some(rx), Some(ry), Some(rz)) => Ok(
                Pose {
                    row_x: rx,
                    row_y: ry,
                    row_z: rz,
                    translation: Vec3 { x: self.trans[0], y: self.trans[1], z: self.trans[2] },
                },
            ),
            _ => Err(ValidationError::DegenerateRotation),
        }
    }
}

/// Extrinsic calibration data, in either of the two accepted file
/// forms.
#[derive(Clone, Copy, Debug)]
pub enum ExtrinsicsData {
    /// A quaternion and a translation.
    Quaternion(ExtrinsicsTransform),
    /// A 3x3 rotation matrix and a translation.
    Matrix(ExtrinsicsMatrix),
}

/// The pose of either extrinsic form.
pub open spec fn extrinsics_pose_spec(e: ExtrinsicsData) -> Option<Pose> {
    match e {
        ExtrinsicsData::Quaternion(q) => quat_pose_spec(q),
        ExtrinsicsData::Matrix(m) => matrix_pose_spec(m),
    }
}

impl ExtrinsicsData {
    /// Converts whichever extrinsic form was loaded to a rigid pose.
    pub fn to_pose(&self) -> (r: Result<Pose, ValidationError>)
        ensures
            match r {
                Result::Ok(p) => extrinsics_pose_spec(*self) == Option::Some(p) && p.wf(),
                Result::Err(e) => extrinsics_pose_spec(*self) == Option::None::<Pose> && e
                    == ValidationError::DegenerateRotation,
            },
    {
        match self {
            ExtrinsicsData::Quaternion(q) => q.to_pose(),
            ExtrinsicsData::Matrix(m) => m.to_pose(),
        }
    }
}

/// The projection parameters derived from an intrinsic calibration and
/// a pose: `fx, fy, cx, cy` read from the 3x3 camera matrix and the
/// five plumb-bob coefficients `[k1, k2, p1, p2, k3]`; rejected when
/// the camera matrix is not 3x3 or the coefficient count is not five.
pub open spec fn camera_params_spec(intr: MrptCalibration, pose: Pose) -> Result<
    CameraParams,
    ValidationError,
> {
    if !(intr.camera_matrix.spec_rows() == 3 && intr.camera_matrix.spec_cols() == 3
        && intr.camera_matrix.spec_data().len() == 9) {
        Result::Err(
            ValidationError::CameraMatrixShape {
                rows: intr.camera_matrix.spec_rows(),
                cols: intr.camera_matrix.spec_cols(),
            },
        )
    } else if intr.distortion_coefficients.spec_data().len() != 5 {
        Result::Err(
            ValidationError::DistortionCoefficientCount {
                len: intr.distortion_coefficients.spec_data().len() as usize,
            },
        )
    } else {
        Result::Ok(
            CameraParams {
                pose,
                fx: intr.camera_matrix.spec_data()[0],
                fy: intr.camera_matrix.spec_data()[4],
                cx: intr.camera_matrix.spec_data()[2],
                cy: intr.camera_matrix.spec_data()[5],
                k1: intr.distortion_coefficients.spec_data()[0],
                k2: intr.distortion_coefficients.spec_data()[1],
                p1: intr.distortion_coefficients.spec_data()[2],
                p2: intr.distortion_coefficients.spec_data()[3],
                k3: intr.distortion_coefficients.spec_data()[4],
            },
        )
    }
}

impl CameraParams {
    /// Derives the projection-ready parameter bundle from an intrinsic
    /// calibration and the camera's extrinsic pose.
    pub fn new(intrinsics: &MrptCalibration, extrinsics: &Pose) -> (r: Result<
        CameraParams,
        ValidationError,
    >)
        ensures
            r == camera_params_spec(*intrinsics, *extrinsics),
    {
        if !(intrinsics.camera_matrix.rows == 3 && intrinsics.camera_matrix.cols == 3
            && intrinsics.camera_matrix.data.len() == 9) {
            return Err(
                ValidationError::CameraMatrixShape {
                    rows: intrinsics.camera_matrix.rows,
                    cols: intrinsics.camera_matrix.cols,
                },
            );
        }
        let dist = &intrinsics.distortion_coefficients.data;
        if dist.len() != 5 {
            return Err(ValidationError::DistortionCoefficientCount { len: dist.len() });
        }
        let cam = &intrinsics.camera_matrix.data;
        Ok(
            CameraParams {
                pose: *extrinsics,
                fx: cam[0],
                fy: cam[4],
                cx: cam[2],
                cy: cam[5],
                k1: dist[0],
                k2: dist[1],
                p1: dist[2],
                p2: dist[3],
                k3: dist[4],
            },
        )
    }
}

} // verus!
