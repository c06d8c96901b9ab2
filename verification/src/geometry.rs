//! 3D vectors, rigid poses and the lidar-to-camera transform, all in
//! Q16.16 fixed point.

use vstd::prelude::*;

use crate::fixed::{qadd_spec, qmul_spec, qadd, qmul, SCALE};

verus! {

/// A 3D vector or position, each coordinate a Q16.16 scalar.
#[derive(Clone, Copy, Debug, PartialEq, Eq, Structural)]
pub struct Vec3 {
    pub x: i64,
    pub y: i64,
    pub z: i64,
}

/// A 2D image coordinate in pixels, each coordinate a Q16.16 scalar
/// (sub-pixel precision).
#[derive(Clone, Copy, Debug, PartialEq, Eq, Structural)]
pub struct PixelPoint {
    pub x: i64,
    pub y: i64,
}

/// A rigid 3D transform: a rotation matrix stored by rows, and a
/// translation. Entries are Q16.16 scalars.
#[derive(Clone, Copy, Debug, PartialEq, Eq, Structural)]
pub struct Pose {
    /// First row of the rotation matrix.
    pub row_x: Vec3,
    /// Second row of the rotation matrix.
    pub row_y: Vec3,
    /// Third row of the rotation matrix.
    pub row_z: Vec3,
    /// Translation applied after the rotation.
    pub translation: Vec3,
}

impl Pose {
    /// A pose is well formed when every rotation entry lies in
    /// `[-SCALE, SCALE]`, i.e. in `[-1, 1]` units, as the entries of a
    /// real rotation matrix do.
    pub open spec fn wf(self) -> bool {
        &&& -SCALE <= self.row_x.x <= SCALE
        &&& -SCALE <= self.row_x.y <= SCALE
        &&& -SCALE <= self.row_x.z <= SCALE
        &&& -SCALE <= self.row_y.x <= SCALE
        &&& -SCALE <= self.row_y.y <= SCALE
        &&& -SCALE <= self.row_y.z <= SCALE
        &&& -SCALE <= self.row_z.x <= SCALE
        &&& -SCALE <= self.row_z.y <= SCALE
        &&& -SCALE <= self.row_z.z <= SCALE
    }

    /// The identity transform.
    pub fn identity() -> (r: Pose)
        ensures
            r == identity_pose(),
    {
        Pose {
            row_x: Vec3 { x: SCALE, y: 0, z: 0 },
            row_y: Vec3 { x: 0, y: SCALE, z: 0 },
            row_z: Vec3 { x: 0, y: 0, z: SCALE },
            translation: Vec3 { x: 0, y: 0, z: 0 },
        }
    }

    /// Right-multiplies the rotation by a 90-degree yaw (rotation about
    /// the z axis). The product is exact: the yaw matrix's entries are
    /// 0 and ±1, so the new columns are a swap and a negation of the
    /// old ones.
    pub fn compose_yaw90(&self) -> (r: Pose)
        requires
            self.wf(),
        ensures
            r == yaw90_of(*self),
            r.wf(),
    {
        Pose {
            row_x: Vec3 { x: self.row_x.y, y: -self.row_x.x, z: self.row_x.z },
            row_y: Vec3 { x: self.row_y.y, y: -self.row_y.x, z: self.row_y.z },
            row_z: Vec3 { x: self.row_z.y, y: -self.row_z.x, z: self.row_z.z },
            translation: self.translation,
        }
    }
}

/// The identity pose.
pub open spec fn identity_pose() -> Pose {
    Pose {
        row_x: Vec3 { x: SCALE, y: 0, z: 0 },
        row_y: Vec3 { x: 0, y: SCALE, z: 0 },
        row_z: Vec3 { x: 0, y: 0, z: SCALE },
        translation: Vec3 { x: 0, y: 0, z: 0 },
    }
}

/// A pose composed on the right with a 90-degree yaw: column 0 becomes
/// the old column 1, column 1 the negated old column 0; column 2 and
/// the translation stay. (Meaningful for well-formed poses, whose
/// entries negate without leaving the `i64` range.)
pub open spec fn yaw90_of(p: Pose) -> Pose {
    Pose {
        row_x: Vec3 { x: p.row_x.y, y: (-p.row_x.x) as i64, z: p.row_x.z },
        row_y: Vec3 { x: p.row_y.y, y: (-p.row_y.x) as i64, z: p.row_y.z },
        row_z: Vec3 { x: p.row_z.y, y: (-p.row_z.x) as i64, z: p.row_z.z },
        translation: p.translation,
    }
}

/// Fixed-point dot product of a rotation row with a position, plus the
/// translation component: one coordinate of `R * p + t`.
pub open spec fn row_apply_spec(row: Vec3, p: Vec3, t: i64) -> Option<i64> {
    match (qmul_spec(row.x, p.x), qmul_spec(row.y, p.y), qmul_spec(row.z, p.z)) {
        (Option::Some(a), Option::Some(b), Option::Some(c)) => match qadd_spec(a, b) {
            Option::Some(ab) => match qadd_spec(ab, c) {
                Option::Some(abc) => qadd_spec(abc, t),
                Option::None => Option::None::<i64>,
            },
            Option::None => Option::None::<i64>,
        },
        _ => Option::None::<i64>,
    }
}

/// The camera-space position of `p` under pose `pose`: `R * p + t`,
/// coordinate by coordinate; `None` when a step leaves the `i64` range.
pub open spec fn transform_spec(pose: Pose, p: Vec3) -> Option<Vec3> {
    match (
        row_apply_spec(pose.row_x, p, pose.translation.x),
        row_apply_spec(pose.row_y, p, pose.translation.y),
        row_apply_spec(pose.row_z, p, pose.translation.z),
    ) {
        (Option::Some(x), Option::Some(y), Option::Some(z)) => Option::Some(Vec3 { x, y, z }),
        _ => Option::None::<Vec3>,
    }
}

/// One coordinate of `R * p + t`.
fn row_apply(row: &Vec3, p: &Vec3, t: i64) -> (r: Option<i64>)
    ensures
        r == row_apply_spec(*row, *p, t),
{
    let a = match qmul(row.x, p.x) {
        Some(v) => v,
        None => {
            return None;
        },
    };
    let b = match qmul(row.y, p.y) {
        Some(v) => v,
        None => {
            return None;
        },
    };
    let c = match qmul(row.z, p.z) {
        Some(v) => v,
        None => {
            return None;
        },
    };
    let ab = match qadd(a, b) {
        Some(v) => v,
        None => {
            return None;
        },
    };
    let abc = match qadd(ab, c) {
        Some(v) => v,
        None => {
            return None;
        },
    };
    qadd(abc, t)
}

/// Transforms a position into camera space.
pub fn transform(pose: &Pose, p: &Vec3) -> (r: Option<Vec3>)
    ensures
        r == transform_spec(*pose, *p),
{
    let x = match row_apply(&pose.row_x, p, pose.translation.x) {
        Some(v) => v,
        None => {
            return None;
        },
    };
    let y = match row_apply(&pose.row_y, p, pose.translation.y) {
        Some(v) => v,
        None => {
            return None;
        },
    };
    let z = match row_apply(&pose.row_z, p, pose.translation.z) {
        Some(v) => v,
        None => {
            return None;
        },
    };
    Some(Vec3 { x, y, z })
}

/// Exact squared distance of `p` from the origin, in squared
/// fixed-point steps (no overflow: computed over `int`).
pub open spec fn dist_sq(p: Vec3) -> int {
    p.x * p.x + p.y * p.y + p.z * p.z
}

/// A point within one unit of the lidar origin: such returns are
/// sensor-self echoes and are filtered before projection.
pub open spec fn within_unit_of_origin(p: Vec3) -> bool {
    dist_sq(p) <= SCALE * SCALE
}

/// Decides `within_unit_of_origin` exactly: an overflowing square or
/// sum means the point is far outside the unit ball.
pub fn near_origin(p: &Vec3) -> (r: bool)
    ensures
        r == within_unit_of_origin(*p),
{
    proof {
        crate::fixed::lemma_square_nonneg(p.x as int);
        crate::fixed::lemma_square_nonneg(p.y as int);
        crate::fixed::lemma_square_nonneg(p.z as int);
    }
    let xx = match p.x.checked_mul(p.x) {
        Some(v) => v,
        None => {
            return false;
        },
    };
    let yy = match p.y.checked_mul(p.y) {
        Some(v) => v,
        None => {
            return false;
        },
    };
    let zz = match p.z.checked_mul(p.z) {
        Some(v) => v,
        None => {
            return false;
        },
    };
    let xy = match xx.checked_add(yy) {
        Some(v) => v,
        None => {
            return false;
        },
    };
    let xyz = match xy.checked_add(zz) {
        Some(v) => v,
        None => {
            return false;
        },
    };
    xyz <= SCALE * SCALE
}

} // verus!
