//! Projection of 3D lidar points into a camera's image plane: the
//! self-return filter, the camera-space depth filter, the pinhole model
//! with plumb-bob distortion, and the image-bounds filter, all in exact
//! Q16.16 fixed point.

use vstd::prelude::*;

use crate::cloud::{Point, PointRef, SharedPointCloud};
use crate::fixed::{qadd_opt, qadd_opt_spec, qdiv_opt, qdiv_opt_spec, qmul_opt, qmul_opt_spec, SCALE};
use crate::geometry::{near_origin, transform, transform_spec, within_unit_of_origin, PixelPoint, Pose, Vec3};

verus! {

/// Projection-ready parameters of one camera: its pose relative to the
/// lidar, the focal lengths and principal point of the camera matrix,
/// and the five plumb-bob distortion coefficients. All Q16.16.
#[derive(Clone, Copy, Debug, PartialEq, Eq, Structural)]
pub struct CameraParams {
    /// Lidar-to-camera rigid transform.
    pub pose: Pose,
    /// Focal length along x, in pixels.
    pub fx: i64,
    /// Focal length along y, in pixels.
    pub fy: i64,
    /// Principal point x, in pixels.
    pub cx: i64,
    /// Principal point y, in pixels.
    pub cy: i64,
    /// Second-order radial distortion coefficient.
    pub k1: i64,
    /// Fourth-order radial distortion coefficient.
    pub k2: i64,
    /// Sixth-order radial distortion coefficient.
    pub k3: i64,
    /// First tangential distortion coefficient.
    pub p1: i64,
    /// Second tangential distortion coefficient.
    pub p2: i64,
}

/// What the projection pipeline decides about one point.
#[derive(Clone, Copy, Debug, PartialEq, Eq, Structural)]
pub enum Outcome {
    /// Within one unit of the lidar origin: a sensor-self return,
    /// numerically unstable to project.
    TooClose,
    /// Camera-space depth at most one unit: behind or too near the
    /// camera's image plane.
    Behind,
    /// A fixed-point step left the representable range: the projection
    /// primitive rejects the input.
    Overflow,
    /// Projected outside the image bounds.
    OutOfImage,
    /// Visible in the image at this pixel coordinate.
    Visible(PixelPoint),
}

/// The distorted pixel coordinate of a camera-space point `c` with
/// depth `c.z`: normalized coordinates `x/z`, `y/z`, the plumb-bob
/// radial and tangential terms, then the camera matrix. Either
/// coordinate is `None` when a fixed-point step overflows.
#[verifier::opaque]
pub open spec fn pixel_of_spec(cp: CameraParams, c: Vec3) -> (Option<i64>, Option<i64>) {
    let z = Option::Some(c.z);
    let xn = qdiv_opt_spec(Option::Some(c.x), z);
    let yn = qdiv_opt_spec(Option::Some(c.y), z);
    let xx = qmul_opt_spec(xn, xn);
    let yy = qmul_opt_spec(yn, yn);
    let xy = qmul_opt_spec(xn, yn);
    let r2 = qadd_opt_spec(xx, yy);
    let r4 = qmul_opt_spec(r2, r2);
    let r6 = qmul_opt_spec(r4, r2);
    let radial = qadd_opt_spec(
        qadd_opt_spec(
            qadd_opt_spec(Option::Some(SCALE), qmul_opt_spec(Option::Some(cp.k1), r2)),
            qmul_opt_spec(Option::Some(cp.k2), r4),
        ),
        qmul_opt_spec(Option::Some(cp.k3), r6),
    );
    let p1xy = qmul_opt_spec(Option::Some(cp.p1), xy);
    let p2xy = qmul_opt_spec(Option::Some(cp.p2), xy);
    let xd = qadd_opt_spec(
        qadd_opt_spec(qmul_opt_spec(xn, radial), qadd_opt_spec(p1xy, p1xy)),
        qmul_opt_spec(Option::Some(cp.p2), qadd_opt_spec(r2, qadd_opt_spec(xx, xx))),
    );
    let yd = qadd_opt_spec(
        qadd_opt_spec(qmul_opt_spec(yn, radial), qmul_opt_spec(Option::Some(cp.p1), qadd_opt_spec(r2, qadd_opt_spec(yy, yy)))),
        qadd_opt_spec(p2xy, p2xy),
    );
    let u = qadd_opt_spec(qmul_opt_spec(Option::Some(cp.fx), xd), Option::Some(cp.cx));
    let v = qadd_opt_spec(qmul_opt_spec(Option::Some(cp.fy), yd), Option::Some(cp.cy));
    (u, v)
}

/// Computes `pixel_of_spec` exactly.
fn pixel_of(cp: &CameraParams, c: &Vec3) -> (r: (Option<i64>, Option<i64>))
    ensures
        r == pixel_of_spec(*cp, *c),
{
    proof {
        reveal(pixel_of_spec);
    }
    let z: Option<i64> = Some(c.z);
    let xn = qdiv_opt(Some(c.x), z);
    let yn = qdiv_opt(Some(c.y), z);
    let xx = qmul_opt(xn, xn);
    let yy = qmul_opt(yn, yn);
    let xy = qmul_opt(xn, yn);
    let r2 = qadd_opt(xx, yy);
    let r4 = qmul_opt(r2, r2);
    let r6 = qmul_opt(r4, r2);
    let radial = qadd_opt(
        qadd_opt(qadd_opt(Some(SCALE), qmul_opt(Some(cp.k1), r2)), qmul_opt(Some(cp.k2), r4)),
        qmul_opt(Some(cp.k3), r6),
    );
    let p1xy = qmul_opt(Some(cp.p1), xy);
    let p2xy = qmul_opt(Some(cp.p2), xy);
    let xd = qadd_opt(
        qadd_opt(qmul_opt(xn, radial), qadd_opt(p1xy, p1xy)),
        qmul_opt(Some(cp.p2), qadd_opt(r2, qadd_opt(xx, xx))),
    );
    let yd = qadd_opt(
        qadd_opt(qmul_opt(yn, radial), qmul_opt(Some(cp.p1), qadd_opt(r2, qadd_opt(yy, yy)))),
        qadd_opt(p2xy, p2xy),
    );
    let u = qadd_opt(qmul_opt(Some(cp.fx), xd), Some(cp.cx));
    let v = qadd_opt(qmul_opt(Some(cp.fy), yd), Some(cp.cy));
    (u, v)
}

/// Projects a vector of 3D points onto one camera's image plane.
pub struct PointProjector {
    /// Image height in pixels.
    pub height: usize,
    /// Image width in pixels.
    pub width: usize,
    /// The camera's projection parameters.
    pub camera_params: CameraParams,
}

/// A pixel coordinate inside the inclusive image bounds
/// `[0, width] x [0, height]` (in Q16.16 pixel units).
pub open spec fn in_image_spec(width: usize, height: usize, u: i64, v: i64) -> bool {
    &&& 0 <= u <= width * SCALE
    &&& 0 <= v <= height * SCALE
}

/// Decides `in_image_spec` exactly (the bound is compared widened, so
/// no image size overflows).
fn in_image(width: usize, height: usize, u: i64, v: i64) -> (r: bool)
    ensures
        r == in_image_spec(width, height, u, v),
{
    let wb: i128 = (width as i128) * (SCALE as i128);
    let hb: i128 = (height as i128) * (SCALE as i128);
    0 <= u && (u as i128) <= wb && 0 <= v && (v as i128) <= hb
}

/// The full per-point pipeline: the unit-distance filter, the
/// camera-space transform, the depth filter, the distorted pinhole
/// projection, and the image-bounds filter, in that order.
pub open spec fn point_outcome(pj: PointProjector, pos: Vec3) -> Outcome {
    if within_unit_of_origin(pos) {
        Outcome::TooClose
    } else {
        match transform_spec(pj.camera_params.pose, pos) {
            Option::None => Outcome::Overflow,
            Option::Some(c) => {
                if c.z <= SCALE {
                    Outcome::Behind
                } else {
                    match pixel_of_spec(pj.camera_params, c) {
                        (Option::Some(u), Option::Some(v)) => {
                            if in_image_spec(pj.width, pj.height, u, v) {
                                Outcome::Visible(PixelPoint { x: u, y: v })
                            } else {
                                Outcome::OutOfImage
                            }
                        },
                        _ => Outcome::Overflow,
                    }
                }
            },
        }
    }
}

/// Computes `point_outcome` exactly.
pub fn project_point(pj: &PointProjector, pos: &Vec3) -> (r: Outcome)
    ensures
        r == point_outcome(*pj, *pos),
{
    if near_origin(pos) {
        return Outcome::TooClose;
    }
    let c = match transform(&pj.camera_params.pose, pos) {
        Some(c) => c,
        None => {
            return Outcome::Overflow;
        },
    };
    if c.z <= SCALE {
        return Outcome::Behind;
    }
    match pixel_of(&pj.camera_params, &c) {
        (Some(u), Some(v)) => {
            if in_image(pj.width, pj.height, u, v) {
                Outcome::Visible(PixelPoint { x: u, y: v })
            } else {
                Outcome::OutOfImage
            }
        },
        _ => Outcome::Overflow,
    }
}

/// The projected pairs of a point sequence, in index order: one
/// `(index, pixel)` pair for each point whose outcome is `Visible`.
pub open spec fn visible_pairs(pj: PointProjector, pts: Seq<Point>) -> Seq<(int, PixelPoint)>
    decreases pts.len(),
{
    if pts.len() == 0 {
        Seq::empty()
    } else {
        let front = visible_pairs(pj, pts.drop_last());
        match point_outcome(pj, pts.last().position) {
            Outcome::Visible(px) => front.push((pts.len() - 1, px)),
            _ => front,
        }
    }
}

/// Some point of the sequence overflows the fixed-point pipeline.
pub open spec fn any_overflow(pj: PointProjector, pts: Seq<Point>) -> bool {
    exists|i: int|
        0 <= i < pts.len() && point_outcome(pj, pts[i].position) == Outcome::Overflow
}

/// The view of a projector's output: each point reference reduced to
/// its index, paired with its pixel coordinate.
pub open spec fn pairs_view(out: Seq<(PointRef, PixelPoint)>) -> Seq<(int, PixelPoint)> {
    out.map(|j: int, pr: (PointRef, PixelPoint)| (pr.0.index as int, pr.1))
}

/// The projection primitive rejected a point: a fixed-point step of the
/// camera transform or of the distortion model left the representable
/// range. The whole frame is dropped; no partial result is returned.
#[derive(Clone, Copy, Debug, PartialEq, Eq, Structural)]
pub struct ProjectionError {
    /// Index of the first rejected point.
    pub index: usize,
}

impl PointProjector {
    /// Projects every point of a shared cloud into this camera's image
    /// plane. Each output entry pairs a reference into the original
    /// cloud (no point is copied) with its pixel coordinate; points
    /// within one unit of the lidar, points of camera-space depth at
    /// most one unit, and points projecting outside the image are
    /// dropped. If any surviving point overflows the fixed-point
    /// pipeline (a camera-space coordinate or a distortion term beyond
    /// the Q16.16 range), the projection primitive has rejected its
    /// input: the whole call fails and nothing partial is returned.
    pub fn project(&self, points: &SharedPointCloud) -> (r: Result<
        Vec<(PointRef, PixelPoint)>,
        ProjectionError,
    >)
        ensures
            match r {
                Result::Ok(out) => {
                    &&& !any_overflow(*self, points@)
                    &&& pairs_view(out@) == visible_pairs(*self, points@)
                    &&& forall|j: int|
                        0 <= j < out@.len() ==> (#[trigger] out@[j]).0.wf() && out@[j].0.cloud@
                            == points@
                },
                Result::Err(e) => {
                    &&& e.index < points@.len()
                    &&& point_outcome(*self, points@[e.index as int].position) == Outcome::Overflow
                    &&& any_overflow(*self, points@)
                },
            },
    {
        let len = points.len();
        let mut out: Vec<(PointRef, PixelPoint)> = Vec::new();
        let mut i: usize = 0;
        while i < len
            invariant
                len == points@.len(),
                i <= len,
                pairs_view(out@) == visible_pairs(*self, points@.take(i as int)),
                forall|j: int|
                    0 <= j < out@.len() ==> (#[trigger] out@[j]).0.wf() && out@[j].0.cloud@
                        == points@,
                forall|k: int|
                    0 <= k < i ==> point_outcome(*self, points@[k].position) != Outcome::Overflow,
            decreases len - i,
        {
            let p = points.get(i);
            let outcome = project_point(self, &p.position);
            proof {
                assert(points@.take(i + 1).drop_last() =~= points@.take(i as int));
                assert(points@.take(i + 1).last() == points@[i as int]);
            }
            match outcome {
                Outcome::Visible(px) => {
                    let pr = points.point_ref(i);
                    out.push((pr, px));
                    proof {
                        assert(pairs_view(out@) =~= visible_pairs(*self, points@.take(i + 1)));
                    }
                },
                Outcome::Overflow => {
                    return Err(ProjectionError { index: i });
                },
                _ => {
                    proof {
                        assert(pairs_view(out@) =~= visible_pairs(*self, points@.take(i + 1)));
                    }
                },
            }
            i = i + 1;
        }
        proof {
            assert(points@.take(len as int) =~= points@);
        }
        Ok(out)
    }
}

/// Every projected pair traces back to exactly one input point: its
/// index lies inside the cloud and that point's outcome is `Visible`
/// at exactly the paired pixel.
pub proof fn lemma_pair_traces_to_input(pj: PointProjector, pts: Seq<Point>, j: int)
    requires
        0 <= j < visible_pairs(pj, pts).len(),
    ensures
        0 <= visible_pairs(pj, pts)[j].0 < pts.len(),
        point_outcome(pj, pts[visible_pairs(pj, pts)[j].0].position) == Outcome::Visible(
            visible_pairs(pj, pts)[j].1,
        ),
    decreases pts.len(),
{
    if pts.len() > 0 {
        let front = visible_pairs(pj, pts.drop_last());
        match point_outcome(pj, pts.last().position) {
            Outcome::Visible(px) => {
                if j < front.len() {
                    lemma_pair_traces_to_input(pj, pts.drop_last(), j);
                    assert(pts.drop_last()[visible_pairs(pj, pts)[j].0] == pts[visible_pairs(
                        pj,
                        pts,
                    )[j].0]);
                }
            },
            _ => {
                lemma_pair_traces_to_input(pj, pts.drop_last(), j);
                assert(pts.drop_last()[visible_pairs(pj, pts)[j].0] == pts[visible_pairs(
                    pj,
                    pts,
                )[j].0]);
            },
        }
    }
}

/// The projected pairs carry strictly increasing indices: no input
/// point is reported twice, so the output is one entry per surviving
/// input point.
pub proof fn lemma_pair_indices_strictly_increase(
    pj: PointProjector,
    pts: Seq<Point>,
    j1: int,
    j2: int,
)
    requires
        0 <= j1 < j2 < visible_pairs(pj, pts).len(),
    ensures
        visible_pairs(pj, pts)[j1].0 < visible_pairs(pj, pts)[j2].0,
    decreases pts.len(),
{
    if pts.len() > 0 {
        let front = visible_pairs(pj, pts.drop_last());
        match point_outcome(pj, pts.last().position) {
            Outcome::Visible(px) => {
                if j2 < front.len() {
                    lemma_pair_indices_strictly_increase(pj, pts.drop_last(), j1, j2);
                } else {
                    // j2 names the appended pair, whose index pts.len() - 1
                    // exceeds every index in the front.
                    lemma_pair_traces_to_input(pj, pts.drop_last(), j1);
                }
            },
            _ => {
                lemma_pair_indices_strictly_increase(pj, pts.drop_last(), j1, j2);
            },
        }
    }
}

/// A point within one unit of the lidar origin never appears in the
/// projector's output, whatever the calibration.
pub proof fn lemma_near_point_never_output(pj: PointProjector, pts: Seq<Point>, i: int, j: int)
    requires
        0 <= i < pts.len(),
        within_unit_of_origin(pts[i].position),
        0 <= j < visible_pairs(pj, pts).len(),
    ensures
        visible_pairs(pj, pts)[j].0 != i,
{
    lemma_pair_traces_to_input(pj, pts, j);
}

/// A point of camera-space depth at most one unit never appears in the
/// projector's output.
pub proof fn lemma_shallow_point_never_output(pj: PointProjector, pts: Seq<Point>, i: int, j: int)
    requires
        0 <= i < pts.len(),
        transform_spec(pj.camera_params.pose, pts[i].position) matches Option::Some(c) && c.z
            <= SCALE,
        0 <= j < visible_pairs(pj, pts).len(),
    ensures
        visible_pairs(pj, pts)[j].0 != i,
{
    lemma_pair_traces_to_input(pj, pts, j);
}

/// Every projected pixel lies inside the inclusive image bounds
/// `[0, width] x [0, height]`.
pub proof fn lemma_output_in_bounds(pj: PointProjector, pts: Seq<Point>, j: int)
    requires
        0 <= j < visible_pairs(pj, pts).len(),
    ensures
        0 <= visible_pairs(pj, pts)[j].1.x <= pj.width * SCALE,
        0 <= visible_pairs(pj, pts)[j].1.y <= pj.height * SCALE,
{
    lemma_pair_traces_to_input(pj, pts, j);
}

/// Projection is deterministic: two runs over the same cloud with the
/// same parameters yield the same pairs (the same set, and even the
/// same order).
pub proof fn lemma_project_idempotent(
    pj: PointProjector,
    pts: Seq<Point>,
    r1: Seq<(int, PixelPoint)>,
    r2: Seq<(int, PixelPoint)>,
)
    requires
        r1 == visible_pairs(pj, pts),
        r2 == visible_pairs(pj, pts),
    ensures
        r1 == r2,
{
}

/// A camera-space point on the optical axis projects exactly to the
/// principal point, whatever the distortion coefficients.
pub proof fn lemma_optical_axis_hits_principal_point(cp: CameraParams, c: Vec3)
    requires
        c.x == 0,
        c.y == 0,
        c.z > SCALE,
    ensures
        pixel_of_spec(cp, c) == (Option::Some(cp.cx), Option::Some(cp.cy)),
{
    reveal(pixel_of_spec);
    let z = Option::Some(c.z);
    assert(qdiv_opt_spec(Option::Some(c.x), z) == Option::Some(0i64));
    assert(qdiv_opt_spec(Option::Some(c.y), z) == Option::Some(0i64));
    assert(qmul_opt_spec(Option::Some(0i64), Option::Some(0i64)) == Option::Some(0i64));
    assert(qadd_opt_spec(Option::Some(0i64), Option::Some(0i64)) == Option::Some(0i64));
    assert(forall|a: i64| qmul_opt_spec(Option::Some(a), Option::Some(0i64)) == Option::Some(0i64));
    assert(forall|a: i64|
        qadd_opt_spec(Option::Some(a), Option::Some(0i64)) == Option::Some(a));
    assert(forall|a: i64| #[trigger] qmul_opt_spec(Option::Some(0i64), Option::Some(a))
        == Option::Some(0i64));
    assert(pixel_of_spec(cp, c) == (Option::Some(cp.cx), Option::Some(cp.cy)));
}

} // verus!
