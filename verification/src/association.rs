//! Association of projected 2D points with detection rectangles: each
//! projected point is linked to the rectangle that contains it — the
//! one of smallest area when several do, the earliest on a tie — or to
//! none, in which case the point is kept, not dropped.

use std::sync::Arc;
use vstd::prelude::*;

use crate::cloud::{arc_share, PointRef};
use crate::geometry::PixelPoint;

verus! {

/// An axis-aligned detection rectangle in image pixel space, corners
/// and sizes in Q16.16 pixels, with optional class metadata.
#[derive(Clone, Copy, Debug, PartialEq, Eq, Structural)]
pub struct DetectionRect {
    /// Left edge.
    pub x: i64,
    /// Top edge.
    pub y: i64,
    /// Horizontal size; never negative in a well-formed rectangle.
    pub width: i64,
    /// Vertical size; never negative in a well-formed rectangle.
    pub height: i64,
    /// Optional class or identity of the detection.
    pub class_id: Option<u64>,
}

impl DetectionRect {
    /// A rectangle is well formed when its sizes are not negative and
    /// its far corner stays representable.
    pub open spec fn wf(self) -> bool {
        &&& 0 <= self.width
        &&& 0 <= self.height
        &&& self.x + self.width <= i64::MAX
        &&& self.y + self.height <= i64::MAX
    }

    /// Whether a pixel lies inside the rectangle (edges inclusive).
    pub open spec fn contains_spec(self, p: PixelPoint) -> bool {
        &&& self.x <= p.x <= self.x + self.width
        &&& self.y <= p.y <= self.y + self.height
    }

    /// The rectangle's area, in squared fixed-point pixel steps.
    pub open spec fn area(self) -> int {
        self.width * self.height
    }

    /// Decides `contains_spec` exactly.
    pub fn contains(&self, p: &PixelPoint) -> (r: bool)
        requires
            self.wf(),
        ensures
            r == self.contains_spec(*p),
    {
        self.x <= p.x && p.x <= self.x + self.width && self.y <= p.y && p.y <= self.y
            + self.height
    }
}

/// Whether `a`'s area is strictly smaller than `b`'s (compared widened,
/// so no area overflows).
fn area_lt(a: &DetectionRect, b: &DetectionRect) -> (r: bool)
    ensures
        r == (a.area() < b.area()),
{
    proof {
        assert((a.width as int) * (a.height as int) == (a.width as i128) * (a.height as i128)
            && i128::MIN <= (a.width as i128) * (a.height as i128) <= i128::MAX) by (nonlinear_arith);
        assert((b.width as int) * (b.height as int) == (b.width as i128) * (b.height as i128)
            && i128::MIN <= (b.width as i128) * (b.height as i128) <= i128::MAX) by (nonlinear_arith);
    }
    let aa: i128 = (a.width as i128) * (a.height as i128);
    let bb: i128 = (b.width as i128) * (b.height as i128);
    aa < bb
}

/// The detection rectangles of one frame, immutable once built.
pub struct RectVec {
    rects: Vec<DetectionRect>,
}

impl View for RectVec {
    type V = Seq<DetectionRect>;

    closed spec fn view(&self) -> Seq<DetectionRect> {
        self.rects@
    }
}

/// A reference-counted read-only handle to one frame's rectangles,
/// shared without copying, like the point cloud's handles.
pub struct SharedRectVec {
    inner: Arc<RectVec>,
}

impl View for SharedRectVec {
    type V = Seq<DetectionRect>;

    closed spec fn view(&self) -> Seq<DetectionRect> {
        self.inner@
    }
}

impl Clone for SharedRectVec {
    /// A new handle to the same rectangles: shared, not copied.
    fn clone(&self) -> (r: Self)
        ensures
            r@ == self@,
    {
        SharedRectVec { inner: arc_share(&self.inner) }
    }
}

impl SharedRectVec {
    /// Takes ownership of one frame's decoded rectangles.
    pub fn new(rects: Vec<DetectionRect>) -> (r: SharedRectVec)
        ensures
            r@ == rects@,
    {
        SharedRectVec { inner: Arc::new(RectVec { rects }) }
    }

    /// Number of rectangles.
    pub fn len(&self) -> (r: usize)
        ensures
            r == self@.len(),
    {
        self.inner.rects.len()
    }

    /// Borrows the `index`-th rectangle.
    pub fn get(&self, index: usize) -> (r: &DetectionRect)
        requires
            index < self@.len(),
        ensures
            *r == self@[index as int],
    {
        &self.inner.rects[index]
    }

    /// A lightweight reference to the `index`-th rectangle.
    pub fn rect_ref(&self, index: usize) -> (r: RectRef)
        requires
            index < self@.len(),
        ensures
            r.wf(),
            r.rects@ == self@,
            r.index == index,
    {
        RectRef { rects: self.clone(), index }
    }
}

/// Designates one rectangle of a shared frame, without copying it.
pub struct RectRef {
    /// Handle to the owning collection.
    pub rects: SharedRectVec,
    /// Index of the designated rectangle.
    pub index: usize,
}

impl RectRef {
    /// Well formed when the index lies inside the collection.
    pub open spec fn wf(self) -> bool {
        self.index < self.rects@.len()
    }

    /// The designated rectangle, as a value.
    pub open spec fn rect(self) -> DetectionRect {
        self.rects@[self.index as int]
    }

    /// Borrows the designated rectangle.
    pub fn get(&self) -> (r: &DetectionRect)
        requires
            self.wf(),
        ensures
            *r == self.rect(),
    {
        self.rects.get(self.index)
    }
}

/// Links one 3D point, its 2D projection, and the rectangle it falls
/// inside, if any. Never mutated after creation.
pub struct Association {
    /// Reference into the shared point cloud.
    pub pcd_point: PointRef,
    /// The point's projected image coordinate.
    pub img_point: PixelPoint,
    /// The containing rectangle of smallest area, or `None` when the
    /// point lies outside every rectangle.
    pub rect: Option<RectRef>,
}

impl Association {
    /// The referenced 3D point.
    pub fn point_ref(&self) -> (r: &PointRef)
        ensures
            *r == self.pcd_point,
    {
        &self.pcd_point
    }

    /// The projected image coordinate.
    pub fn image_point(&self) -> (r: &PixelPoint)
        ensures
            *r == self.img_point,
    {
        &self.img_point
    }

    /// The containing rectangle, if any.
    pub fn rect_ref(&self) -> (r: &Option<RectRef>)
        ensures
            *r == self.rect,
    {
        &self.rect
    }
}

/// The index of the rectangle a pixel associates with: among the
/// rectangles that contain the pixel, the one of smallest area, and of
/// equal-area candidates the earliest; `None` when no rectangle
/// contains the pixel.
pub open spec fn best_rect(rects: Seq<DetectionRect>, p: PixelPoint) -> Option<int>
    decreases rects.len(),
{
    if rects.len() == 0 {
        Option::None::<int>
    } else {
        let front = best_rect(rects.drop_last(), p);
        if rects.last().contains_spec(p) {
            match front {
                Option::None => Option::Some(rects.len() - 1),
                Option::Some(j) => {
                    if rects.last().area() < rects[j].area() {
                        Option::Some(rects.len() - 1)
                    } else {
                        Option::Some(j)
                    }
                },
            }
        } else {
            front
        }
    }
}

/// Computes `best_rect` exactly.
fn find_best_rect(rects: &SharedRectVec, p: &PixelPoint) -> (r: Option<usize>)
    requires
        forall|k: int| 0 <= k < rects@.len() ==> (#[trigger] rects@[k]).wf(),
    ensures
        match r {
            Option::Some(j) => j < rects@.len() && best_rect(rects@, *p) == Option::Some(j as int),
            Option::None => best_rect(rects@, *p) == Option::None::<int>,
        },
{
    let len = rects.len();
    let mut best: Option<usize> = None;
    let mut i: usize = 0;
    while i < len
        invariant
            len == rects@.len(),
            i <= len,
            forall|k: int| 0 <= k < rects@.len() ==> (#[trigger] rects@[k]).wf(),
            match best {
                Option::Some(b) => b < i && best_rect(rects@.take(i as int), *p) == Option::Some(
                    b as int,
                ),
                Option::None => best_rect(rects@.take(i as int), *p) == Option::None::<int>,
            },
        decreases len - i,
    {
        let rect = rects.get(i);
        proof {
            assert(rects@.take(i + 1).drop_last() =~= rects@.take(i as int));
            assert(rects@.take(i + 1).last() == rects@[i as int]);
        }
        if rect.contains(p) {
            match best {
                None => {
                    best = Some(i);
                },
                Some(b) => {
                    if area_lt(rect, rects.get(b)) {
                        best = Some(i);
                    }
                },
            }
        }
        i = i + 1;
    }
    proof {
        assert(rects@.take(len as int) =~= rects@);
    }
    best
}

/// Associates every projected point with the rectangle that contains
/// it, if any: one `Association` per input point, in input order. A
/// point inside no rectangle keeps an association with no rectangle
/// reference; a point inside several gets the rectangle of smallest
/// area, the earliest on a tie.
pub fn associate(projected: &Vec<(PointRef, PixelPoint)>, rects: &SharedRectVec) -> (r: Vec<
    Association,
>)
    requires
        forall|k: int| 0 <= k < rects@.len() ==> (#[trigger] rects@[k]).wf(),
    ensures
        r@.len() == projected@.len(),
        forall|i: int|
            0 <= i < r@.len() ==> {
                let a = #[trigger] r@[i];
                &&& a.pcd_point.cloud@ == projected@[i].0.cloud@
                &&& a.pcd_point.index == projected@[i].0.index
                &&& (projected@[i].0.wf() ==> a.pcd_point.wf())
                &&& a.img_point == projected@[i].1
                &&& match a.rect {
                    Option::None => best_rect(rects@, projected@[i].1) == Option::None::<int>,
                    Option::Some(rr) => {
                        &&& rr.wf()
                        &&& rr.rects@ == rects@
                        &&& best_rect(rects@, projected@[i].1) == Option::Some(rr.index as int)
                    },
                }
            },
{
    let len = projected.len();
    let mut out: Vec<Association> = Vec::new();
    let mut i: usize = 0;
    while i < len
        invariant
            len == projected@.len(),
            i <= len,
            out@.len() == i,
            forall|k: int| 0 <= k < rects@.len() ==> (#[trigger] rects@[k]).wf(),
            forall|j: int|
                0 <= j < out@.len() ==> {
                    let a = #[trigger] out@[j];
                    &&& a.pcd_point.cloud@ == projected@[j].0.cloud@
                    &&& a.pcd_point.index == projected@[j].0.index
                    &&& (projected@[j].0.wf() ==> a.pcd_point.wf())
                    &&& a.img_point == projected@[j].1
                    &&& match a.rect {
                        Option::None => best_rect(rects@, projected@[j].1) == Option::None::<int>,
                        Option::Some(rr) => {
                            &&& rr.wf()
                            &&& rr.rects@ == rects@
                            &&& best_rect(rects@, projected@[j].1) == Option::Some(rr.index as int)
                        },
                    }
                },
        decreases len - i,
    {
        let entry = &projected[i];
        let rect = match find_best_rect(rects, &entry.1) {
            Some(j) => Some(rects.rect_ref(j)),
            None => None,
        };
        out.push(Association { pcd_point: entry.0.clone(), img_point: entry.1, rect });
        i = i + 1;
    }
    out
}

/// `best_rect` is sound and complete: when it names a rectangle, that
/// rectangle contains the pixel and no containing rectangle has a
/// smaller area; when it names none, no rectangle contains the pixel.
pub proof fn lemma_best_rect_correct(rects: Seq<DetectionRect>, p: PixelPoint)
    ensures
        match best_rect(rects, p) {
            Option::None => forall|k: int|
                0 <= k < rects.len() ==> !(#[trigger] rects[k]).contains_spec(p),
            Option::Some(j) => {
                &&& 0 <= j < rects.len()
                &&& rects[j].contains_spec(p)
                &&& forall|k: int|
                    0 <= k < rects.len() && (#[trigger] rects[k]).contains_spec(p)
                        ==> rects[j].area() <= rects[k].area()
            },
        },
    decreases rects.len(),
{
    if rects.len() > 0 {
        lemma_best_rect_correct(rects.drop_last(), p);
        assert(forall|k: int|
            0 <= k < rects.len() - 1 ==> #[trigger] rects[k] == rects.drop_last()[k]);
    }
}

/// A point inside several rectangles associates with one of smallest
/// area: the chosen rectangle's area never exceeds the area of any
/// rectangle containing the point.
pub proof fn lemma_tiebreak_smallest_area(
    rects: Seq<DetectionRect>,
    p: PixelPoint,
    j: int,
    k: int,
)
    requires
        best_rect(rects, p) == Option::Some(j),
        0 <= k < rects.len(),
        rects[k].contains_spec(p),
    ensures
        0 <= j < rects.len(),
        rects[j].contains_spec(p),
        rects[j].area() <= rects[k].area(),
{
    lemma_best_rect_correct(rects, p);
}

/// A projected point outside every rectangle is kept, with no
/// rectangle reference: its association is `None`, never a dropped
/// point.
pub proof fn lemma_unassociated_point_kept(rects: Seq<DetectionRect>, p: PixelPoint)
    requires
        forall|k: int| 0 <= k < rects.len() ==> !(#[trigger] rects[k]).contains_spec(p),
    ensures
        best_rect(rects, p) == Option::None::<int>,
{
    lemma_best_rect_correct(rects, p);
    if best_rect(rects, p) is Some {
        let j = best_rect(rects, p)->Some_0;
        assert(!rects[j].contains_spec(p));
    }
}

} // verus!
