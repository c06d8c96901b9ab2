//! The shared point cloud: one immutable buffer of points, any number
//! of reference-counted read-only handles, and per-point references
//! that never copy the buffer.

use std::sync::Arc;
use vstd::prelude::*;

use crate::geometry::Vec3;

verus! {

/// Relies on std's `Arc::clone`: the result is a new handle to the very
/// same value; nothing inside the buffer is copied.
#[verifier::external_body]
pub(crate) fn arc_share<T>(v: &Arc<T>) -> (r: Arc<T>)
    ensures
        r == *v,
{
    Arc::clone(v)
}

/// A single lidar return: a 3D position and an intensity, in Q16.16
/// fixed point. Immutable once its cloud is built.
#[derive(Clone, Copy, Debug, PartialEq, Eq, Structural)]
pub struct Point {
    pub position: Vec3,
    pub intensity: i64,
}

/// An ordered, immutable sequence of points. Indices stay valid for the
/// cloud's whole lifetime: nothing reorders or mutates it after
/// construction.
pub struct PointCloud {
    points: Vec<Point>,
}

impl View for PointCloud {
    type V = Seq<Point>;

    closed spec fn view(&self) -> Seq<Point> {
        self.points@
    }
}

/// A reference-counted read-only handle to one point cloud. Cloning the
/// handle shares the same buffer; the buffer is freed only when the
/// last handle is dropped.
pub struct SharedPointCloud {
    inner: Arc<PointCloud>,
}

impl View for SharedPointCloud {
    type V = Seq<Point>;

    closed spec fn view(&self) -> Seq<Point> {
        self.inner@
    }
}

impl Clone for SharedPointCloud {
    /// A new handle to the same cloud: the points are shared, not copied.
    fn clone(&self) -> (r: Self)
        ensures
            r@ == self@,
    {
        SharedPointCloud { inner: arc_share(&self.inner) }
    }
}

impl SharedPointCloud {
    /// Takes ownership of a newly decoded point buffer, exactly once.
    pub fn new(points: Vec<Point>) -> (r: SharedPointCloud)
        ensures
            r@ == points@,
    {
        SharedPointCloud { inner: Arc::new(PointCloud { points }) }
    }

    /// Number of points in the cloud.
    pub fn len(&self) -> (r: usize)
        ensures
            r == self@.len(),
    {
        self.inner.points.len()
    }

    /// Whether the cloud holds no point.
    pub fn is_empty(&self) -> (r: bool)
        ensures
            r == (self@.len() == 0),
    {
        self.inner.points.len() == 0
    }

    /// Borrows the `index`-th point without copying it.
    pub fn get(&self, index: usize) -> (r: &Point)
        requires
            index < self@.len(),
        ensures
            *r == self@[index as int],
    {
        &self.inner.points[index]
    }

    /// A lightweight reference to the `index`-th point: a shared handle
    /// and an index, no copy of the point.
    pub fn point_ref(&self, index: usize) -> (r: PointRef)
        requires
            index < self@.len(),
        ensures
            r.wf(),
            r.cloud@ == self@,
            r.index == index,
    {
        PointRef { cloud: self.clone(), index }
    }
}

/// Designates the `index`-th point of one shared cloud. Holding it
/// keeps the cloud alive; the cloud never refers back, so no cycle can
/// form.
pub struct PointRef {
    /// Handle to the owning cloud.
    pub cloud: SharedPointCloud,
    /// Index of the designated point.
    pub index: usize,
}

impl PointRef {
    /// A point reference is well formed when its index lies inside its
    /// cloud.
    pub open spec fn wf(self) -> bool {
        self.index < self.cloud@.len()
    }

    /// The designated point, as a value in the cloud's sequence.
    pub open spec fn point(self) -> Point {
        self.cloud@[self.index as int]
    }

    /// Borrows the designated point from the shared buffer.
    pub fn get(&self) -> (r: &Point)
        requires
            self.wf(),
        ensures
            *r == self.point(),
    {
        self.cloud.get(self.index)
    }
}

impl Clone for PointRef {
    /// A new reference to the same point of the same cloud.
    fn clone(&self) -> (r: Self)
        ensures
            r.cloud@ == self.cloud@,
            r.index == self.index,
    {
        PointRef { cloud: self.cloud.clone(), index: self.index }
    }
}

} // verus!
