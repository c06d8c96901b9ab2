//! Fusion message assembly: the per-camera message shapes handed to
//! downstream consumers, each packaging projector/associator output
//! (and, for the image camera, the decoded frame) behind shared
//! read-only handles.

use std::sync::Arc;
use vstd::prelude::*;

use crate::association::{Association, SharedRectVec};
use crate::cloud::{arc_share, SharedPointCloud};

verus! {

/// One frame's associations behind a reference-counted read-only
/// handle, shared by every consumer without copying.
pub struct SharedAssocVec {
    inner: Arc<Vec<Association>>,
}

impl View for SharedAssocVec {
    type V = Seq<Association>;

    closed spec fn view(&self) -> Seq<Association> {
        self.inner@
    }
}

impl Clone for SharedAssocVec {
    /// A new handle to the same associations: shared, not copied.
    fn clone(&self) -> (r: Self)
        ensures
            r@ == self@,
    {
        SharedAssocVec { inner: arc_share(&self.inner) }
    }
}

impl SharedAssocVec {
    /// Takes ownership of one frame's associations.
    pub fn new(assocs: Vec<Association>) -> (r: SharedAssocVec)
        ensures
            r@ == assocs@,
    {
        SharedAssocVec { inner: Arc::new(assocs) }
    }

    /// Number of associations.
    pub fn len(&self) -> (r: usize)
        ensures
            r == self@.len(),
    {
        self.inner.len()
    }

    /// Borrows the `index`-th association.
    pub fn get(&self, index: usize) -> (r: &Association)
        requires
            index < self@.len(),
        ensures
            *r == self@[index as int],
    {
        &self.inner[index]
    }
}

/// A decoded camera frame: row-major 8-bit BGR samples. Decoding is the
/// boundary's work; the core only carries the buffer to consumers.
#[derive(Clone, Debug)]
pub struct ImageBgr {
    /// Number of pixel rows.
    pub rows: usize,
    /// Number of pixel columns.
    pub cols: usize,
    /// Row-major samples, three bytes per pixel.
    pub data: Vec<u8>,
}

impl ImageBgr {
    /// The buffer holds exactly three bytes for each pixel.
    pub open spec fn wf(self) -> bool {
        self.data@.len() == self.rows * self.cols * 3
    }
}

/// The fused output for the image camera: the camera frame, if one
/// arrived, and the frame's associations, if a cloud arrived.
pub struct OtobriteMessage {
    /// The decoded camera frame.
    pub image: Option<ImageBgr>,
    /// The projected and associated points.
    pub assocs: Option<SharedAssocVec>,
}

/// The fused output for the detection camera: the frame's detection
/// rectangles and its associations, each if the input arrived.
pub struct KneronMessage {
    /// The frame's detection rectangles.
    pub rects: Option<SharedRectVec>,
    /// The projected and associated points.
    pub assocs: Option<SharedAssocVec>,
}

/// The fused output for the 3D viewer: the shared cloud and the
/// detection camera's associations, if any.
pub struct Kiss3dMessage {
    /// The frame's point cloud, shared with every other consumer.
    pub points: SharedPointCloud,
    /// The detection camera's associations.
    pub kneron_assocs: Option<SharedAssocVec>,
}

/// A fused message for any downstream consumer.
pub enum FuseMessage {
    /// For the image camera's window.
    Otobrite(OtobriteMessage),
    /// For the detection camera's window.
    Kneron(KneronMessage),
    /// For the 3D point cloud viewer.
    Kiss3d(Kiss3dMessage),
}

/// A fused message for one of the 2D image windows.
pub enum OpencvMessage {
    /// For the image camera's window.
    Otobrite(OtobriteMessage),
    /// For the detection camera's window.
    Kneron(KneronMessage),
}

impl From<Kiss3dMessage> for FuseMessage {
    /// Wraps a viewer message.
    fn from(v: Kiss3dMessage) -> (r: Self) {
        FuseMessage::Kiss3d(v)
    }
}

impl vstd::std_specs::convert::FromSpecImpl<Kiss3dMessage> for FuseMessage {
    open spec fn obeys_from_spec() -> bool {
        true
    }

    open spec fn from_spec(v: Kiss3dMessage) -> Self {
        FuseMessage::Kiss3d(v)
    }
}

impl From<KneronMessage> for FuseMessage {
    /// Wraps a detection camera message.
    fn from(v: KneronMessage) -> (r: Self) {
        FuseMessage::Kneron(v)
    }
}

impl vstd::std_specs::convert::FromSpecImpl<KneronMessage> for FuseMessage {
    open spec fn obeys_from_spec() -> bool {
        true
    }

    open spec fn from_spec(v: KneronMessage) -> Self {
        FuseMessage::Kneron(v)
    }
}

impl From<OtobriteMessage> for FuseMessage {
    /// Wraps an image camera message.
    fn from(v: OtobriteMessage) -> (r: Self) {
        FuseMessage::Otobrite(v)
    }
}

impl vstd::std_specs::convert::FromSpecImpl<OtobriteMessage> for FuseMessage {
    open spec fn obeys_from_spec() -> bool {
        true
    }

    open spec fn from_spec(v: OtobriteMessage) -> Self {
        FuseMessage::Otobrite(v)
    }
}

impl From<KneronMessage> for OpencvMessage {
    /// Wraps a detection camera message.
    fn from(v: KneronMessage) -> (r: Self) {
        OpencvMessage::Kneron(v)
    }
}

impl vstd::std_specs::convert::FromSpecImpl<KneronMessage> for OpencvMessage {
    open spec fn obeys_from_spec() -> bool {
        true
    }

    open spec fn from_spec(v: KneronMessage) -> Self {
        OpencvMessage::Kneron(v)
    }
}

impl From<OtobriteMessage> for OpencvMessage {
    /// Wraps an image camera message.
    fn from(v: OtobriteMessage) -> (r: Self) {
        OpencvMessage::Otobrite(v)
    }
}

impl vstd::std_specs::convert::FromSpecImpl<OtobriteMessage> for OpencvMessage {
    open spec fn obeys_from_spec() -> bool {
        true
    }

    open spec fn from_spec(v: OtobriteMessage) -> Self {
        OpencvMessage::Otobrite(v)
    }
}

} // verus!
