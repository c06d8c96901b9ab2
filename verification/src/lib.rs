//! Camera/LiDAR fusion core: calibration modeling, projection of a
//! shared point cloud into each camera's image plane, and association
//! of the projected points with detected 2D bounding boxes.
//!
//! Every geometric quantity is a Q16.16 fixed-point integer (`fixed`),
//! so each filter, transform and projection step is exact and carries a
//! full contract:
//!
//! - `geometry`: vectors, rigid poses, the lidar-to-camera transform
//!   and the unit-distance self-return filter;
//! - `cloud`: the immutable point cloud behind reference-counted
//!   handles, and per-point references that never copy the buffer;
//! - `calib`: dimension-checked calibration matrices, intrinsics, and
//!   extrinsics in quaternion or matrix form;
//! - `projection`: the per-point pipeline (distance filter, depth
//!   filter, distorted pinhole projection, image-bounds filter) and the
//!   projector over a whole cloud;
//! - `association`: detection rectangles and the smallest-area
//!   containment rule linking projected points to detections;
//! - `config`: the per-run configuration and each camera's derived
//!   pose;
//! - `message`: the fused per-consumer message shapes;
//! - `color_mode`: the viewer's point-coloring mode cycle.

pub mod association;
pub mod calib;
pub mod cloud;
pub mod color_mode;
pub mod config;
pub mod fixed;
pub mod geometry;
pub mod message;
pub mod projection;
