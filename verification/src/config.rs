//! The per-process configuration value: topics, per-camera image
//! geometry and flags, and each camera's loaded calibration. Reading
//! and parsing the configuration file is the boundary's work; the core
//! consumes the resulting value and derives each camera's pose.

use vstd::prelude::*;

use crate::calib::MrptCalibration;
use crate::geometry::{yaw90_of, Pose};

verus! {

/// Version marker of the configuration file format.
#[derive(Clone, Copy, Debug, PartialEq, Eq, Structural)]
pub struct Version;

/// The configuration of one run: input topics, per-camera geometry and
/// flags, and both cameras' calibration, loaded once at startup.
#[derive(Clone, Debug)]
pub struct Config {
    /// Config format version.
    pub version: Version,
    /// Namespace the topics live under.
    pub namespace: String,
    /// Input topic for the point cloud.
    pub pcd_topic: String,
    /// Input topic for 2D detected objects.
    pub kneron_det_topic: String,
    /// The kneron camera's loaded intrinsic parameters.
    pub kneron_intrinsics: MrptCalibration,
    /// The kneron camera's loaded extrinsic pose.
    pub kneron_extrinsics: Pose,
    /// Marker size for presented kneron points.
    pub kneron_present_size: usize,
    /// Kneron image height and width, in pixels.
    pub kneron_image_hw: [usize; 2],
    /// Kneron detection frame height and width, in pixels.
    pub kneron_det_hw: [usize; 2],
    /// Whether the point cloud arrives pre-rotated by 90 degrees for
    /// the kneron camera.
    pub kneron_pcd_rotate_90: bool,
    /// Kneron region of interest: top, left, bottom, right.
    pub kneron_image_roi_tlbr: [usize; 4],
    /// Input topic for the otobrite image.
    pub otobrite_img_topic: String,
    /// Otobrite image height and width, in pixels.
    pub otobrite_image_hw: [usize; 2],
    /// Otobrite region of interest: top, left, bottom, right.
    pub otobrite_image_roi_tlbr: [usize; 4],
    /// Whether the otobrite image is displayed rotated by 180 degrees
    /// (display only, not part of the projection math).
    pub otobrite_image_rotate_180: bool,
    /// Whether the point cloud arrives pre-rotated by 90 degrees for
    /// the otobrite camera.
    pub otobrite_pcd_rotate_90: bool,
    /// Marker size for presented otobrite points.
    pub otobrite_present_size: usize,
    /// Distance range used by the display's coloring, Q16.16 units.
    pub otobrite_distance_range: [i64; 2],
    /// The otobrite camera's loaded intrinsic parameters.
    pub otobrite_intrinsics: MrptCalibration,
    /// The otobrite camera's loaded extrinsic pose.
    pub otobrite_extrinsics: Pose,
}

impl Config {
    /// The otobrite camera's projection pose: the loaded extrinsics,
    /// right-multiplied by a fixed 90-degree yaw when the point cloud
    /// arrives pre-rotated.
    pub fn otobrite_pose(&self) -> (r: Pose)
        requires
            self.otobrite_extrinsics.wf(),
        ensures
            r == (if self.otobrite_pcd_rotate_90 {
                yaw90_of(self.otobrite_extrinsics)
            } else {
                self.otobrite_extrinsics
            }),
            r.wf(),
    {
        if self.otobrite_pcd_rotate_90 {
            self.otobrite_extrinsics.compose_yaw90()
        } else {
            self.otobrite_extrinsics
        }
    }

    /// The kneron camera's projection pose: the loaded extrinsics,
    /// right-multiplied by a fixed 90-degree yaw when the point cloud
    /// arrives pre-rotated.
    pub fn kneron_pose(&self) -> (r: Pose)
        requires
            self.kneron_extrinsics.wf(),
        ensures
            r == (if self.kneron_pcd_rotate_90 {
                yaw90_of(self.kneron_extrinsics)
            } else {
                self.kneron_extrinsics
            }),
            r.wf(),
    {
        if self.kneron_pcd_rotate_90 {
            self.kneron_extrinsics.compose_yaw90()
        } else {
            self.kneron_extrinsics
        }
    }
}

} // verus!
