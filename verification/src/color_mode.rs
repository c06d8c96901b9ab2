//! The viewer's point-coloring mode and the decision that cycles it
//! when the user presses the cycle key. The window and event plumbing
//! are the boundary's work; the decision itself is here.

use vstd::prelude::*;

verus! {

/// How the viewer colors the displayed points.
#[derive(Clone, Copy, Debug, PartialEq, Eq, Structural)]
pub enum PointColorMode {
    /// One uniform color for every point.
    Uniform,
    /// Color sampled from each point's return intensity.
    Intensity,
    /// Color sampled from each point's distance to the lidar.
    Distance,
    /// Color sampled from the associated detection's class.
    ObjectClass,
}

impl Default for PointColorMode {
    /// The viewer starts in the uniform mode.
    fn default() -> (r: Self)
        ensures
            r == PointColorMode::Uniform,
    {
        PointColorMode::Uniform
    }
}

impl PointColorMode {
    /// The mode after this one: each press moves one step through the
    /// cycle and wraps back to the first mode.
    pub fn next(&self) -> (r: Self)
        ensures
            r == (match *self {
                PointColorMode::Uniform => PointColorMode::Intensity,
                PointColorMode::Intensity => PointColorMode::Distance,
                PointColorMode::Distance => PointColorMode::ObjectClass,
                PointColorMode::ObjectClass => PointColorMode::Uniform,
            }),
    {
        match self {
            PointColorMode::Uniform => PointColorMode::Intensity,
            PointColorMode::Intensity => PointColorMode::Distance,
            PointColorMode::Distance => PointColorMode::ObjectClass,
            PointColorMode::ObjectClass => PointColorMode::Uniform,
        }
    }
}

} // verus!
