//! The point model: an ordered sequence of unit-vector samples.

use vstd::prelude::*;

verus! {

/// One magnetometer sample, a vector on (approximately) the unit sphere.
/// Each coordinate carries the host's double-precision value by its IEEE-754
/// bit pattern; the library stores, shares and selects coordinates but never
/// re-interprets them numerically.
#[derive(Clone, Copy, Debug, PartialEq, Eq, Structural)]
pub struct Point {
    pub x: u64,
    pub y: u64,
    pub z: u64,
}

/// Handle for the stream of synthetic unit-vector samples that seeds the
/// visualizer. Drawing a sample needs the host's random generator and its
/// floating-point normalization, so the successor operation lives with the
/// host; the handle itself only marks where the stream begins.
pub struct PointCloud {}

impl PointCloud {
    /// The start of the synthetic sample stream.
    pub fn iter() -> (r: PointCloud)
        ensures
            r == (PointCloud {  }),
    {
        PointCloud {  }
    }
}

} // verus!
