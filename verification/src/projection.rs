//! The view parameters of the 3-D chart and their composition.

use vstd::prelude::*;

use crate::rat::Rat;
use crate::rat::is_sum;
use crate::rat::sum_fits;

verus! {

/// The camera parameters of the 3-D chart: yaw and pitch in radians, and a
/// linear zoom factor. Each is an exact rational; the design composes
/// projections by component-wise addition only.
#[derive(Clone, Copy, Debug)]
pub struct PlotProjection {
    pub yaw: Rat,
    pub pitch: Rat,
    pub scale: Rat,
}

impl PlotProjection {
    /// All three components are well-formed rationals.
    pub open spec fn wf(self) -> bool {
        self.yaw.wf() && self.pitch.wf() && self.scale.wf()
    }

    /// All three component additions fit without reduction, so composing
    /// with [`PlotProjection::add`] is guaranteed to succeed.
    pub open spec fn sum_fits_with(self, rhs: PlotProjection) -> bool {
        sum_fits(self.yaw, rhs.yaw) && sum_fits(self.pitch, rhs.pitch) && sum_fits(
            self.scale,
            rhs.scale,
        )
    }

    pub fn new(yaw: Rat, pitch: Rat, scale: Rat) -> (r: PlotProjection)
        requires
            yaw.wf(),
            pitch.wf(),
            scale.wf(),
        ensures
            r == (PlotProjection { yaw, pitch, scale }),
            r.wf(),
    {
        PlotProjection { yaw, pitch, scale }
    }

    /// Component-wise addition, the only composition the design defines:
    /// the yaw of the sum is the sum of the yaws, and likewise for pitch
    /// and scale. `None` only when a reduced component would not fit `i64`
    /// fields.
    pub fn add(self, rhs: PlotProjection) -> (r: Option<PlotProjection>)
        requires
            self.wf(),
            rhs.wf(),
        ensures
            r matches Some(p) ==> p.wf() && is_sum(p.yaw, self.yaw, rhs.yaw) && is_sum(
                p.pitch,
                self.pitch,
                rhs.pitch,
            ) && is_sum(p.scale, self.scale, rhs.scale),
            self.sum_fits_with(rhs) ==> r is Some,
    {
        let yaw = self.yaw.checked_add(rhs.yaw);
        let pitch = self.pitch.checked_add(rhs.pitch);
        let scale = self.scale.checked_add(rhs.scale);
        match (yaw, pitch, scale) {
            (Some(yaw), Some(pitch), Some(scale)) => Some(PlotProjection { yaw, pitch, scale }),
            _ => None,
        }
    }

    /// Exact equality of the denoted view parameters.
    pub fn same_view(&self, other: &PlotProjection) -> (r: bool)
        ensures
            r == (self.yaw.same(other.yaw) && self.pitch.same(other.pitch) && self.scale.same(
                other.scale,
            )),
    {
        self.yaw.same_value(&other.yaw) && self.pitch.same_value(&other.pitch)
            && self.scale.same_value(&other.scale)
    }
}

} // verus!
