//! The pointer-drag state machine of the viewport.
//!
//! A drag in progress pins the projection that was live when the drag
//! began; while the drag lasts, the active projection is always that
//! snapshot plus a delta derived from the total pointer displacement,
//! scaled by the widget size. Ending a drag clears the snapshot; a new
//! drag re-snapshots.

use vstd::prelude::*;

use crate::projection::PlotProjection;
use crate::rat::abs_of;
use crate::rat::denotes;
use crate::rat::is_sum;
use crate::rat::is_sum_frac;
use crate::rat::lemma_sum_frac;
use crate::rat::sum_fits;
use crate::rat::Rat;

verus! {

/// Whether a drag is in progress, and if so, the projection pinned at
/// drag-begin.
#[derive(Clone, Copy, Debug)]
pub enum DragState {
    Idle,
    Dragging { snapshot: PlotProjection },
}

impl DragState {
    /// The pinned projection of a drag in progress.
    pub open spec fn snapshot_of(self) -> PlotProjection {
        match self {
            DragState::Idle => arbitrary(),
            DragState::Dragging { snapshot } => snapshot,
        }
    }

    pub open spec fn wf(self) -> bool {
        self is Dragging ==> self.snapshot_of().wf()
    }

    /// A drag begins: the current projection is pinned. Beginning a new
    /// drag replaces any earlier snapshot.
    pub fn begin(&mut self, current: PlotProjection)
        ensures
            *final(self) == (DragState::Dragging { snapshot: current }),
    {
        *self = DragState::Dragging { snapshot: current };
    }

    /// The drag ends and the snapshot is cleared.
    pub fn end(&mut self)
        ensures
            *final(self) is Idle,
    {
        *self = DragState::Idle;
    }

    /// The active projection for a total pointer displacement of
    /// `(dx, dy)` pixels over a widget of `w × h` pixels: relative to the
    /// drag-begin snapshot, yaw changes by exactly `-dx / w` radians,
    /// pitch by exactly `dy / h`, and scale does not change. `None` only
    /// when a component would not fit `i64` fields even reduced.
    pub fn update(&self, dx: Rat, dy: Rat, w: u32, h: u32) -> (r: Option<PlotProjection>)
        requires
            self is Dragging,
            self.wf(),
            dx.wf(),
            dy.wf(),
            0 < w,
            0 < h,
        ensures
            r matches Some(p) ==> p.wf() && is_sum_frac(
                p.yaw,
                self.snapshot_of().yaw,
                -dx.num,
                dx.den * w,
            ) && is_sum_frac(p.pitch, self.snapshot_of().pitch, dy.num as int, dy.den * h)
                && p.scale.same(self.snapshot_of().scale),
            drag_applies(self.snapshot_of(), dx, dy, w, h) ==> r is Some,
    {
        let delta = match drag_delta(dx, dy, w, h) {
            Some(d) => d,
            None => {
                return None;
            },
        };
        let snapshot = match self {
            DragState::Dragging { snapshot } => *snapshot,
            DragState::Idle => {
                return None;
            },
        };
        proof {
            if drag_applies(snapshot, dx, dy, w, h) {
                lemma_delta_fits(snapshot.yaw, delta.yaw, abs_of(dx.num as int), dx.den * w);
                lemma_delta_fits(snapshot.pitch, delta.pitch, abs_of(dy.num as int), dy.den * h);
                assert(sum_fits(snapshot.scale, delta.scale)) by (nonlinear_arith)
                    requires
                        delta.scale.num == 0,
                        delta.scale.den == 1,
                        snapshot.scale.den > 0,
                        snapshot.scale.den <= i64::MAX,
                        i64::MIN < snapshot.scale.num <= i64::MAX,
                ;
            }
        }
        let moved = match snapshot.add(delta) {
            Some(p) => p,
            None => {
                return None;
            },
        };
        proof {
            assert(dx.den * w > 0) by (nonlinear_arith)
                requires
                    dx.den > 0,
                    w > 0,
            ;
            assert(dy.den * h > 0) by (nonlinear_arith)
                requires
                    dy.den > 0,
                    h > 0,
            ;
            lemma_sum_frac(
                moved.yaw,
                snapshot.yaw,
                delta.yaw,
                -dx.num as int,
                dx.den * w,
            );
            lemma_sum_frac(
                moved.pitch,
                snapshot.pitch,
                delta.pitch,
                dy.num as int,
                dy.den * h,
            );
            lemma_scale_kept(moved.scale, snapshot.scale, delta.scale);
        }
        Some(moved)
    }
}

/// The projection delta of a pointer displacement `(dx, dy)` over a widget
/// of `w × h` pixels: yaw delta `-dx / w`, pitch delta `dy / h`, no scale
/// change. `None` only when a component would not fit `i64` fields even
/// reduced.
pub fn drag_delta(dx: Rat, dy: Rat, w: u32, h: u32) -> (r: Option<PlotProjection>)
    requires
        dx.wf(),
        dy.wf(),
        0 < w,
        0 < h,
    ensures
        r matches Some(d) ==> d.wf() && denotes(d.yaw, -dx.num, dx.den * w) && denotes(
            d.pitch,
            dy.num as int,
            dy.den * h,
        ) && d.scale.num == 0 && d.scale.den == 1 && d.yaw.den <= dx.den * w && abs_of(
            d.yaw.num as int,
        ) <= abs_of(dx.num as int) && d.pitch.den <= dy.den * h && abs_of(d.pitch.num as int)
            <= abs_of(dy.num as int),
        (dx.num > i64::MIN && dy.num > i64::MIN && dx.den * w <= i64::MAX && dy.den * h
            <= i64::MAX) ==> r is Some,
{
    if dx.num == i64::MIN {
        return None;
    }
    let yaw = dx.neg().checked_div_int(w as i64);
    let pitch = dy.checked_div_int(h as i64);
    match (yaw, pitch) {
        (Some(yaw), Some(pitch)) => Some(
            PlotProjection { yaw, pitch, scale: Rat::from_int(0) },
        ),
        _ => None,
    }
}

/// The inputs of a drag update on which applying the delta is guaranteed:
/// the displacement numerators are not the extreme value, the scaled
/// denominators fit, and for each of yaw and pitch the unreduced sum of the
/// snapshot component and the delta bound stays within `i64`.
pub open spec fn drag_applies(s: PlotProjection, dx: Rat, dy: Rat, w: u32, h: u32) -> bool {
    &&& dx.num > i64::MIN
    &&& dy.num > i64::MIN
    &&& dx.den * w <= i64::MAX
    &&& dy.den * h <= i64::MAX
    &&& abs_of(s.yaw.num as int) * (dx.den * w) + abs_of(dx.num as int) * s.yaw.den <= i64::MAX
    &&& s.yaw.den * (dx.den * w) <= i64::MAX
    &&& abs_of(s.pitch.num as int) * (dy.den * h) + abs_of(dy.num as int) * s.pitch.den
        <= i64::MAX
    &&& s.pitch.den * (dy.den * h) <= i64::MAX
    &&& s.scale.num > i64::MIN
}

/// A delta whose numerator magnitude is at most `nb` and whose denominator
/// is at most `db` sums with `s` within `i64` when the bounded products do.
proof fn lemma_delta_fits(s: Rat, d: Rat, nb: int, db: int)
    requires
        s.wf(),
        d.wf(),
        d.den <= db,
        abs_of(d.num as int) <= nb,
        abs_of(s.num as int) * db + nb * s.den <= i64::MAX,
        s.den * db <= i64::MAX,
    ensures
        sum_fits(s, d),
{
    assert(abs_of((s.num * d.den + d.num * s.den) as int) <= abs_of(s.num as int) * db + nb
        * s.den) by (nonlinear_arith)
        requires
            s.den > 0,
            d.den > 0,
            d.den <= db,
            abs_of(d.num as int) <= nb,
    ;
    assert(s.den * d.den <= s.den * db) by (nonlinear_arith)
        requires
            s.den > 0,
            d.den <= db,
    ;
}

/// Adding a zero delta keeps the denoted value.
proof fn lemma_scale_kept(c: Rat, a: Rat, z: Rat)
    requires
        a.wf(),
        z.wf(),
        c.wf(),
        z.num == 0,
        is_sum(c, a, z),
    ensures
        c.same(a),
{
    assert(c.num * a.den == a.num * c.den) by (nonlinear_arith)
        requires
            c.num * (a.den * z.den) == (a.num * z.den + 0 * a.den) * c.den,
            z.den > 0,
    ;
}

} // verus!
