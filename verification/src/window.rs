//! The application frame: the shared point store, the live projection and
//! drag state, and the per-frame decisions of the main window.
//!
//! The point set is shared between the UI thread and export workers through
//! reference-counted handles with copy-on-write appends: appending through
//! one handle clones the backing buffer when other handles exist, so the
//! sequence observed through every other handle stays exactly what it was.

use std::sync::Arc;

use vstd::prelude::*;

use crate::backend::Color;
use crate::drag::drag_applies;
use crate::drag::DragState;
use crate::point::Point;
use crate::projection::PlotProjection;
use crate::rat::Rat;
use crate::rat::is_sum_frac;

verus! {

/// Relies on `Arc::clone`: returns a new handle to the same point sequence.
#[verifier::external_body]
pub(crate) fn share_handle(points: &Arc<Vec<Point>>) -> (r: Arc<Vec<Point>>)
    ensures
        r@ == points@,
{
    Arc::clone(points)
}

/// Relies on `Arc::make_mut` (which clones the backing buffer when other
/// handles exist, and mutates in place otherwise) and `Vec::push`: appends
/// one point through this handle. Handles not passed here are unaffected.
#[verifier::external_body]
fn cow_push(points: &mut Arc<Vec<Point>>, p: Point)
    ensures
        final(points)@ == old(points)@.push(p),
{
    Arc::make_mut(points).push(p);
}

/// Relies on `Arc`'s `Deref`: borrows the shared point sequence.
#[verifier::external_body]
pub(crate) fn handle_points(points: &Arc<Vec<Point>>) -> (r: &Vec<Point>)
    ensures
        r@ == points@,
{
    &**points
}

/// The number of points seen through a handle.
pub fn handle_len(points: &Arc<Vec<Point>>) -> (r: usize)
    ensures
        r == points@.len(),
{
    handle_points(points).len()
}

/// The `i`-th point seen through a handle.
pub fn handle_point(points: &Arc<Vec<Point>>, i: usize) -> (r: Point)
    requires
        i < points@.len(),
    ensures
        r == points@[i as int],
{
    *handle_points(points).get(i).unwrap()
}

/// Which pair of coordinates a two-dimensional side plot shows.
#[derive(Clone, Copy, Debug, PartialEq, Eq, Structural)]
pub enum Plane {
    Xy,
    Yz,
    Xz,
}

/// The coordinate pair of `p` shown in the given plane.
pub open spec fn plane_select(plane: Plane, p: Point) -> (u64, u64) {
    match plane {
        Plane::Xy => (p.x, p.y),
        Plane::Yz => (p.y, p.z),
        Plane::Xz => (p.x, p.z),
    }
}

/// Width of one two-dimensional side plot: the available width, capped at
/// 300 pixels.
pub fn side_plot_width(available: u32) -> (r: u32)
    ensures
        r == if available < 300 { available as int } else { 300int },
{
    if available < 300 {
        available
    } else {
        300
    }
}

/// The application window: the shared point set, the live projection, the
/// drag state, and the two display toggles.
pub struct Window {
    /// The point set, shared copy-on-write with export workers.
    pub points: Arc<Vec<Point>>,
    /// The live projection of the 3-D viewport.
    pub projection: PlotProjection,
    /// The pointer-drag state of the viewport.
    pub drag: DragState,
    /// Show the three 2-D side plots.
    pub show_2d_projections: bool,
    /// Render the same scene through the in-memory raster backend as well.
    pub show_bitmap_preview: bool,
}

impl Window {
    pub open spec fn wf(self) -> bool {
        self.projection.wf() && self.drag.wf()
    }

    /// A fresh window owning the given points, with the given initial
    /// framing, side plots shown, and the bitmap preview off.
    pub fn new(points: Vec<Point>, projection: PlotProjection) -> (w: Window)
        requires
            projection.wf(),
        ensures
            w.points@ == points@,
            w.projection == projection,
            w.drag is Idle,
            w.show_2d_projections,
            !w.show_bitmap_preview,
            w.wf(),
    {
        Window {
            points: Arc::new(points),
            projection,
            drag: DragState::Idle,
            show_2d_projections: true,
            show_bitmap_preview: false,
        }
    }

    /// Appends one point. Handles obtained earlier from
    /// [`Window::points_handle`] keep the sequence they already observed.
    pub fn add_point(&mut self, point: Point)
        ensures
            final(self).points@ == old(self).points@.push(point),
            final(self).projection == old(self).projection,
            final(self).drag == old(self).drag,
            final(self).show_2d_projections == old(self).show_2d_projections,
            final(self).show_bitmap_preview == old(self).show_bitmap_preview,
    {
        cow_push(&mut self.points, point);
    }

    /// A read-only handle to the current point sequence, for an export
    /// worker. Later appends to the window do not change what this handle
    /// observes.
    pub fn points_handle(&self) -> (r: Arc<Vec<Point>>)
        ensures
            r@ == self.points@,
    {
        share_handle(&self.points)
    }

    /// How many points the window owns.
    pub fn point_count(&self) -> (r: usize)
        ensures
            r == self.points@.len(),
    {
        handle_len(&self.points)
    }

    /// The coordinate pairs of one two-dimensional side plot, in point
    /// order.
    pub fn side_plot_values(&self, plane: Plane) -> (r: Vec<(u64, u64)>)
        ensures
            r@.len() == self.points@.len(),
            forall|i: int| 0 <= i < r@.len() ==> r@[i] == plane_select(plane, self.points@[i]),
    {
        let pts = handle_points(&self.points);
        let mut out: Vec<(u64, u64)> = Vec::new();
        let mut i: usize = 0;
        while i < pts.len()
            invariant
                i <= pts@.len(),
                pts@ == self.points@,
                out@.len() == i,
                forall|j: int| 0 <= j < i ==> out@[j] == plane_select(plane, self.points@[j]),
            decreases pts@.len() - i,
        {
            let p = pts[i];
            let pair = match plane {
                Plane::Xy => (p.x, p.y),
                Plane::Yz => (p.y, p.z),
                Plane::Xz => (p.x, p.z),
            };
            out.push(pair);
            i = i + 1;
        }
        out
    }

    /// A drag begins: pin the live projection as the snapshot.
    pub fn on_drag_begin(&mut self)
        ensures
            final(self).drag == (DragState::Dragging { snapshot: old(self).projection }),
            final(self).points@ == old(self).points@,
            final(self).projection == old(self).projection,
            final(self).show_2d_projections == old(self).show_2d_projections,
            final(self).show_bitmap_preview == old(self).show_bitmap_preview,
    {
        let current = self.projection;
        self.drag.begin(current);
    }

    /// A drag progressed to a total displacement of `(dx, dy)` pixels over
    /// a `w × h` viewport: the live projection becomes the snapshot plus
    /// the drag delta — yaw moved by exactly `-dx / w`, pitch by exactly
    /// `dy / h`, scale kept. Returns whether the delta was applied (it is
    /// not only when a component would overflow `i64` fields; the
    /// projection is then left unchanged).
    pub fn on_drag_update(&mut self, dx: Rat, dy: Rat, w: u32, h: u32) -> (applied: bool)
        requires
            old(self).wf(),
            old(self).drag is Dragging,
            dx.wf(),
            dy.wf(),
            0 < w,
            0 < h,
        ensures
            final(self).wf(),
            final(self).points@ == old(self).points@,
            final(self).drag == old(self).drag,
            final(self).show_2d_projections == old(self).show_2d_projections,
            final(self).show_bitmap_preview == old(self).show_bitmap_preview,
            applied ==> is_sum_frac(
                final(self).projection.yaw,
                old(self).drag.snapshot_of().yaw,
                -dx.num,
                dx.den * w,
            ) && is_sum_frac(
                final(self).projection.pitch,
                old(self).drag.snapshot_of().pitch,
                dy.num as int,
                dy.den * h,
            ) && final(self).projection.scale.same(old(self).drag.snapshot_of().scale),
            !applied ==> final(self).projection == old(self).projection,
            drag_applies(old(self).drag.snapshot_of(), dx, dy, w, h) ==> applied,
    {
        match self.drag.update(dx, dy, w, h) {
            Some(p) => {
                self.projection = p;
                true
            },
            None => false,
        }
    }

    /// The drag ended: the snapshot is cleared; the projection keeps its
    /// last value.
    pub fn on_drag_end(&mut self)
        ensures
            final(self).drag is Idle,
            final(self).points@ == old(self).points@,
            final(self).projection == old(self).projection,
            final(self).show_2d_projections == old(self).show_2d_projections,
            final(self).show_bitmap_preview == old(self).show_bitmap_preview,
    {
        self.drag.end();
    }

    /// The window title.
    pub fn name(&self) -> (r: &'static str)
        ensures
            r@ == "hello there!"@,
    {
        "hello there!"
    }
}

/// The zero-filled RGB staging buffer for the bitmap preview: three bytes
/// per pixel.
pub fn preview_buffer(w: usize, h: usize) -> (r: Vec<u8>)
    requires
        w * h * 3 <= usize::MAX,
    ensures
        r@.len() == w * h * 3,
        forall|i: int| 0 <= i < r@.len() ==> r@[i] == 0u8,
{
    proof {
        assert(w * h <= w * h * 3) by (nonlinear_arith)
            requires
                w >= 0,
                h >= 0,
        ;
    }
    let n: usize = w * h * 3;
    let mut out: Vec<u8> = Vec::new();
    let mut i: usize = 0;
    while i < n
        invariant
            i <= n,
            out@.len() == i,
            forall|j: int| 0 <= j < i ==> out@[j] == 0u8,
        decreases n - i,
    {
        out.push(0);
        i = i + 1;
    }
    out
}

/// Expands a tightly packed RGB byte buffer into the host's pixel colors:
/// one fully opaque color per three bytes, as the bitmap preview uploads
/// its rendered frame.
pub fn rgb_pixels(src: &Vec<u8>) -> (r: Vec<Color>)
    ensures
        r@.len() == src@.len() / 3,
        forall|i: int|
            0 <= i < r@.len() ==> r@[i] == (Color {
                r: src@[3 * i],
                g: src@[3 * i + 1],
                b: src@[3 * i + 2],
                a: 255u8,
            }),
{
    let mut out: Vec<Color> = Vec::new();
    let len: usize = src.len();
    let n: usize = len / 3;
    proof {
        assert(3 * n <= len) by (nonlinear_arith)
            requires
                n == len / 3,
        ;
    }
    let mut i: usize = 0;
    while i < n
        invariant
            i <= n,
            n == src@.len() / 3,
            3 * n <= src@.len(),
            3 * n <= usize::MAX,
            out@.len() == i,
            forall|j: int|
                0 <= j < i ==> out@[j] == (Color {
                    r: src@[3 * j],
                    g: src@[3 * j + 1],
                    b: src@[3 * j + 2],
                    a: 255u8,
                }),
        decreases n - i,
    {
        let c = Color { r: src[3 * i], g: src[3 * i + 1], b: src[3 * i + 2], a: 255 };
        out.push(c);
        i = i + 1;
    }
    out
}

} // verus!
