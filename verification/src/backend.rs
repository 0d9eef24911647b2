//! Shape-recording drawing surface for the live GUI canvas.
//!
//! The recorder implements the drawing capability set of the plot surface
//! for the immediate-mode GUI: every primitive is mapped through the
//! widget's screen transform and buffered as a GUI shape; `present` hands
//! the buffered shapes over in insertion order, together with the textures
//! whose single-frame deferred free falls due. The host only forwards the
//! returned shapes to its painter; everything it receives was computed
//! here.

use vstd::prelude::*;

use crate::rat::Rat;
use crate::rat::lemma_round_integral;
use crate::rat::round_spec;

verus! {

/// A color: red, green and blue bytes plus an opacity in 1/255 steps
/// (255 fully opaque).
#[derive(Clone, Copy, Debug, PartialEq, Eq, Structural)]
pub struct Color {
    pub r: u8,
    pub g: u8,
    pub b: u8,
    pub a: u8,
}

impl Color {
    /// A fully opaque color.
    pub fn rgb(r: u8, g: u8, b: u8) -> (c: Color)
        ensures
            c == (Color { r, g, b, a: 255u8 }),
    {
        Color { r, g, b, a: 255 }
    }

    /// The color as the painter composites it: opacity applied as a linear
    /// premultiplication of the RGB channels.
    pub fn premultiplied(self) -> (c: Color)
        ensures
            c.r == self.r * self.a / 255,
            c.g == self.g * self.a / 255,
            c.b == self.b * self.a / 255,
            c.a == self.a,
    {
        proof {
            lemma_channel_scale(self.r as int, self.a as int);
            lemma_channel_scale(self.g as int, self.a as int);
            lemma_channel_scale(self.b as int, self.a as int);
        }
        Color {
            r: ((self.r as u32) * (self.a as u32) / 255) as u8,
            g: ((self.g as u32) * (self.a as u32) / 255) as u8,
            b: ((self.b as u32) * (self.a as u32) / 255) as u8,
            a: self.a,
        }
    }
}

/// Scaling a byte channel by a byte opacity stays within a byte.
proof fn lemma_channel_scale(c: int, a: int)
    requires
        0 <= c <= 255,
        0 <= a <= 255,
    ensures
        0 <= c * a <= 65025,
        0 <= c * a / 255 <= 255,
{
    assert(0 <= c * a <= 65025) by (nonlinear_arith)
        requires
            0 <= c <= 255,
            0 <= a <= 255,
    ;
}

/// A stroke: line width in pixels and a color.
#[derive(Clone, Copy, Debug, PartialEq, Eq, Structural)]
pub struct Stroke {
    pub width: u32,
    pub color: Color,
}

/// Horizontal part of a text anchor.
#[derive(Clone, Copy, Debug, PartialEq, Eq, Structural)]
pub enum HAlign {
    Left,
    Center,
    Right,
}

/// Vertical part of a text anchor.
#[derive(Clone, Copy, Debug, PartialEq, Eq, Structural)]
pub enum VAlign {
    Top,
    Center,
    Bottom,
}

/// The host GUI's one-dimensional alignment: towards the low coordinate,
/// centered, or towards the high coordinate.
#[derive(Clone, Copy, Debug, PartialEq, Eq, Structural)]
pub enum ScreenAlign {
    Min,
    Center,
    Max,
}

/// Translates the horizontal anchor into the host's alignment.
pub fn align_of_h(h: HAlign) -> (r: ScreenAlign)
    ensures
        r == align_h_spec(h),
{
    match h {
        HAlign::Left => ScreenAlign::Min,
        HAlign::Center => ScreenAlign::Center,
        HAlign::Right => ScreenAlign::Max,
    }
}

/// Translates the vertical anchor into the host's alignment.
pub fn align_of_v(v: VAlign) -> (r: ScreenAlign)
    ensures
        r == align_v_spec(v),
{
    match v {
        VAlign::Top => ScreenAlign::Min,
        VAlign::Center => ScreenAlign::Center,
        VAlign::Bottom => ScreenAlign::Max,
    }
}

/// The affine map from the widget's logical pixel space (origin at the top
/// left of the widget) to the host's screen pixel space. The widget
/// rectangle is aligned to whole device pixels and keeps its size, so the
/// map is a translation by the rectangle's minimum corner.
#[derive(Clone, Copy, Debug, PartialEq, Eq, Structural)]
pub struct ToScreen {
    pub dx: i32,
    pub dy: i32,
}

impl ToScreen {
    /// The screen position of the logical point `p`.
    pub open spec fn apply_spec(self, p: (i32, i32)) -> (int, int) {
        (p.0 + self.dx, p.1 + self.dy)
    }

    /// The logical point whose screen position is `q`.
    pub open spec fn unapply_spec(self, q: (int, int)) -> (int, int) {
        (q.0 - self.dx, q.1 - self.dy)
    }

    /// Maps a logical point to screen pixels.
    pub fn apply(self, p: (i32, i32)) -> (r: (i64, i64))
        ensures
            (r.0 as int, r.1 as int) == self.apply_spec(p),
    {
        ((p.0 as i64) + (self.dx as i64), (p.1 as i64) + (self.dy as i64))
    }
}

/// Screen positions produced by the transform land on the device-pixel
/// grid: rounding them to device pixels is the identity, and mapping back
/// through the inverse transform recovers the logical point exactly.
pub proof fn pixel_rounding_fixed_point(t: ToScreen, p: (i32, i32))
    ensures
        ({
            let q = t.apply_spec(p);
            &&& round_spec(Rat { num: q.0 as i64, den: 1i64 }) == q.0
            &&& round_spec(Rat { num: q.1 as i64, den: 1i64 }) == q.1
            &&& t.unapply_spec(q) == (p.0 as int, p.1 as int)
        }),
{
    let q = t.apply_spec(p);
    lemma_round_integral(Rat { num: q.0 as i64, den: 1i64 }, q.0);
    lemma_round_integral(Rat { num: q.1 as i64, den: 1i64 }, q.1);
}

/// A buffered GUI shape, in screen pixel coordinates.
#[derive(Debug)]
pub enum Shape {
    Line { a: (i64, i64), b: (i64, i64), stroke: Stroke },
    RectFilled { min: (i64, i64), max: (i64, i64), fill: Color },
    RectStroked { min: (i64, i64), max: (i64, i64), stroke: Stroke },
    Path { points: Vec<(i64, i64)>, stroke: Stroke },
    CircleFilled { center: (i64, i64), radius: u32, fill: Color },
    CircleStroked { center: (i64, i64), radius: u32, stroke: Stroke },
    ClosedLine { points: Vec<(i64, i64)>, stroke: Stroke },
    Text {
        pos: (i64, i64),
        h: ScreenAlign,
        v: ScreenAlign,
        text: String,
        color: Color,
    },
    Mesh { texture: u64, min: (i64, i64), max: (i64, i64) },
}

/// The screen image of one logical point under `t`.
pub open spec fn screen_pt(t: ToScreen, p: (i32, i32)) -> (i64, i64) {
    ((p.0 + t.dx) as i64, (p.1 + t.dy) as i64)
}

/// The screen image of a sequence of logical points under `t`.
pub open spec fn path_image(t: ToScreen, pts: Seq<(i32, i32)>) -> Seq<(i64, i64)> {
    pts.map(|i: int, p: (i32, i32)| screen_pt(t, p))
}

/// A recorded shape with its point lists and text as abstract sequences,
/// for comparing recorded shapes with issued calls in specifications.
pub enum ShapeView {
    Line { a: (i64, i64), b: (i64, i64), stroke: Stroke },
    RectFilled { min: (i64, i64), max: (i64, i64), fill: Color },
    RectStroked { min: (i64, i64), max: (i64, i64), stroke: Stroke },
    Path { points: Seq<(i64, i64)>, stroke: Stroke },
    CircleFilled { center: (i64, i64), radius: u32, fill: Color },
    CircleStroked { center: (i64, i64), radius: u32, stroke: Stroke },
    ClosedLine { points: Seq<(i64, i64)>, stroke: Stroke },
    Text { pos: (i64, i64), h: ScreenAlign, v: ScreenAlign, text: Seq<char>, color: Color },
    Mesh { texture: u64, min: (i64, i64), max: (i64, i64) },
}

/// The abstract value of a recorded shape.
pub open spec fn shape_view(s: Shape) -> ShapeView {
    match s {
        Shape::Line { a, b, stroke } => ShapeView::Line { a, b, stroke },
        Shape::RectFilled { min, max, fill } => ShapeView::RectFilled { min, max, fill },
        Shape::RectStroked { min, max, stroke } => ShapeView::RectStroked { min, max, stroke },
        Shape::Path { points, stroke } => ShapeView::Path { points: points@, stroke },
        Shape::CircleFilled { center, radius, fill } => ShapeView::CircleFilled {
            center,
            radius,
            fill,
        },
        Shape::CircleStroked { center, radius, stroke } => ShapeView::CircleStroked {
            center,
            radius,
            stroke,
        },
        Shape::ClosedLine { points, stroke } => ShapeView::ClosedLine { points: points@, stroke },
        Shape::Text { pos, h, v, text, color } => ShapeView::Text {
            pos,
            h,
            v,
            text: text@,
            color,
        },
        Shape::Mesh { texture, min, max } => ShapeView::Mesh { texture, min, max },
    }
}

/// The abstract values of a shape buffer, in order.
pub open spec fn shapes_view(s: Seq<Shape>) -> Seq<ShapeView> {
    s.map_values(|sh: Shape| shape_view(sh))
}

/// One drawing call of the surface's capability set, with its arguments.
pub enum SurfaceCall {
    Pixel { p: (i32, i32), color: Color },
    Line { from: (i32, i32), to: (i32, i32), stroke: Stroke },
    Rect { upper_left: (i32, i32), bottom_right: (i32, i32), stroke: Stroke, fill: bool },
    Path { points: Seq<(i32, i32)>, stroke: Stroke },
    Circle { center: (i32, i32), radius: u32, stroke: Stroke, fill: bool },
    Polygon { points: Seq<(i32, i32)>, stroke: Stroke },
    Text { pos: (i32, i32), h: HAlign, v: VAlign, text: Seq<char>, color: Color },
    Bitmap { pos: (i32, i32), w: u32, h: u32, texture: u64 },
}

/// The host alignment of a horizontal anchor.
pub open spec fn align_h_spec(h: HAlign) -> ScreenAlign {
    match h {
        HAlign::Left => ScreenAlign::Min,
        HAlign::Center => ScreenAlign::Center,
        HAlign::Right => ScreenAlign::Max,
    }
}

/// The host alignment of a vertical anchor.
pub open spec fn align_v_spec(v: VAlign) -> ScreenAlign {
    match v {
        VAlign::Top => ScreenAlign::Min,
        VAlign::Center => ScreenAlign::Center,
        VAlign::Bottom => ScreenAlign::Max,
    }
}

/// The shape a drawing call records, under the surface's screen transform.
pub open spec fn call_shape(t: ToScreen, c: SurfaceCall) -> ShapeView {
    match c {
        SurfaceCall::Pixel { p, color } => ShapeView::RectFilled {
            min: screen_pt(t, p),
            max: ((p.0 + t.dx + 1) as i64, (p.1 + t.dy + 1) as i64),
            fill: color,
        },
        SurfaceCall::Line { from, to, stroke } => ShapeView::Line {
            a: screen_pt(t, from),
            b: screen_pt(t, to),
            stroke,
        },
        SurfaceCall::Rect { upper_left, bottom_right, stroke, fill } => if fill {
            ShapeView::RectFilled {
                min: screen_pt(t, upper_left),
                max: screen_pt(t, bottom_right),
                fill: stroke.color,
            }
        } else {
            ShapeView::RectStroked {
                min: screen_pt(t, upper_left),
                max: screen_pt(t, bottom_right),
                stroke,
            }
        },
        SurfaceCall::Path { points, stroke } => ShapeView::Path {
            points: path_image(t, points),
            stroke,
        },
        SurfaceCall::Circle { center, radius, stroke, fill } => if fill {
            ShapeView::CircleFilled { center: screen_pt(t, center), radius, fill: stroke.color }
        } else {
            ShapeView::CircleStroked { center: screen_pt(t, center), radius, stroke }
        },
        SurfaceCall::Polygon { points, stroke } => ShapeView::ClosedLine {
            points: path_image(t, points),
            stroke,
        },
        SurfaceCall::Text { pos, h, v, text, color } => ShapeView::Text {
            pos: screen_pt(t, pos),
            h: align_h_spec(h),
            v: align_v_spec(v),
            text,
            color,
        },
        SurfaceCall::Bitmap { pos, w, h, texture } => ShapeView::Mesh {
            texture,
            min: screen_pt(t, pos),
            max: ((pos.0 + t.dx + w) as i64, (pos.1 + t.dy + h) as i64),
        },
    }
}

/// The surface `post` is `pre` right after issuing exactly the call `c`:
/// one more buffered shape — the call's image — and, for a bitmap call,
/// one more allocated texture.
pub open spec fn issued(pre: EguiBackend, post: EguiBackend, c: SurfaceCall) -> bool {
    &&& post.same_surface(pre)
    &&& shapes_view(post.shapes@) == shapes_view(pre.shapes@).push(call_shape(pre.to_screen, c))
    &&& post.gc_textures@ == pre.gc_textures@
    &&& post.allocated_textures@ == (match c {
        SurfaceCall::Bitmap { texture, .. } => pre.allocated_textures@.push(texture),
        _ => pre.allocated_textures@,
    })
}

/// Viewing a buffer after a push is pushing the view.
proof fn lemma_shapes_view_push(s: Seq<Shape>, x: Shape)
    ensures
        shapes_view(s.push(x)) == shapes_view(s).push(shape_view(x)),
{
    assert(shapes_view(s.push(x)) =~= shapes_view(s).push(shape_view(x)));
}

/// The shapes one pass delivers to the painter are exactly the images of
/// the calls it issued, in issue order: starting from a fresh surface and
/// issuing the calls one after another leaves one buffered shape per call —
/// each the call's image under the widget transform, in the same order —
/// and `present` hands that buffer over unchanged.
pub proof fn backend_primitive_ordering(states: Seq<EguiBackend>, calls: Seq<SurfaceCall>)
    requires
        states.len() == calls.len() + 1,
        states[0].shapes@.len() == 0,
        forall|i: int|
            0 <= i < calls.len() ==> issued(states[i], #[trigger] states[i + 1], calls[i]),
    ensures
        states.last().same_surface(states[0]),
        shapes_view(states.last().shapes@) == calls.map(
            |i: int, c: SurfaceCall| call_shape(states[0].to_screen, c),
        ),
    decreases calls.len(),
{
    let t = states[0].to_screen;
    if calls.len() == 0 {
        assert(shapes_view(states[0].shapes@) =~= Seq::<ShapeView>::empty());
        assert(calls.map(|i: int, c: SurfaceCall| call_shape(t, c)) =~= Seq::<
            ShapeView,
        >::empty());
    } else {
        let n = calls.len() as int;
        backend_primitive_ordering(states.drop_last(), calls.drop_last());
        assert(issued(states[n - 1], states[n], calls[n - 1]));
        assert(states.drop_last().last() == states[n - 1]);
        assert(shapes_view(states[n].shapes@) =~= calls.map(
            |i: int, c: SurfaceCall| call_shape(t, c),
        ));
    }
}

/// The shape-recording GUI surface. One value lives for exactly one plot
/// pass over one widget rectangle.
pub struct EguiBackend {
    /// Widget size in device pixels.
    pub width: u32,
    pub height: u32,
    /// Logical-to-screen transform for this widget rectangle.
    pub to_screen: ToScreen,
    /// Buffered shapes, in the order the primitives were issued.
    pub shapes: Vec<Shape>,
    /// Textures allocated during the current pass.
    pub allocated_textures: Vec<u64>,
    /// Textures from the previous pass, to be freed at the next `present`.
    pub gc_textures: Vec<u64>,
}

impl EguiBackend {
    /// Everything except the shape buffer and texture lists is unchanged.
    pub open spec fn same_surface(self, other: EguiBackend) -> bool {
        &&& self.width == other.width
        &&& self.height == other.height
        &&& self.to_screen == other.to_screen
    }

    /// Only a shape was recorded: texture bookkeeping is untouched.
    pub open spec fn recorded(self, old_self: EguiBackend, s: Shape) -> bool {
        &&& self.same_surface(old_self)
        &&& self.shapes@ == old_self.shapes@.push(s)
        &&& self.allocated_textures@ == old_self.allocated_textures@
        &&& self.gc_textures@ == old_self.gc_textures@
    }

    /// A fresh surface over a widget rectangle with its minimum corner at
    /// screen pixel `(dx, dy)` and the given size.
    pub fn new(width: u32, height: u32, dx: i32, dy: i32) -> (b: EguiBackend)
        ensures
            b.width == width,
            b.height == height,
            b.to_screen == (ToScreen { dx, dy }),
            b.shapes@ == Seq::<Shape>::empty(),
            b.allocated_textures@ == Seq::<u64>::empty(),
            b.gc_textures@ == Seq::<u64>::empty(),
    {
        EguiBackend {
            width,
            height,
            to_screen: ToScreen { dx, dy },
            shapes: Vec::new(),
            allocated_textures: Vec::new(),
            gc_textures: Vec::new(),
        }
    }

    /// The surface size in pixels.
    pub fn get_size(&self) -> (r: (u32, u32))
        ensures
            r == (self.width, self.height),
    {
        (self.width, self.height)
    }

    /// Nothing to prepare: the painter is ready as soon as the widget
    /// rectangle is allocated. Idempotent, and it cannot fail.
    pub fn ensure_prepared(&mut self)
        ensures
            *final(self) == *old(self),
    {
    }

    /// Flushes the pass: hands back the buffered shapes in issue order for
    /// the painter, and the textures whose deferred free falls due; textures
    /// allocated in this pass move to the next pass's free list.
    pub fn present(&mut self) -> (r: (Vec<Shape>, Vec<u64>))
        ensures
            old(self).same_surface(*final(self)),
            r.0@ == old(self).shapes@,
            r.1@ == old(self).gc_textures@,
            final(self).shapes@ == Seq::<Shape>::empty(),
            final(self).gc_textures@ == old(self).allocated_textures@,
            final(self).allocated_textures@ == Seq::<u64>::empty(),
    {
        let mut shapes: Vec<Shape> = Vec::new();
        core::mem::swap(&mut shapes, &mut self.shapes);
        let mut due: Vec<u64> = Vec::new();
        core::mem::swap(&mut due, &mut self.gc_textures);
        core::mem::swap(&mut self.gc_textures, &mut self.allocated_textures);
        (shapes, due)
    }

    /// A single pixel: recorded as a one-pixel filled rectangle.
    pub fn draw_pixel(&mut self, p: (i32, i32), color: Color)
        ensures
            final(self).recorded(
                *old(self),
                Shape::RectFilled {
                    min: (
                        (p.0 + old(self).to_screen.dx) as i64,
                        (p.1 + old(self).to_screen.dy) as i64,
                    ),
                    max: (
                        (p.0 + old(self).to_screen.dx + 1) as i64,
                        (p.1 + old(self).to_screen.dy + 1) as i64,
                    ),
                    fill: color,
                },
            ),
            issued(*old(self), *final(self), SurfaceCall::Pixel { p, color }),
    {
        let min = self.to_screen.apply(p);
        let shape = Shape::RectFilled { min, max: (min.0 + 1, min.1 + 1), fill: color };
        self.shapes.push(shape);
        proof {
            lemma_shapes_view_push(old(self).shapes@, self.shapes@.last());
        }
    }

    /// A straight line segment.
    pub fn draw_line(&mut self, from: (i32, i32), to: (i32, i32), stroke: Stroke)
        ensures
            final(self).recorded(
                *old(self),
                Shape::Line {
                    a: (
                        (from.0 + old(self).to_screen.dx) as i64,
                        (from.1 + old(self).to_screen.dy) as i64,
                    ),
                    b: (
                        (to.0 + old(self).to_screen.dx) as i64,
                        (to.1 + old(self).to_screen.dy) as i64,
                    ),
                    stroke,
                },
            ),
            issued(*old(self), *final(self), SurfaceCall::Line { from, to, stroke }),
    {
        let a = self.to_screen.apply(from);
        let b = self.to_screen.apply(to);
        self.shapes.push(Shape::Line { a, b, stroke });
        proof {
            lemma_shapes_view_push(old(self).shapes@, self.shapes@.last());
        }
    }

    /// An axis-aligned rectangle, filled or stroked.
    pub fn draw_rect(
        &mut self,
        upper_left: (i32, i32),
        bottom_right: (i32, i32),
        stroke: Stroke,
        fill: bool,
    )
        ensures
            final(self).recorded(
                *old(self),
                ({
                    let min = (
                        (upper_left.0 + old(self).to_screen.dx) as i64,
                        (upper_left.1 + old(self).to_screen.dy) as i64,
                    );
                    let max = (
                        (bottom_right.0 + old(self).to_screen.dx) as i64,
                        (bottom_right.1 + old(self).to_screen.dy) as i64,
                    );
                    if fill {
                        Shape::RectFilled { min, max, fill: stroke.color }
                    } else {
                        Shape::RectStroked { min, max, stroke }
                    }
                }),
            ),
            issued(
                *old(self),
                *final(self),
                SurfaceCall::Rect { upper_left, bottom_right, stroke, fill },
            ),
    {
        let min = self.to_screen.apply(upper_left);
        let max = self.to_screen.apply(bottom_right);
        let shape = if fill {
            Shape::RectFilled { min, max, fill: stroke.color }
        } else {
            Shape::RectStroked { min, max, stroke }
        };
        self.shapes.push(shape);
        proof {
            lemma_shapes_view_push(old(self).shapes@, self.shapes@.last());
        }
    }

    /// One more shape was recorded; which one is said separately.
    pub open spec fn recorded_one(self, old_self: EguiBackend) -> bool {
        &&& self.same_surface(old_self)
        &&& self.shapes@.len() == old_self.shapes@.len() + 1
        &&& self.shapes@.drop_last() == old_self.shapes@
        &&& self.allocated_textures@ == old_self.allocated_textures@
        &&& self.gc_textures@ == old_self.gc_textures@
    }

    /// An open polyline.
    pub fn draw_path(&mut self, path: &Vec<(i32, i32)>, stroke: Stroke)
        ensures
            final(self).recorded_one(*old(self)),
            final(self).shapes@.last() matches Shape::Path { points, stroke: st }
                && points@ == path_image(old(self).to_screen, path@)
                && st == stroke,
            issued(*old(self), *final(self), SurfaceCall::Path { points: path@, stroke }),
    {
        let pts = self.map_points(path);
        let shape = Shape::Path { points: pts, stroke };
        self.shapes.push(shape);
        proof {
            assert(self.shapes@.drop_last() =~= old(self).shapes@);
            lemma_shapes_view_push(old(self).shapes@, self.shapes@.last());
        }
    }

    /// A filled convex polygon. The painter closes and fills the outline.
    pub fn fill_polygon(&mut self, vertices: &Vec<(i32, i32)>, stroke: Stroke)
        ensures
            final(self).recorded_one(*old(self)),
            final(self).shapes@.last() matches Shape::ClosedLine { points, stroke: st }
                && points@ == path_image(old(self).to_screen, vertices@)
                && st == stroke,
            issued(*old(self), *final(self), SurfaceCall::Polygon { points: vertices@, stroke }),
    {
        let pts = self.map_points(vertices);
        let shape = Shape::ClosedLine { points: pts, stroke };
        self.shapes.push(shape);
        proof {
            assert(self.shapes@.drop_last() =~= old(self).shapes@);
            lemma_shapes_view_push(old(self).shapes@, self.shapes@.last());
        }
    }

    /// A circle, filled or stroked.
    pub fn draw_circle(&mut self, center: (i32, i32), radius: u32, stroke: Stroke, fill: bool)
        ensures
            final(self).recorded(
                *old(self),
                ({
                    let c = (
                        (center.0 + old(self).to_screen.dx) as i64,
                        (center.1 + old(self).to_screen.dy) as i64,
                    );
                    if fill {
                        Shape::CircleFilled { center: c, radius, fill: stroke.color }
                    } else {
                        Shape::CircleStroked { center: c, radius, stroke }
                    }
                }),
            ),
            issued(*old(self), *final(self), SurfaceCall::Circle { center, radius, stroke, fill }),
    {
        let c = self.to_screen.apply(center);
        let shape = if fill {
            Shape::CircleFilled { center: c, radius, fill: stroke.color }
        } else {
            Shape::CircleStroked { center: c, radius, stroke }
        };
        self.shapes.push(shape);
        proof {
            lemma_shapes_view_push(old(self).shapes@, self.shapes@.last());
        }
    }

    /// Single-line text. The anchor is translated to the host's alignment
    /// pair; the host renders it with its own body font, so any richer text
    /// styling from the plot routine is deliberately dropped here.
    pub fn draw_text(&mut self, text: &str, color: Color, pos: (i32, i32), h: HAlign, v: VAlign)
        ensures
            final(self).recorded_one(*old(self)),
            final(self).shapes@.last() matches Shape::Text { pos: q, h: ha, v: va, text: t, color: c }
                && (q.0 as int, q.1 as int) == old(self).to_screen.apply_spec(pos)
                && (ha is Min <==> h is Left)
                && (ha is Center <==> h is Center)
                && (ha is Max <==> h is Right)
                && (va is Min <==> v is Top)
                && (va is Center <==> v is Center)
                && (va is Max <==> v is Bottom)
                && t@ == text@
                && c == color,
            issued(
                *old(self),
                *final(self),
                SurfaceCall::Text { pos, h, v, text: text@, color },
            ),
    {
        let p = self.to_screen.apply(pos);
        let ha = align_of_h(h);
        let va = align_of_v(v);
        let shape = Shape::Text { pos: p, h: ha, v: va, text: text.to_owned(), color };
        self.shapes.push(shape);
        proof {
            assert(self.shapes@.drop_last() =~= old(self).shapes@);
            lemma_shapes_view_push(old(self).shapes@, self.shapes@.last());
        }
    }

    /// Records the textured rectangle for a bitmap blit. The host allocates
    /// the texture from the pixel buffer (see [`bitmap_pixels`]) and passes
    /// its id; the texture is released one pass after the `present` that
    /// delivers this shape.
    pub fn record_bitmap(&mut self, pos: (i32, i32), w: u32, h: u32, texture: u64)
        requires
            w <= 0x7fff_ffff,
            h <= 0x7fff_ffff,
        ensures
            old(self).same_surface(*final(self)),
            final(self).shapes@ == old(self).shapes@.push(
                Shape::Mesh {
                    texture,
                    min: (
                        (pos.0 + old(self).to_screen.dx) as i64,
                        (pos.1 + old(self).to_screen.dy) as i64,
                    ),
                    max: (
                        (pos.0 + old(self).to_screen.dx + w) as i64,
                        (pos.1 + old(self).to_screen.dy + h) as i64,
                    ),
                },
            ),
            final(self).allocated_textures@ == old(self).allocated_textures@.push(texture),
            final(self).gc_textures@ == old(self).gc_textures@,
            issued(*old(self), *final(self), SurfaceCall::Bitmap { pos, w, h, texture }),
    {
        let min = self.to_screen.apply(pos);
        let shape = Shape::Mesh {
            texture,
            min,
            max: (min.0 + (w as i64), min.1 + (h as i64)),
        };
        self.shapes.push(shape);
        self.allocated_textures.push(texture);
        proof {
            lemma_shapes_view_push(old(self).shapes@, self.shapes@.last());
        }
    }

    /// Maps logical points into screen space, keeping order and length.
    fn map_points(&self, pts: &Vec<(i32, i32)>) -> (r: Vec<(i64, i64)>)
        ensures
            r@ == path_image(self.to_screen, pts@),
    {
        let mut out: Vec<(i64, i64)> = Vec::new();
        let mut i: usize = 0;
        while i < pts.len()
            invariant
                i <= pts@.len(),
                out@ == path_image(self.to_screen, pts@.take(i as int)),
            decreases pts@.len() - i,
        {
            let p = self.to_screen.apply(pts[i]);
            out.push(p);
            proof {
                assert(out@ =~= path_image(self.to_screen, pts@.take(i as int + 1)));
            }
            i = i + 1;
        }
        proof {
            assert(pts@.take(pts@.len() as int) == pts@);
        }
        out
    }
}

/// Expands a tightly packed RGBA byte buffer into the host's pixel colors:
/// one color per four bytes, fully opaque, as the live canvas uploads
/// bitmaps.
pub fn bitmap_pixels(src: &Vec<u8>) -> (r: Vec<Color>)
    ensures
        r@.len() == src@.len() / 4,
        forall|i: int|
            0 <= i < r@.len() ==> r@[i] == (Color {
                r: src@[4 * i],
                g: src@[4 * i + 1],
                b: src@[4 * i + 2],
                a: 255u8,
            }),
{
    let mut out: Vec<Color> = Vec::new();
    let len: usize = src.len();
    let n: usize = len / 4;
    proof {
        assert(4 * n <= len) by (nonlinear_arith)
            requires
                n == len / 4,
        ;
    }
    let mut i: usize = 0;
    while i < n
        invariant
            i <= n,
            n == src@.len() / 4,
            4 * n <= src@.len(),
            4 * n <= usize::MAX,
            out@.len() == i,
            forall|j: int|
                0 <= j < i ==> out@[j] == (Color {
                    r: src@[4 * j],
                    g: src@[4 * j + 1],
                    b: src@[4 * j + 2],
                    a: 255u8,
                }),
        decreases n - i,
    {
        let c = Color { r: src[4 * i], g: src[4 * i + 1], b: src[4 * i + 2], a: 255 };
        out.push(c);
        i = i + 1;
    }
    out
}

} // verus!
