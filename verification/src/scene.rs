//! The fixed parameters of the framed 3-D scatter scene.
//!
//! The plot routine renders, in order: a white background; a Cartesian 3-D
//! chart spanning [-1, 1] on all three axes under the current projection;
//! the axes with sans-serif labels; one filled red circle per point; and
//! the legend box. The renderers live with the host (they draw through the
//! plotting toolkit's floating-point pipeline); the numbers they draw with
//! are fixed here.

use vstd::prelude::*;

use crate::backend::Color;
use crate::rat::Rat;

verus! {

/// The chart spans this range on all three axes.
pub const CHART_AXIS_MIN: i64 = -1;

pub const CHART_AXIS_MAX: i64 = 1;

/// Axis labels use an 18-point sans-serif style.
pub const AXIS_LABEL_FONT_SIZE: u32 = 18;

/// Labels per axis.
pub const AXIS_LABELS_PER_AXIS: u32 = 8;

/// The legend glyph is a 2-pixel filled circle.
pub const LEGEND_GLYPH_RADIUS: u32 = 2;

/// The 2-D side plots force both axes to include [-2, 2].
pub const SIDE_PLOT_INCLUDE: i64 = 2;

/// Exports render at 1080 × 1080 pixels.
pub const EXPORT_WIDTH: u32 = 1080;

pub const EXPORT_HEIGHT: u32 = 1080;

/// The background fill.
pub fn white() -> (c: Color)
    ensures
        c == (Color { r: 255u8, g: 255u8, b: 255u8, a: 255u8 }),
{
    Color { r: 255, g: 255, b: 255, a: 255 }
}

/// The point series color.
pub fn red() -> (c: Color)
    ensures
        c == (Color { r: 255u8, g: 0u8, b: 0u8, a: 255u8 }),
{
    Color { r: 255, g: 0, b: 0, a: 255 }
}

/// The legend border color.
pub fn black() -> (c: Color)
    ensures
        c == (Color { r: 0u8, g: 0u8, b: 0u8, a: 255u8 }),
{
    Color { r: 0, g: 0, b: 0, a: 255 }
}

/// The legend background: white at 75% opacity, in 1/255 steps.
pub fn legend_background() -> (c: Color)
    ensures
        c == (Color { r: 255u8, g: 255u8, b: 255u8, a: 191u8 }),
{
    Color { r: 255, g: 255, b: 255, a: 191 }
}

/// The label of the single data series.
pub fn series_label() -> (r: &'static str)
    ensures
        r@ == "Test"@,
{
    "Test"
}

/// The default zoom factor: 3/4 gives the default framing.
pub fn default_scale() -> (r: Rat)
    ensures
        r.wf(),
        r.num == 3,
        r.den == 4,
{
    Rat::new(3, 4)
}

/// The pixel radius of one plotted point: 0.5% of the smaller surface
/// dimension, so the backend receives a pixel-space radius.
pub fn point_radius(width: u32, height: u32) -> (r: u32)
    ensures
        r == (if width < height { width as int } else { height as int }) / 200,
{
    let smaller = if width < height {
        width
    } else {
        height
    };
    smaller / 200
}

} // verus!
