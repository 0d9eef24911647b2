//! The per-frame viewport widget helper: size overrides, minimum size,
//! interaction sensitivity, and the sizing rule that picks the widget
//! rectangle each frame. The host allocates a painter over the resolved
//! rectangle and hands the plot closure a recording surface.

use vstd::prelude::*;

verus! {

/// How the viewport reacts to the pointer.
#[derive(Clone, Copy, Debug, PartialEq, Eq, Structural)]
pub enum Sensitivity {
    /// Focusable but not interactive.
    NoInteraction,
    /// Rotate the view by click-and-drag.
    ClickAndDrag,
}

/// One frame's viewport configuration.
#[derive(Clone, Copy, Debug)]
pub struct PlottersWidget {
    /// Fixed width, if overridden.
    pub width: Option<u32>,
    /// Fixed height, if overridden.
    pub height: Option<u32>,
    /// Lower bound on the resolved size.
    pub min_size: (u32, u32),
    /// Interaction sensitivity requested from the host.
    pub sense: Sensitivity,
}

/// One resolved dimension: the override if present, otherwise what is
/// available, and never below the minimum.
pub open spec fn resolved_dim(over: Option<u32>, available: u32, min: u32) -> int {
    let base = match over {
        Some(w) => w as int,
        None => available as int,
    };
    if base < min {
        min as int
    } else {
        base
    }
}

impl PlottersWidget {
    /// The default configuration: no overrides, a 64 × 64 minimum, not
    /// interactive.
    pub fn new() -> (r: PlottersWidget)
        ensures
            r == (PlottersWidget {
                width: None::<u32>,
                height: None::<u32>,
                min_size: (64u32, 64u32),
                sense: Sensitivity::NoInteraction,
            }),
    {
        PlottersWidget {
            width: None,
            height: None,
            min_size: (64, 64),
            sense: Sensitivity::NoInteraction,
        }
    }

    /// Fixes the width; the minimum width follows it.
    pub fn width(self, width: u32) -> (r: PlottersWidget)
        ensures
            r == (PlottersWidget {
                width: Some(width),
                min_size: (width, self.min_size.1),
                ..self
            }),
    {
        PlottersWidget { width: Some(width), min_size: (width, self.min_size.1), ..self }
    }

    /// Fixes the height; the minimum height follows it.
    pub fn height(self, height: u32) -> (r: PlottersWidget)
        ensures
            r == (PlottersWidget {
                height: Some(height),
                min_size: (self.min_size.0, height),
                ..self
            }),
    {
        PlottersWidget { height: Some(height), min_size: (self.min_size.0, height), ..self }
    }

    /// Sets the minimum size.
    pub fn min_size(self, min_size: (u32, u32)) -> (r: PlottersWidget)
        ensures
            r == (PlottersWidget { min_size, ..self }),
    {
        PlottersWidget { min_size, ..self }
    }

    /// Sets the interaction sensitivity.
    pub fn sense(self, sense: Sensitivity) -> (r: PlottersWidget)
        ensures
            r == (PlottersWidget { sense, ..self }),
    {
        PlottersWidget { sense, ..self }
    }

    /// The widget rectangle for this frame: each dimension is the override
    /// if one was set, otherwise the available room, and never below the
    /// configured minimum.
    pub fn resolve_size(&self, available: (u32, u32)) -> (r: (u32, u32))
        ensures
            r.0 == resolved_dim(self.width, available.0, self.min_size.0),
            r.1 == resolved_dim(self.height, available.1, self.min_size.1),
    {
        let w = match self.width {
            Some(w) => w,
            None => available.0,
        };
        let h = match self.height {
            Some(h) => h,
            None => available.1,
        };
        (
            if w < self.min_size.0 {
                self.min_size.0
            } else {
                w
            },
            if h < self.min_size.1 {
                self.min_size.1
            } else {
                h
            },
        )
    }
}

} // verus!
