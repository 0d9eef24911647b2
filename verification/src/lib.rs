//! Verified core of a 3-D point-cloud visualizer for magnetometer
//! calibration data.
//!
//! The library holds the parts of the visualizer that decide and compute:
//! the exact view-projection model and its additive composition, the
//! copy-on-write point store shared between the UI and export workers, the
//! shape-recording GUI drawing surface, the viewport sizing and drag state
//! machine, and the export dispatch that picks an output format from a file
//! name. The host GUI, the file-backed renderers and the window event loop
//! live outside the library and exchange plain values with it.

pub mod backend;
pub mod drag;
pub mod export;
pub mod point;
pub mod projection;
pub mod rat;
pub mod scene;
pub mod widget;
pub mod window;
