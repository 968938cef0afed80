//! Region selection and zoom for a fixed-size image view.
//!
//! A drag with the primary pointer button selects a rectangle; releasing the
//! button crops the view to it, and the reset shortcut returns to the whole
//! image. The state machine, the rectangle arithmetic, the draw calls of a
//! frame and the test pattern of the source image are verified; the host
//! window system only feeds events in and carries draw calls out.

pub mod events;
pub mod geometry;
pub mod raster;
pub mod render;
pub mod tracker;

pub use events::{Button, Event, Flow, Key, Modifiers};
pub use geometry::{Rect, Region};
pub use render::{DrawOp, Rgba};
pub use tracker::{Mode, Tracker, Viewport};
