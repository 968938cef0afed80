use vstd::prelude::*;

use crate::geometry::{rect_of, Rect};
use crate::tracker::{Mode, Tracker, Viewport};

verus! {

/// A colour with alpha, one byte per channel.
#[derive(Clone, Copy, Debug, PartialEq, Eq, Structural)]
pub struct Rgba {
    pub r: u8,
    pub g: u8,
    pub b: u8,
    pub a: u8,
}

/// One drawing call of a frame, in the order the host must issue them.
#[derive(Clone, Copy, Debug, PartialEq, Eq)]
pub enum DrawOp {
    /// Clear the window.
    Clear,
    /// Copy the source image to the whole window: all of it for `None`,
    /// only the given rectangle of it for `Some`.
    Blit(Option<Rect>),
    /// Set the colour of the following fills.
    SetColor(Rgba),
    /// Fill a rectangle of the window with the current colour.
    FillRect(Rect),
    /// Show what was drawn.
    Present,
}

/// The translucent blue laid over the area being selected.
pub open spec fn highlight() -> Rgba {
    Rgba { r: 0, g: 102, b: 204, a: 200 }
}

/// The draw calls of one frame.
///
/// While a drag is in progress the whole image is shown with the selection
/// laid over it, so the selection is in the image's own pixels. Otherwise the
/// view decides: the whole image, or the crop stretched to the window.
pub open spec fn frame_of(t: Tracker) -> Seq<DrawOp> {
    match t.mode {
        Mode::Selecting(g) => seq![
            DrawOp::Clear,
            DrawOp::Blit(None),
            DrawOp::SetColor(highlight()),
            DrawOp::FillRect(rect_of(g)),
            DrawOp::Present,
        ],
        Mode::Idle => match t.viewport {
            Viewport::Full => seq![DrawOp::Clear, DrawOp::Blit(None), DrawOp::Present],
            Viewport::Cropped(r) => seq![DrawOp::Clear, DrawOp::Blit(Some(r)), DrawOp::Present],
        },
    }
}

impl Tracker {
    /// The draw calls that render the current state.
    pub fn frame(&self) -> (ops: Vec<DrawOp>)
        ensures
            ops@ == frame_of(*self),
    {
        let mut ops: Vec<DrawOp> = Vec::new();
        ops.push(DrawOp::Clear);
        match self.mode {
            Mode::Selecting(g) => {
                ops.push(DrawOp::Blit(None));
                ops.push(DrawOp::SetColor(Rgba { r: 0, g: 102, b: 204, a: 200 }));
                ops.push(DrawOp::FillRect(g.normalize()));
            },
            Mode::Idle => match self.viewport {
                Viewport::Full => ops.push(DrawOp::Blit(None)),
                Viewport::Cropped(r) => ops.push(DrawOp::Blit(Some(r))),
            },
        }
        ops.push(DrawOp::Present);
        proof {
            assert(ops@ =~= frame_of(*self));
        }
        ops
    }
}

} // verus!
