use vstd::prelude::*;

use crate::geometry::{rect_of, Rect, Region};

verus! {

/// What the view shows when no drag is in progress.
#[derive(Clone, Copy, Debug, PartialEq, Eq, Structural)]
pub enum Viewport {
    /// The whole source image, stretched to the window.
    Full,
    /// Only this rectangle of the source image, stretched to the window.
    Cropped(Rect),
}

/// Whether a drag is in progress, and if so the corners it has so far.
#[derive(Clone, Copy, Debug, PartialEq, Eq, Structural)]
pub enum Mode {
    Idle,
    Selecting(Region),
}

/// The selection and view state of the viewer.
///
/// A drag and a committed crop are separate fields, so the state of a drag
/// can never be mistaken for the view it will produce.
#[derive(Clone, Copy, Debug, PartialEq, Eq, Structural)]
pub struct Tracker {
    pub mode: Mode,
    pub viewport: Viewport,
}

/// The state at start-up: no drag, whole image.
pub open spec fn initial() -> Tracker {
    Tracker { mode: Mode::Idle, viewport: Viewport::Full }
}

/// A press starts a new drag at the press point, replacing any drag that
/// was in progress; the view is left as it is.
pub open spec fn after_down(t: Tracker, x: i32, y: i32) -> Tracker {
    Tracker { mode: Mode::Selecting(Region { x0: x, y0: y, x1: x, y1: y }), ..t }
}

/// A move drags the second corner along while a drag is in progress, and
/// does nothing otherwise.
pub open spec fn after_move(t: Tracker, x: i32, y: i32) -> Tracker {
    match t.mode {
        Mode::Selecting(g) => Tracker { mode: Mode::Selecting(Region { x1: x, y1: y, ..g }), ..t },
        Mode::Idle => t,
    }
}

/// A release ends a drag in progress: the view becomes the rectangle between
/// the press point and the release point. Without a drag it does nothing.
pub open spec fn after_up(t: Tracker, x: i32, y: i32) -> Tracker {
    match t.mode {
        Mode::Selecting(g) => Tracker {
            mode: Mode::Idle,
            viewport: Viewport::Cropped(rect_of(Region { x1: x, y1: y, ..g })),
        },
        Mode::Idle => t,
    }
}

/// The reset shortcut abandons any drag and shows the whole image again.
pub open spec fn after_reset(t: Tracker) -> Tracker {
    initial()
}

impl Tracker {
    pub fn new() -> (r: Tracker)
        ensures
            r == initial(),
    {
        Tracker { mode: Mode::Idle, viewport: Viewport::Full }
    }

    /// Whether a drag is in progress.
    pub fn is_selecting(&self) -> (r: bool)
        ensures
            r == (self.mode is Selecting),
    {
        match self.mode {
            Mode::Selecting(_) => true,
            Mode::Idle => false,
        }
    }

    /// Primary button pressed at `(x, y)`: starts a drag there.
    pub fn pointer_down(&mut self, x: i32, y: i32)
        ensures
            *final(self) == after_down(*old(self), x, y),
    {
        self.mode = Mode::Selecting(Region::at(x, y));
    }

    /// Pointer moved to `(x, y)`. Returns whether the frame must be redrawn,
    /// which is exactly when a drag is in progress; without one, nothing
    /// changes.
    pub fn pointer_move(&mut self, x: i32, y: i32) -> (redraw: bool)
        ensures
            *final(self) == after_move(*old(self), x, y),
            redraw == (old(self).mode is Selecting),
            !(old(self).mode is Selecting) ==> *final(self) == *old(self),
    {
        match self.mode {
            Mode::Selecting(g) => {
                self.mode = Mode::Selecting(Region { x1: x, y1: y, ..g });
                true
            },
            Mode::Idle => false,
        }
    }

    /// Primary button released at `(x, y)`: a drag in progress is committed
    /// as the new view. Returns whether the frame must be redrawn, which is
    /// exactly when a drag was in progress.
    pub fn pointer_up(&mut self, x: i32, y: i32) -> (redraw: bool)
        ensures
            *final(self) == after_up(*old(self), x, y),
            redraw == (old(self).mode is Selecting),
            final(self).mode is Idle,
    {
        match self.mode {
            Mode::Selecting(g) => {
                let done = Region { x1: x, y1: y, ..g };
                self.viewport = Viewport::Cropped(done.normalize());
                self.mode = Mode::Idle;
                true
            },
            Mode::Idle => false,
        }
    }

    /// Reset shortcut: drops any drag and shows the whole image.
    pub fn reset(&mut self)
        ensures
            *final(self) == after_reset(*old(self)),
            final(self).viewport == Viewport::Full,
            final(self).mode is Idle,
    {
        self.mode = Mode::Idle;
        self.viewport = Viewport::Full;
    }
}

/// Resetting twice leaves the state where resetting once left it: the whole
/// image, with no drag.
pub proof fn reset_is_idempotent(t: Tracker)
    ensures
        after_reset(after_reset(t)) == after_reset(t),
        after_reset(t).viewport == Viewport::Full,
{
}

/// After a drag is committed as a crop, reset returns to the start-up state
/// itself (whole image, no drag), not to the view before the crop.
pub proof fn reset_after_zoom_returns_to_root(t: Tracker, x: i32, y: i32)
    requires
        t.mode is Selecting,
    ensures
        after_up(t, x, y).viewport is Cropped,
        after_reset(after_up(t, x, y)) == initial(),
{
}

/// A move without a drag in progress changes neither the view nor the drag
/// state.
pub proof fn idle_move_changes_nothing(t: Tracker, x: i32, y: i32)
    requires
        t.mode is Idle,
    ensures
        after_move(t, x, y) == t,
        after_move(t, x, y).mode is Idle,
{
}

} // verus!
