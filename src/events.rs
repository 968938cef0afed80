use vstd::prelude::*;

use crate::tracker::{after_down, after_move, after_reset, after_up, Tracker};

verus! {

/// The keys the viewer reacts to; every other key is `Other`.
#[derive(Clone, Copy, Debug, PartialEq, Eq, Structural)]
pub enum Key {
    Escape,
    Num0,
    Other,
}

/// The modifier keys held when a key went down (either side of each).
/// Lock keys are not modifiers here.
#[derive(Clone, Copy, Debug, PartialEq, Eq, Structural)]
pub struct Modifiers {
    pub ctrl: bool,
    pub shift: bool,
    pub alt: bool,
    pub gui: bool,
}

/// Which pointer button an event is about.
#[derive(Clone, Copy, Debug, PartialEq, Eq, Structural)]
pub enum Button {
    Primary,
    Other,
}

/// An input event from the window system, reduced to what the viewer uses.
#[derive(Clone, Copy, Debug, PartialEq, Eq, Structural)]
pub enum Event {
    /// The window was asked to close.
    Quit,
    KeyDown { key: Key, mods: Modifiers },
    PointerMove { x: i32, y: i32 },
    ButtonDown { x: i32, y: i32, button: Button },
    ButtonUp { x: i32, y: i32, button: Button },
    /// Anything else the window system reports.
    Ignored,
}

/// What the event loop does after an event.
#[derive(Clone, Copy, Debug, PartialEq, Eq, Structural)]
pub enum Flow {
    /// Keep going; `redraw` says whether the frame has changed.
    Continue { redraw: bool },
    /// Leave the loop: no further events are handled.
    Stop,
}

pub open spec fn no_modifiers(m: Modifiers) -> bool {
    !m.ctrl && !m.shift && !m.alt && !m.gui
}

/// The state after an event and what the loop does next: close requests and
/// an unmodified Escape stop the loop; Ctrl with `0` resets the view; the
/// primary button drives the drag; everything else is ignored.
pub open spec fn step(t: Tracker, ev: Event) -> (Tracker, Flow) {
    match ev {
        Event::Quit => (t, Flow::Stop),
        Event::KeyDown { key, mods } => match key {
            Key::Escape => if no_modifiers(mods) {
                (t, Flow::Stop)
            } else {
                (t, Flow::Continue { redraw: false })
            },
            Key::Num0 => if mods.ctrl {
                (after_reset(t), Flow::Continue { redraw: true })
            } else {
                (t, Flow::Continue { redraw: false })
            },
            Key::Other => (t, Flow::Continue { redraw: false }),
        },
        Event::PointerMove { x, y } => (
            after_move(t, x, y),
            Flow::Continue { redraw: t.mode is Selecting },
        ),
        Event::ButtonDown { x, y, button } => match button {
            Button::Primary => (after_down(t, x, y), Flow::Continue { redraw: true }),
            Button::Other => (t, Flow::Continue { redraw: false }),
        },
        Event::ButtonUp { x, y, button } => match button {
            Button::Primary => (after_up(t, x, y), Flow::Continue { redraw: t.mode is Selecting }),
            Button::Other => (t, Flow::Continue { redraw: false }),
        },
        Event::Ignored => (t, Flow::Continue { redraw: false }),
    }
}

impl Tracker {
    /// Applies one input event and tells the event loop how to go on.
    pub fn handle_event(&mut self, ev: Event) -> (r: Flow)
        ensures
            (*final(self), r) == step(*old(self), ev),
    {
        match ev {
            Event::Quit => Flow::Stop,
            Event::KeyDown { key, mods } => match key {
                Key::Escape => {
                    if !mods.ctrl && !mods.shift && !mods.alt && !mods.gui {
                        Flow::Stop
                    } else {
                        Flow::Continue { redraw: false }
                    }
                },
                Key::Num0 => {
                    if mods.ctrl {
                        self.reset();
                        Flow::Continue { redraw: true }
                    } else {
                        Flow::Continue { redraw: false }
                    }
                },
                Key::Other => Flow::Continue { redraw: false },
            },
            Event::PointerMove { x, y } => {
                let redraw = self.pointer_move(x, y);
                Flow::Continue { redraw }
            },
            Event::ButtonDown { x, y, button } => match button {
                Button::Primary => {
                    self.pointer_down(x, y);
                    Flow::Continue { redraw: true }
                },
                Button::Other => Flow::Continue { redraw: false },
            },
            Event::ButtonUp { x, y, button } => match button {
                Button::Primary => {
                    let redraw = self.pointer_up(x, y);
                    Flow::Continue { redraw }
                },
                Button::Other => Flow::Continue { redraw: false },
            },
            Event::Ignored => Flow::Continue { redraw: false },
        }
    }
}

} // verus!
