//! Input decisions of the viewer: which mouse button drags the camera, when
//! mouse motion is forwarded, and when a key press quits.

use vstd::prelude::*;

verus! {

/// A mouse button, as the windowing layer reports it.
#[derive(Clone, Copy, PartialEq, Eq, Structural, Debug)]
pub enum MouseButtonKind {
    Left,
    Right,
    Middle,
    Back,
    Forward,
    Other(u16),
}

/// Whether the camera-drag button (the left one) is held down.
#[derive(Clone, Copy, PartialEq, Eq, Structural, Debug)]
pub struct PointerState {
    pub mouse_pressed: bool,
}

impl PointerState {
    /// No button is held at start-up.
    pub fn new() -> (p: PointerState)
        ensures
            !p.mouse_pressed,
    {
        PointerState { mouse_pressed: false }
    }

    /// A press or release of `button`: only the left button changes the
    /// drag state.
    pub fn handle_mouse_button(&mut self, button: MouseButtonKind, pressed: bool)
        ensures
            *final(self) == after_button(*old(self), button, pressed),
            final(self).mouse_pressed == if button == MouseButtonKind::Left {
                pressed
            } else {
                old(self).mouse_pressed
            },
    {
        match button {
            MouseButtonKind::Left => {
                self.mouse_pressed = pressed;
            },
            _ => {},
        }
    }

    /// Raw mouse motion moves the camera only while the left button is held.
    pub fn forwards_motion(&self) -> (forward: bool)
        ensures
            forward == self.mouse_pressed,
    {
        self.mouse_pressed
    }
}

/// A key event that the camera controller did not take quits the viewer when
/// it is a press of Escape.
pub fn requests_exit(handled_by_camera: bool, is_escape: bool, pressed: bool) -> (exit: bool)
    ensures
        exit == (!handled_by_camera && is_escape && pressed),
{
    if !handled_by_camera {
        is_escape && pressed
    } else {
        false
    }
}

/// After a left-button release, mouse motion no longer moves the camera,
/// whatever other buttons are pressed or released afterwards.
pub proof fn lemma_release_stops_drag(p: PointerState, events: Seq<(MouseButtonKind, bool)>)
    requires
        forall|i: int| 0 <= i < events.len() ==> (#[trigger] events[i]).0 != MouseButtonKind::Left,
    ensures
        !after_buttons(after_button(p, MouseButtonKind::Left, false), events).mouse_pressed,
    decreases events.len(),
{
    if events.len() > 0 {
        lemma_release_stops_drag(p, events.drop_last());
    }
}

/// The pointer state after one button event, as `handle_mouse_button` states it.
pub open spec fn after_button(p: PointerState, button: MouseButtonKind, pressed: bool) -> PointerState {
    if button == MouseButtonKind::Left {
        PointerState { mouse_pressed: pressed }
    } else {
        p
    }
}

/// The pointer state after each of the button events (button, pressed) in turn.
pub open spec fn after_buttons(p: PointerState, events: Seq<(MouseButtonKind, bool)>) -> PointerState
    decreases events.len(),
{
    if events.len() == 0 {
        p
    } else {
        after_button(after_buttons(p, events.drop_last()), events.last().0, events.last().1)
    }
}

} // verus!
