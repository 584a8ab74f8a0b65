//! The viewer's event loop decisions: what each window or device event
//! leads to, given the surface and pointer state.

use vstd::prelude::*;
use crate::input::{after_button, requests_exit, MouseButtonKind, PointerState};
use crate::surface::{resized, SurfaceState};

verus! {

/// A window or device event, as far as the viewer's decisions depend on it.
/// For a key event, whether the camera controller already took the key.
#[derive(Clone, Copy, PartialEq, Eq, Structural, Debug)]
pub enum ViewerEvent {
    CloseRequested,
    Resized { width: u32, height: u32 },
    RedrawRequested,
    MouseInput { button: MouseButtonKind, pressed: bool },
    MouseWheel,
    Key { handled_by_camera: bool, is_escape: bool, pressed: bool },
    MouseMotion,
    Other,
}

/// What the event loop has to do in answer to an event.
#[derive(Clone, Copy, PartialEq, Eq, Structural, Debug)]
pub enum ViewerAction {
    Nothing,
    /// Leave the event loop.
    Exit,
    /// Recreate the surface configuration, the depth and the HDR targets
    /// at the given size.
    Reconfigure { width: u32, height: u32 },
    /// Advance the scene by the time elapsed and draw a frame.
    UpdateAndRender,
    /// Hand the wheel movement to the camera controller.
    ScrollCamera,
    /// Hand the mouse movement to the camera controller.
    MoveCamera,
}

/// Surface and pointer state of a running viewer.
#[derive(Clone, Copy, PartialEq, Eq, Structural, Debug)]
pub struct Viewer {
    pub surface: SurfaceState,
    pub pointer: PointerState,
}

/// The action an event leads to in state `v`.
pub open spec fn action_for(v: Viewer, event: ViewerEvent) -> ViewerAction {
    match event {
        ViewerEvent::CloseRequested => ViewerAction::Exit,
        ViewerEvent::Resized { width, height } => if width > 0 && height > 0 {
            ViewerAction::Reconfigure { width, height }
        } else {
            ViewerAction::Nothing
        },
        ViewerEvent::RedrawRequested => ViewerAction::UpdateAndRender,
        ViewerEvent::MouseInput { .. } => ViewerAction::Nothing,
        ViewerEvent::MouseWheel => ViewerAction::ScrollCamera,
        ViewerEvent::Key { handled_by_camera, is_escape, pressed } => if !handled_by_camera
            && is_escape && pressed {
            ViewerAction::Exit
        } else {
            ViewerAction::Nothing
        },
        ViewerEvent::MouseMotion => if v.pointer.mouse_pressed {
            ViewerAction::MoveCamera
        } else {
            ViewerAction::Nothing
        },
        ViewerEvent::Other => ViewerAction::Nothing,
    }
}

/// The state an event leaves behind.
pub open spec fn state_after(v: Viewer, event: ViewerEvent) -> Viewer {
    match event {
        ViewerEvent::Resized { width, height } => Viewer {
            surface: resized(v.surface, width, height),
            pointer: v.pointer,
        },
        ViewerEvent::MouseInput { button, pressed } => Viewer {
            surface: v.surface,
            pointer: after_button(v.pointer, button, pressed),
        },
        _ => v,
    }
}

impl Viewer {
    /// A viewer whose window has the given size: surface not configured yet,
    /// no mouse button held.
    pub fn new(width: u32, height: u32) -> (v: Viewer)
        ensures
            v.surface == SurfaceState::new_spec(width, height),
            v.surface.wf(),
            !v.pointer.mouse_pressed,
    {
        Viewer { surface: SurfaceState::new(width, height), pointer: PointerState::new() }
    }

    /// Takes one event: updates the state and says what the loop must do.
    pub fn step(&mut self, event: ViewerEvent) -> (action: ViewerAction)
        ensures
            action == action_for(*old(self), event),
            *final(self) == state_after(*old(self), event),
            old(self).surface.wf() ==> final(self).surface.wf(),
            event matches ViewerEvent::Resized { width, height } ==> final(self).pointer == old(
                self,
            ).pointer && if width > 0 && height > 0 {
                &&& action == (ViewerAction::Reconfigure { width, height })
                &&& final(self).surface.configured
                &&& final(self).surface.width == width
                &&& final(self).surface.height == height
                &&& final(self).surface.hdr_width == width
                &&& final(self).surface.hdr_height == height
            } else {
                action == ViewerAction::Nothing && final(self).surface == old(self).surface
            },
            event matches ViewerEvent::MouseInput { button, pressed } ==> {
                &&& action == ViewerAction::Nothing
                &&& final(self).surface == old(self).surface
                &&& final(self).pointer.mouse_pressed == if button == MouseButtonKind::Left {
                    pressed
                } else {
                    old(self).pointer.mouse_pressed
                }
            },
            event matches ViewerEvent::Key { handled_by_camera, is_escape, pressed } ==> {
                &&& *final(self) == *old(self)
                &&& action == if !handled_by_camera && is_escape && pressed {
                    ViewerAction::Exit
                } else {
                    ViewerAction::Nothing
                }
            },
            event == ViewerEvent::MouseMotion ==> *final(self) == *old(self) && action == if old(
                self,
            ).pointer.mouse_pressed {
                ViewerAction::MoveCamera
            } else {
                ViewerAction::Nothing
            },
            event == ViewerEvent::CloseRequested ==> *final(self) == *old(self) && action
                == ViewerAction::Exit,
            event == ViewerEvent::RedrawRequested ==> *final(self) == *old(self) && action
                == ViewerAction::UpdateAndRender,
            event == ViewerEvent::MouseWheel ==> *final(self) == *old(self) && action
                == ViewerAction::ScrollCamera,
            event == ViewerEvent::Other ==> *final(self) == *old(self) && action
                == ViewerAction::Nothing,
    {
        match event {
            ViewerEvent::CloseRequested => ViewerAction::Exit,
            ViewerEvent::Resized { width, height } => {
                if self.surface.resize(width, height) {
                    ViewerAction::Reconfigure { width, height }
                } else {
                    ViewerAction::Nothing
                }
            },
            ViewerEvent::RedrawRequested => ViewerAction::UpdateAndRender,
            ViewerEvent::MouseInput { button, pressed } => {
                self.pointer.handle_mouse_button(button, pressed);
                ViewerAction::Nothing
            },
            ViewerEvent::MouseWheel => ViewerAction::ScrollCamera,
            ViewerEvent::Key { handled_by_camera, is_escape, pressed } => {
                if requests_exit(handled_by_camera, is_escape, pressed) {
                    ViewerAction::Exit
                } else {
                    ViewerAction::Nothing
                }
            },
            ViewerEvent::MouseMotion => {
                if self.pointer.forwards_motion() {
                    ViewerAction::MoveCamera
                } else {
                    ViewerAction::Nothing
                }
            },
            ViewerEvent::Other => ViewerAction::Nothing,
        }
    }
}

/// The surface is reconfigured exactly when the loop is told to rebuild the
/// GPU targets, and then at the size it is told.
pub proof fn lemma_reconfigure_matches_surface(v: Viewer, event: ViewerEvent)
    ensures
        action_for(v, event) matches ViewerAction::Reconfigure { width, height } ==> state_after(
            v,
            event,
        ).surface.configured && state_after(v, event).surface.width == width && state_after(
            v,
            event,
        ).surface.height == height,
        !(action_for(v, event) is Reconfigure) ==> state_after(v, event).surface == v.surface,
{
}

/// A resize to any usable size, whatever the current surface size (the
/// same one included), configures the surface at exactly that size, the HDR
/// target with it, and asks for the GPU targets to be rebuilt.
pub proof fn lemma_resize_always_configures(v: Viewer, width: u32, height: u32)
    requires
        width > 0,
        height > 0,
    ensures
        action_for(v, ViewerEvent::Resized { width, height }) == (ViewerAction::Reconfigure {
            width,
            height,
        }),
        state_after(v, ViewerEvent::Resized { width, height }).surface.configured,
        state_after(v, ViewerEvent::Resized { width, height }).surface.width == width,
        state_after(v, ViewerEvent::Resized { width, height }).surface.height == height,
        state_after(v, ViewerEvent::Resized { width, height }).surface.hdr_width == width,
        state_after(v, ViewerEvent::Resized { width, height }).surface.hdr_height == height,
        state_after(v, ViewerEvent::Resized { width, height }).pointer == v.pointer,
{
}

/// Only the left button starts or stops a camera drag: any other button
/// leaves the viewer as it was, and the left one sets the drag to whether it
/// is held.
pub proof fn lemma_only_left_button_drags(v: Viewer, button: MouseButtonKind, pressed: bool)
    ensures
        action_for(v, ViewerEvent::MouseInput { button, pressed }) == ViewerAction::Nothing,
        button != MouseButtonKind::Left ==> state_after(
            v,
            ViewerEvent::MouseInput { button, pressed },
        ) == v,
        button == MouseButtonKind::Left ==> state_after(
            v,
            ViewerEvent::MouseInput { button, pressed },
        ).pointer.mouse_pressed == pressed && state_after(
            v,
            ViewerEvent::MouseInput { button, pressed },
        ).surface == v.surface,
{
}

} // verus!
