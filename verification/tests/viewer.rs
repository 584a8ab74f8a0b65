use lumen::input::MouseButtonKind;
use lumen::surface::SurfaceState;
use lumen::viewer::{Viewer, ViewerAction, ViewerEvent};

#[test]
fn viewer_starts_idle() {
    let v = Viewer::new(800, 600);
    assert_eq!(v.surface, SurfaceState::new(800, 600));
    assert!(!v.surface.should_render());
    assert!(!v.pointer.mouse_pressed);
}

#[test]
fn close_and_escape_exit() {
    let mut v = Viewer::new(800, 600);
    assert_eq!(v.step(ViewerEvent::CloseRequested), ViewerAction::Exit);
    let esc = ViewerEvent::Key { handled_by_camera: false, is_escape: true, pressed: true };
    assert_eq!(v.step(esc), ViewerAction::Exit);
    let taken = ViewerEvent::Key { handled_by_camera: true, is_escape: true, pressed: true };
    assert_eq!(v.step(taken), ViewerAction::Nothing);
    let released = ViewerEvent::Key { handled_by_camera: false, is_escape: true, pressed: false };
    assert_eq!(v.step(released), ViewerAction::Nothing);
    let other = ViewerEvent::Key { handled_by_camera: false, is_escape: false, pressed: true };
    assert_eq!(v.step(other), ViewerAction::Nothing);
}

#[test]
fn resize_reconfigures_only_with_a_usable_size() {
    let mut v = Viewer::new(800, 600);
    assert_eq!(v.step(ViewerEvent::Resized { width: 0, height: 600 }), ViewerAction::Nothing);
    assert!(!v.surface.configured);
    assert_eq!(
        v.step(ViewerEvent::Resized { width: 1280, height: 720 }),
        ViewerAction::Reconfigure { width: 1280, height: 720 }
    );
    assert!(v.surface.should_render());
    assert_eq!((v.surface.width, v.surface.height), (1280, 720));
    assert_eq!((v.surface.hdr_width, v.surface.hdr_height), (1280, 720));
    assert_eq!(v.step(ViewerEvent::Resized { width: 0, height: 0 }), ViewerAction::Nothing);
    assert_eq!((v.surface.width, v.surface.height), (1280, 720));
}

#[test]
fn redraw_wheel_and_other() {
    let mut v = Viewer::new(800, 600);
    let before = v;
    assert_eq!(v.step(ViewerEvent::RedrawRequested), ViewerAction::UpdateAndRender);
    assert_eq!(v.step(ViewerEvent::MouseWheel), ViewerAction::ScrollCamera);
    assert_eq!(v.step(ViewerEvent::Other), ViewerAction::Nothing);
    assert_eq!(v, before);
}

#[test]
fn mouse_motion_moves_camera_while_left_held() {
    let mut v = Viewer::new(800, 600);
    assert_eq!(v.step(ViewerEvent::MouseMotion), ViewerAction::Nothing);
    let press = ViewerEvent::MouseInput { button: MouseButtonKind::Left, pressed: true };
    assert_eq!(v.step(press), ViewerAction::Nothing);
    assert_eq!(v.step(ViewerEvent::MouseMotion), ViewerAction::MoveCamera);
    let right = ViewerEvent::MouseInput { button: MouseButtonKind::Right, pressed: false };
    v.step(right);
    assert_eq!(v.step(ViewerEvent::MouseMotion), ViewerAction::MoveCamera);
    let release = ViewerEvent::MouseInput { button: MouseButtonKind::Left, pressed: false };
    v.step(release);
    assert_eq!(v.step(ViewerEvent::MouseMotion), ViewerAction::Nothing);
}
