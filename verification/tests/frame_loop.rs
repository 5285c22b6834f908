use voxel_mesh::camera::{CameraController, Key, Motion, Projection};
use voxel_mesh::frame::{Action, FrameCounter, RenderOutcome, State, WindowEvent, SECOND};

fn lens() -> Projection {
    Projection::new(800, 600, 45.0f32.to_bits(), 0.1f32.to_bits(), 100.0f32.to_bits())
}

#[test]
fn resize_to_nothing_changes_nothing() {
    let mut p = lens();
    p.resize(0, 0);
    assert_eq!(p, lens());
    p.resize(0, 480);
    assert_eq!(p, lens());
    p.resize(640, 0);
    assert_eq!(p, lens());
    assert_eq!(p.width as f32 / p.height as f32, 800.0 / 600.0);
}

#[test]
fn resize_replaces_the_size_and_keeps_the_lens() {
    let mut p = lens();
    p.resize(1920, 1080);
    assert_eq!(p.width, 1920);
    assert_eq!(p.height, 1080);
    assert_eq!(f32::from_bits(p.fovy), 45.0);
    assert_eq!(f32::from_bits(p.znear), 0.1);
    assert_eq!(f32::from_bits(p.zfar), 100.0);
    p.resize(0, 0);
    assert_eq!(p.width, 1920);
    assert_eq!(p.height, 1080);
    assert!(Projection::accepts(1, 1));
    assert!(!Projection::accepts(0, 1));
    assert!(!Projection::accepts(1, 0));
}

#[test]
fn keys_map_to_motions() {
    assert_eq!(CameraController::motion(Key::W), Some(Motion::Forward));
    assert_eq!(CameraController::motion(Key::Up), Some(Motion::Forward));
    assert_eq!(CameraController::motion(Key::S), Some(Motion::Backward));
    assert_eq!(CameraController::motion(Key::Down), Some(Motion::Backward));
    assert_eq!(CameraController::motion(Key::A), Some(Motion::Left));
    assert_eq!(CameraController::motion(Key::Left), Some(Motion::Left));
    assert_eq!(CameraController::motion(Key::D), Some(Motion::Right));
    assert_eq!(CameraController::motion(Key::Right), Some(Motion::Right));
    assert_eq!(CameraController::motion(Key::Space), Some(Motion::Up));
    assert_eq!(CameraController::motion(Key::LShift), Some(Motion::Down));
    assert_eq!(CameraController::motion(Key::Escape), None);
    assert_eq!(CameraController::motion(Key::Other), None);
}

#[test]
fn forward_key_moves_along_the_forward_axis() {
    let mut c = CameraController::new();
    assert_eq!(c.travel(), (0, 0, 0));
    assert!(c.process_keyboard(Key::W, true));
    assert!(c.forward);
    assert_eq!(c.travel(), (1, 0, 0));
    // held until released
    assert_eq!(c.travel(), (1, 0, 0));
    assert!(c.process_keyboard(Key::W, false));
    assert_eq!(c, CameraController::new());
}

#[test]
fn opposite_keys_cancel() {
    let mut c = CameraController::new();
    c.process_keyboard(Key::A, true);
    assert_eq!(c.travel(), (0, -1, 0));
    c.process_keyboard(Key::D, true);
    assert_eq!(c.travel(), (0, 0, 0));
    c.process_keyboard(Key::A, false);
    assert_eq!(c.travel(), (0, 1, 0));
    c.process_keyboard(Key::LShift, true);
    c.process_keyboard(Key::Down, true);
    assert_eq!(c.travel(), (-1, 1, -1));
    c.process_keyboard(Key::Space, true);
    assert_eq!(c.travel(), (-1, 1, 0));
    assert_eq!(CameraController::axis(true, false), 1);
    assert_eq!(CameraController::axis(false, true), -1);
    assert_eq!(CameraController::axis(true, true), 0);
    assert_eq!(CameraController::axis(false, false), 0);
}

#[test]
fn unknown_keys_are_not_consumed() {
    let mut c = CameraController::new();
    c.process_keyboard(Key::Space, true);
    let before = c;
    assert!(!c.process_keyboard(Key::Other, true));
    assert!(!c.process_keyboard(Key::Escape, true));
    assert!(!c.process_keyboard(Key::Other, false));
    assert_eq!(c, before);
}

#[test]
fn dragging_turns_the_camera_only_while_the_button_is_down() {
    let mut c = CameraController::new();
    assert!(!c.rotates());
    assert!(c.process_mouse_button(true, true));
    assert!(c.rotates());
    assert!(!c.process_mouse_button(false, false));
    assert!(c.rotates());
    assert!(c.process_mouse_button(true, false));
    assert!(!c.rotates());
}

fn start() -> State {
    State::new(800, 600, 45.0f32.to_bits(), 0.1f32.to_bits(), 100.0f32.to_bits())
}

#[test]
fn state_starts_with_nothing_held() {
    let s = start();
    assert_eq!(s.width, 800);
    assert_eq!(s.height, 600);
    assert_eq!(s.projection, lens());
    assert_eq!(s.camera_controller, CameraController::new());
}

#[test]
fn input_consumes_camera_events_only() {
    let mut s = start();
    assert!(s.input(WindowEvent::Keyboard { key: Some(Key::S), pressed: true }));
    assert!(s.camera_controller.backward);
    assert!(!s.input(WindowEvent::Keyboard { key: None, pressed: true }));
    assert!(!s.input(WindowEvent::Keyboard { key: Some(Key::Escape), pressed: true }));
    assert!(s.input(WindowEvent::MouseWheel));
    assert!(s.input(WindowEvent::MouseButton { left: true, pressed: true }));
    assert!(s.camera_controller.mouse_pressed);
    assert!(!s.input(WindowEvent::MouseButton { left: false, pressed: true }));
    assert!(!s.input(WindowEvent::CloseRequested));
    assert!(!s.input(WindowEvent::Resized { width: 3, height: 4 }));
    assert!(!s.input(WindowEvent::Other));
    let c = s.camera_controller;
    assert!(c.backward && c.mouse_pressed && !c.forward);
    // input alone never resizes
    assert_eq!(s.projection, lens());
    assert_eq!((s.width, s.height), (800, 600));
}

#[test]
fn state_resize_skips_empty_sizes() {
    let mut s = start();
    assert!(!s.resize(0, 0));
    assert_eq!(s, start());
    assert!(!s.resize(0, 10));
    assert!(!s.resize(10, 0));
    assert_eq!(s, start());
    assert!(s.resize(1024, 768));
    assert_eq!((s.width, s.height), (1024, 768));
    assert_eq!((s.projection.width, s.projection.height), (1024, 768));
    assert_eq!(f32::from_bits(s.projection.fovy), 45.0);
    assert!(!s.resize(0, 0));
    assert_eq!((s.projection.width, s.projection.height), (1024, 768));
}

#[test]
fn events_lead_to_actions() {
    let mut s = start();
    assert_eq!(s.handle_event(WindowEvent::CloseRequested), Action::Exit);
    assert_eq!(
        s.handle_event(WindowEvent::Keyboard { key: Some(Key::Escape), pressed: true }),
        Action::Exit
    );
    assert_eq!(
        s.handle_event(WindowEvent::Keyboard { key: Some(Key::Escape), pressed: false }),
        Action::Nothing
    );
    assert_eq!(
        s.handle_event(WindowEvent::Keyboard { key: Some(Key::W), pressed: true }),
        Action::Nothing
    );
    assert!(s.camera_controller.forward);
    assert_eq!(s.handle_event(WindowEvent::MouseWheel), Action::Scroll);
    assert_eq!(
        s.handle_event(WindowEvent::Resized { width: 640, height: 480 }),
        Action::Resize { width: 640, height: 480 }
    );
    assert_eq!((s.width, s.height), (640, 480));
    assert_eq!((s.projection.width, s.projection.height), (640, 480));
    assert_eq!(s.handle_event(WindowEvent::Resized { width: 0, height: 0 }), Action::Nothing);
    assert_eq!((s.projection.width, s.projection.height), (640, 480));
    assert_eq!(
        s.handle_event(WindowEvent::ScaleFactorChanged { width: 10, height: 20 }),
        Action::Resize { width: 10, height: 20 }
    );
    assert_eq!(
        s.handle_event(WindowEvent::ScaleFactorChanged { width: 10, height: 0 }),
        Action::Nothing
    );
    assert_eq!((s.width, s.height), (10, 20));
    assert_eq!(s.handle_event(WindowEvent::Other), Action::Nothing);
    assert_eq!(s.resize_action(0, 7), Action::Nothing);
    assert_eq!(s.resize_action(7, 7), Action::Resize { width: 7, height: 7 });
    assert!(s.camera_controller.forward);
}

#[test]
fn render_outcomes_lead_to_actions() {
    let s = State::new(8, 6, 0, 0, 0);
    assert_eq!(s.after_render(RenderOutcome::Presented), Action::Nothing);
    assert_eq!(
        s.after_render(RenderOutcome::SurfaceLost),
        Action::Resize { width: 8, height: 6 }
    );
    assert_eq!(s.after_render(RenderOutcome::OutOfMemory), Action::Exit);
    assert_eq!(s.after_render(RenderOutcome::OtherError), Action::Nothing);
    let empty = State::new(0, 6, 0, 0, 0);
    assert_eq!(empty.after_render(RenderOutcome::SurfaceLost), Action::Nothing);
    assert_eq!(empty.after_render(RenderOutcome::OutOfMemory), Action::Exit);
}

#[test]
fn frame_rate_is_due_once_a_second() {
    let mut counter = FrameCounter::new();
    assert_eq!(counter.tick(400_000_000), None);
    assert_eq!(counter.tick(400_000_000), None);
    assert_eq!(counter.frames, 2);
    assert_eq!(counter.elapsed, 800_000_000);
    assert_eq!(counter.tick(400_000_000), Some((3, 1_200_000_000)));
    assert_eq!(counter, FrameCounter::new());
    assert_eq!(counter.tick(SECOND), Some((1, SECOND)));
    assert_eq!(counter.tick(0), None);
    assert_eq!(counter.frames, 1);
    assert_eq!(counter.tick(u64::MAX), Some((2, u64::MAX)));
    let mut full = FrameCounter { frames: u64::MAX, elapsed: 5 };
    assert_eq!(full.tick(1), None);
    assert_eq!(full.frames, u64::MAX);
    assert_eq!(full.elapsed, 6);
}
