use bevy::input::mouse::MouseButton;
use bevy::input::Input;
use camera_controller::camera::{CameraTransform, MotionTotal, Vector2};
use camera_controller::events::{MotionEvent, State, WheelEvent};
use camera_controller::input::middle_button_held;
use camera_controller::systems::{mouse_motion_system, pan_cameras_by_mouse};

fn camera(x: i64, y: i64) -> CameraTransform {
    CameraTransform { translation: Vector2 { x, y }, scale: Vector2 { x: 1000, y: 1000 } }
}

fn moved(x: i64, y: i64) -> MotionEvent {
    MotionEvent { delta: Vector2 { x, y } }
}

fn waiting(events: Vec<MotionEvent>) -> State {
    let mut state = State::default();
    state.mouse_motion_events = events;
    state
}

#[test]
fn a_new_state_holds_no_events() {
    let state = State::default();
    assert!(state.mouse_motion_events.is_empty());
    assert!(state.mouse_scroll_events.is_empty());
}

#[test]
fn reading_motion_sums_the_events_and_empties_the_queue() {
    let mut state = waiting(vec![moved(1000, 2000), moved(-250, 4000), moved(3250, -4000)]);
    state.mouse_scroll_events.push(WheelEvent { x: 0, y: 1000 });
    let total = state.read_mouse_motion();
    assert_eq!(total, MotionTotal { dx: 4000, dy: 2000 });
    assert!(state.mouse_motion_events.is_empty());
    assert_eq!(state.mouse_scroll_events, vec![WheelEvent { x: 0, y: 1000 }]);
    assert_eq!(state.read_mouse_motion(), MotionTotal { dx: 0, dy: 0 });
}

#[test]
fn reading_motion_keeps_the_exact_sum_beyond_the_narrow_range() {
    let mut state = waiting(vec![moved(i64::MAX, i64::MIN), moved(i64::MAX, i64::MIN), moved(1, -1)]);
    let total = state.read_mouse_motion();
    assert_eq!(total.dx, 2 * (i64::MAX as i128) + 1);
    assert_eq!(total.dy, 2 * (i64::MIN as i128) - 1);
}

#[test]
fn mouse_pan_inverts_the_horizontal_axis_only() {
    let mut cam = camera(0, 0);
    cam.pan_by_mouse(MotionTotal { dx: 4000, dy: 2000 });
    assert_eq!(cam, camera(-8000, 4000));
    cam.pan_by_mouse(MotionTotal { dx: -1500, dy: -500 });
    assert_eq!(cam, camera(-5000, 3000));
}

#[test]
fn mouse_pan_does_not_depend_on_the_scale() {
    let mut cam = CameraTransform { translation: Vector2 { x: 1, y: 1 }, scale: Vector2 { x: 4500, y: 500 } };
    cam.pan_by_mouse(MotionTotal { dx: 10, dy: 10 });
    assert_eq!(cam.translation, Vector2 { x: -19, y: 21 });
    assert_eq!(cam.scale, Vector2 { x: 4500, y: 500 });
}

#[test]
fn mouse_pan_by_zero_changes_nothing() {
    let mut cam = camera(77, -88);
    cam.pan_by_mouse(MotionTotal { dx: 0, dy: 0 });
    assert_eq!(cam, camera(77, -88));
}

#[test]
fn mouse_pan_saturates_at_the_end_of_the_range() {
    let mut cam = camera(i64::MIN + 3, i64::MAX - 3);
    cam.pan_by_mouse(MotionTotal { dx: 2, dy: 2 });
    assert_eq!(cam, camera(i64::MIN, i64::MAX));
    let mut cam = camera(0, 0);
    cam.pan_by_mouse(MotionTotal { dx: i128::MIN, dy: i128::MIN });
    assert_eq!(cam, camera(i64::MAX, i64::MIN));
    let mut cam = camera(0, 0);
    cam.pan_by_mouse(MotionTotal { dx: i128::MAX, dy: i128::MAX });
    assert_eq!(cam, camera(i64::MIN, i64::MAX));
    let mut cam = camera(i64::MIN, i64::MIN);
    cam.pan_by_mouse(MotionTotal { dx: i64::MIN as i128, dy: i64::MAX as i128 });
    assert_eq!(cam, camera(i64::MAX, i64::MAX - 1));
}

#[test]
fn mouse_pass_pans_the_single_camera_while_the_button_is_held() {
    let mut state = waiting(vec![moved(3000, 2000), moved(1000, 0)]);
    let mut cameras = vec![camera(100, 100)];
    pan_cameras_by_mouse(&mut state, true, &mut cameras);
    assert_eq!(cameras, vec![camera(-7900, 4100)]);
    assert!(state.mouse_motion_events.is_empty());
}

#[test]
fn mouse_pass_does_nothing_while_the_button_is_up() {
    let mut state = waiting(vec![moved(3000, 2000)]);
    let mut cameras = vec![camera(100, 100)];
    pan_cameras_by_mouse(&mut state, false, &mut cameras);
    assert_eq!(cameras, vec![camera(100, 100)]);
    assert_eq!(state.mouse_motion_events, vec![moved(3000, 2000)]);
}

#[test]
fn zero_motion_with_the_button_held_leaves_the_single_camera() {
    let mut state = State::default();
    let mut cameras = vec![camera(100, 100)];
    pan_cameras_by_mouse(&mut state, true, &mut cameras);
    assert_eq!(cameras, vec![camera(100, 100)]);
    let mut state = waiting(vec![moved(500, -20), moved(-500, 20)]);
    pan_cameras_by_mouse(&mut state, true, &mut cameras);
    assert_eq!(cameras, vec![camera(100, 100)]);
    assert!(state.mouse_motion_events.is_empty());
}

#[test]
fn zero_motion_with_the_button_held_leaves_every_camera() {
    let mut state = waiting(vec![moved(500, 0), moved(-500, 0)]);
    let mut cameras = vec![camera(1, 1), camera(2, 2), camera(3, 3)];
    pan_cameras_by_mouse(&mut state, true, &mut cameras);
    assert_eq!(cameras, vec![camera(1, 1), camera(2, 2), camera(3, 3)]);
    assert!(state.mouse_motion_events.is_empty());
}

#[test]
fn mouse_pass_moves_only_the_first_of_several_cameras() {
    let mut state = waiting(vec![moved(4000, 2000)]);
    let mut cameras = vec![camera(0, 0), camera(10, 10), camera(20, 20)];
    pan_cameras_by_mouse(&mut state, true, &mut cameras);
    assert_eq!(cameras, vec![camera(-8000, 4000), camera(10, 10), camera(20, 20)]);
    assert!(state.mouse_motion_events.is_empty());
}

#[test]
fn mouse_pass_without_cameras_reads_nothing() {
    let mut state = waiting(vec![moved(4000, 2000)]);
    let mut cameras: Vec<CameraTransform> = Vec::new();
    pan_cameras_by_mouse(&mut state, true, &mut cameras);
    assert!(cameras.is_empty());
    assert_eq!(state.mouse_motion_events, vec![moved(4000, 2000)]);
}

#[test]
fn mouse_pass_leaves_the_scroll_events() {
    let mut state = waiting(vec![moved(1, 1)]);
    state.mouse_scroll_events.push(WheelEvent { x: 3, y: -4 });
    let mut cameras = vec![camera(0, 0)];
    pan_cameras_by_mouse(&mut state, true, &mut cameras);
    assert_eq!(state.mouse_scroll_events, vec![WheelEvent { x: 3, y: -4 }]);
}

#[test]
fn middle_button_is_read_from_the_button_state() {
    let mut input: Input<MouseButton> = Input::default();
    assert!(!middle_button_held(&input));
    input.press(MouseButton::Left);
    input.press(MouseButton::Right);
    input.press(MouseButton::Other(2));
    assert!(!middle_button_held(&input));
    input.press(MouseButton::Middle);
    assert!(middle_button_held(&input));
    input.release(MouseButton::Middle);
    assert!(!middle_button_held(&input));
}

#[test]
fn mouse_system_pans_only_while_the_middle_button_is_held() {
    let mut input: Input<MouseButton> = Input::default();
    input.press(MouseButton::Left);
    let mut state = waiting(vec![moved(4000, 2000)]);
    let mut cameras = vec![camera(0, 0)];
    mouse_motion_system(&mut state, &input, &mut cameras);
    assert_eq!(cameras, vec![camera(0, 0)]);
    assert_eq!(state.mouse_motion_events, vec![moved(4000, 2000)]);
    input.press(MouseButton::Middle);
    mouse_motion_system(&mut state, &input, &mut cameras);
    assert_eq!(cameras, vec![camera(-8000, 4000)]);
    assert!(state.mouse_motion_events.is_empty());
    mouse_motion_system(&mut state, &input, &mut cameras);
    assert_eq!(cameras, vec![camera(-8000, 4000)]);
}
