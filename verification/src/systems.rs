//! The three per-frame passes over the cameras.
//!
//! Each pass runs once per rendered frame. The keyboard pass moves every
//! camera. The two mouse passes read the event queue at the first camera;
//! reading drains the queue, so the cameras after the first find nothing to
//! act on.

use crate::camera::{lemma_no_motion_no_keyboard_pan, CameraTransform, MotionTotal};
use crate::events::{last_scroll, motion_total, MotionEvent, State, WheelEvent};
use crate::input::{held_buttons, held_keys, middle_button_held, motion_of, Button, HeldKeys};
use bevy::input::keyboard::KeyCode;
use bevy::input::mouse::MouseButton;
use bevy::input::Input;
use vstd::prelude::*;

verus! {

/// The cameras after a keyboard pass: each one panned by the motion that the
/// keys ask for, at its own horizontal scale.
pub open spec fn keyboard_panned_cameras(
    cameras: Seq<CameraTransform>,
    keys: HeldKeys,
) -> Seq<CameraTransform> {
    Seq::new(cameras.len(), |i: int| cameras[i].keyboard_panned(motion_of(keys)))
}

/// The cameras after a mouse-motion pass. While the middle button is held the
/// first camera is panned by the total of the waiting events. No other camera
/// moves: the first read empties the queue, and a camera that reads a total
/// of zero ends the pass.
pub open spec fn mouse_panned_cameras(
    cameras: Seq<CameraTransform>,
    middle_held: bool,
    events: Seq<MotionEvent>,
) -> Seq<CameraTransform> {
    if middle_held && cameras.len() > 0 {
        cameras.update(0, cameras[0].mouse_panned(motion_total(events)))
    } else {
        cameras
    }
}

/// The motion events that still wait after a mouse-motion pass: none if a
/// camera read them, all of them otherwise.
pub open spec fn motion_events_left(
    cameras: Seq<CameraTransform>,
    middle_held: bool,
    events: Seq<MotionEvent>,
) -> Seq<MotionEvent> {
    if middle_held && cameras.len() > 0 {
        Seq::empty()
    } else {
        events
    }
}

/// The cameras after a zoom pass: the first camera zoomed by the last scroll
/// value that waits. No other camera changes: the first read empties the
/// queue.
pub open spec fn zoomed_cameras(
    cameras: Seq<CameraTransform>,
    events: Seq<WheelEvent>,
) -> Seq<CameraTransform> {
    if cameras.len() > 0 {
        cameras.update(0, cameras[0].zoomed(last_scroll(events)))
    } else {
        cameras
    }
}

/// The scroll events that still wait after a zoom pass: none if there was a
/// camera to read them, all of them otherwise.
pub open spec fn scroll_events_left(
    cameras: Seq<CameraTransform>,
    events: Seq<WheelEvent>,
) -> Seq<WheelEvent> {
    if cameras.len() > 0 {
        Seq::empty()
    } else {
        events
    }
}

/// Pans every camera by the motion that `keys` ask for.
pub fn pan_cameras_by_keys(keys: &HeldKeys, cameras: &mut Vec<CameraTransform>)
    ensures
        final(cameras)@ == keyboard_panned_cameras(old(cameras)@, *keys),
        forall|i: int|
            0 <= i < old(cameras)@.len() && old(cameras)@[i].scale_in_bounds()
                ==> final(cameras)@[i].scale_in_bounds(),
{
    let n: usize = cameras.len();
    let mut i: usize = 0;
    while i < n
        invariant
            i <= n,
            n == cameras@.len(),
            n == old(cameras)@.len(),
            forall|j: int|
                0 <= j < i ==> cameras@[j] == old(cameras)@[j].keyboard_panned(motion_of(*keys)),
            forall|j: int| i <= j < n ==> cameras@[j] == old(cameras)@[j],
        decreases n - i,
    {
        let mut camera: CameraTransform = cameras[i];
        camera.pan_by_keys(keys);
        cameras.set(i, camera);
        i = i + 1;
    }
}

/// The keyboard pass: reads the steering keys from the engine's keyboard
/// state and pans every camera by the motion that they ask for.
pub fn keyboard_motion_system(keyboard_input: &Input<KeyCode>, cameras: &mut Vec<CameraTransform>)
    ensures
        final(cameras)@ == keyboard_panned_cameras(
            old(cameras)@,
            HeldKeys::of(held_keys(keyboard_input)),
        ),
        forall|i: int|
            0 <= i < old(cameras)@.len() && old(cameras)@[i].scale_in_bounds()
                ==> final(cameras)@[i].scale_in_bounds(),
{
    let keys: HeldKeys = HeldKeys::read(keyboard_input);
    pan_cameras_by_keys(&keys, cameras);
}

/// The mouse-motion pass on a known button state. Does nothing unless the
/// middle button is held. A camera that reads a total of exactly zero ends
/// the pass for all cameras after it.
pub fn pan_cameras_by_mouse(
    state: &mut State,
    middle_held: bool,
    cameras: &mut Vec<CameraTransform>,
)
    ensures
        final(cameras)@ == mouse_panned_cameras(
            old(cameras)@,
            middle_held,
            old(state).mouse_motion_events@,
        ),
        final(state).mouse_motion_events@ == motion_events_left(
            old(cameras)@,
            middle_held,
            old(state).mouse_motion_events@,
        ),
        final(state).mouse_scroll_events@ == old(state).mouse_scroll_events@,
        forall|i: int|
            0 <= i < old(cameras)@.len() && old(cameras)@[i].scale_in_bounds()
                ==> final(cameras)@[i].scale_in_bounds(),
{
    let n: usize = cameras.len();
    let mut i: usize = 0;
    while i < n
        invariant
            i <= n,
            n == cameras@.len(),
            n == old(cameras)@.len(),
            state.mouse_scroll_events@ == old(state).mouse_scroll_events@,
            i == 0 || !middle_held ==> {
                &&& cameras@ == old(cameras)@
                &&& state.mouse_motion_events@ == old(state).mouse_motion_events@
            },
            i > 0 && middle_held ==> {
                &&& state.mouse_motion_events@.len() == 0
                &&& cameras@ == mouse_panned_cameras(
                    old(cameras)@,
                    true,
                    old(state).mouse_motion_events@,
                )
            },
        decreases n - i,
    {
        if middle_held {
            let total: MotionTotal = state.read_mouse_motion();
            if total.dx == 0 && total.dy == 0 {
                return ;
            }
            let mut camera: CameraTransform = cameras[i];
            camera.pan_by_mouse(total);
            cameras.set(i, camera);
        }
        i = i + 1;
    }
}

/// The mouse-motion pass: reads the middle button from the engine's button
/// state and, while it is held, pans by the pointer motion that waits.
pub fn mouse_motion_system(
    state: &mut State,
    mouse_button_input: &Input<MouseButton>,
    cameras: &mut Vec<CameraTransform>,
)
    ensures
        final(cameras)@ == mouse_panned_cameras(
            old(cameras)@,
            held_buttons(mouse_button_input).contains(Button::Middle),
            old(state).mouse_motion_events@,
        ),
        final(state).mouse_motion_events@ == motion_events_left(
            old(cameras)@,
            held_buttons(mouse_button_input).contains(Button::Middle),
            old(state).mouse_motion_events@,
        ),
        final(state).mouse_scroll_events@ == old(state).mouse_scroll_events@,
        forall|i: int|
            0 <= i < old(cameras)@.len() && old(cameras)@[i].scale_in_bounds()
                ==> final(cameras)@[i].scale_in_bounds(),
{
    let middle_held: bool = middle_button_held(mouse_button_input);
    pan_cameras_by_mouse(state, middle_held, cameras);
}

/// The zoom pass: zooms by the last scroll value that waits.
pub fn mouse_zoom_system(state: &mut State, cameras: &mut Vec<CameraTransform>)
    ensures
        final(cameras)@ == zoomed_cameras(old(cameras)@, old(state).mouse_scroll_events@),
        final(state).mouse_scroll_events@ == scroll_events_left(
            old(cameras)@,
            old(state).mouse_scroll_events@,
        ),
        final(state).mouse_motion_events@ == old(state).mouse_motion_events@,
        forall|i: int|
            0 <= i < old(cameras)@.len() && old(cameras)@[i].scale_in_bounds()
                ==> final(cameras)@[i].scale_in_bounds(),
{
    let n: usize = cameras.len();
    let mut i: usize = 0;
    while i < n
        invariant
            i <= n,
            n == cameras@.len(),
            n == old(cameras)@.len(),
            state.mouse_motion_events@ == old(state).mouse_motion_events@,
            i == 0 ==> {
                &&& cameras@ == old(cameras)@
                &&& state.mouse_scroll_events@ == old(state).mouse_scroll_events@
            },
            i > 0 ==> {
                &&& state.mouse_scroll_events@.len() == 0
                &&& cameras@ == zoomed_cameras(old(cameras)@, old(state).mouse_scroll_events@)
            },
        decreases n - i,
    {
        let scroll: i64 = state.read_mouse_scroll();
        let mut camera: CameraTransform = cameras[i];
        camera.zoom(scroll);
        cameras.set(i, camera);
        i = i + 1;
    }
}

/// Of the scroll events of one frame only the last one counts: the cameras
/// end up as if it had been the only event, whatever came before it.
pub proof fn lemma_last_scroll_wins(
    cameras: Seq<CameraTransform>,
    earlier: Seq<WheelEvent>,
    last: WheelEvent,
)
    ensures
        last_scroll(earlier.push(last)) == last.y,
        zoomed_cameras(cameras, earlier.push(last)) == zoomed_cameras(cameras, seq![last]),
{
    assert(earlier.push(last).last() == last);
    assert(seq![last].last() == last);
}

/// A zoom pass that reads a nonzero scroll value leaves the first camera with
/// two equal scales within the bounds, whatever they were before.
pub proof fn lemma_zoom_pass_clamps_and_converges(
    cameras: Seq<CameraTransform>,
    events: Seq<WheelEvent>,
)
    requires
        cameras.len() > 0,
        last_scroll(events) != 0,
    ensures
        zoomed_cameras(cameras, events)[0].scale.x == zoomed_cameras(cameras, events)[0].scale.y,
        zoomed_cameras(cameras, events)[0].scale_in_bounds(),
{
}

/// While the middle button is held, pointer events that add up to exactly
/// zero move no camera, the first one included. With several cameras this is
/// the case in which the pass stops at the first camera; the cameras after it
/// are not moved in any case.
pub proof fn lemma_zero_motion_moves_nothing(
    cameras: Seq<CameraTransform>,
    events: Seq<MotionEvent>,
)
    requires
        motion_total(events) == (0int, 0int),
    ensures
        mouse_panned_cameras(cameras, true, events) == cameras,
{
}

/// The mouse passes act on the first camera only.
pub proof fn lemma_mouse_passes_spare_later_cameras(
    cameras: Seq<CameraTransform>,
    middle_held: bool,
    motion: Seq<MotionEvent>,
    scroll: Seq<WheelEvent>,
    i: int,
)
    requires
        1 <= i < cameras.len(),
    ensures
        mouse_panned_cameras(cameras, middle_held, motion)[i] == cameras[i],
        zoomed_cameras(cameras, scroll)[i] == cameras[i],
{
}

/// A frame without input is the identity: with no key held, no pointer
/// motion and no scroll event, each of the three passes leaves every camera
/// as it was, whether or not the middle button is held.
pub proof fn lemma_idle_frame_is_identity(cameras: Seq<CameraTransform>, middle_held: bool)
    ensures
        keyboard_panned_cameras(cameras, HeldKeys::of(Set::empty())) == cameras,
        mouse_panned_cameras(cameras, middle_held, Seq::empty()) == cameras,
        zoomed_cameras(cameras, Seq::empty()) == cameras,
{
    assert forall|i: int| 0 <= i < cameras.len() implies cameras[i].keyboard_panned(
        motion_of(HeldKeys::of(Set::empty())),
    ) == cameras[i] by {
        lemma_no_motion_no_keyboard_pan(cameras[i]);
    }
}

/// Every pass keeps scales that lie within the bounds within the bounds.
pub proof fn lemma_passes_keep_scale_in_bounds(
    cameras: Seq<CameraTransform>,
    keys: HeldKeys,
    middle_held: bool,
    motion: Seq<MotionEvent>,
    scroll: Seq<WheelEvent>,
    i: int,
)
    requires
        0 <= i < cameras.len(),
        cameras[i].scale_in_bounds(),
    ensures
        keyboard_panned_cameras(cameras, keys)[i].scale_in_bounds(),
        mouse_panned_cameras(cameras, middle_held, motion)[i].scale_in_bounds(),
        zoomed_cameras(cameras, scroll)[i].scale_in_bounds(),
{
}

} // verus!
