//! The camera's transform and the three ways in which input changes it.

use crate::fixed::{clamp, div_toward_zero, saturate, saturating_offset, UNIT};
use crate::input::{motion_of, HeldKeys, Motion};
use vstd::prelude::*;

verus! {

/// World distance per frame and unit of scale that a held direction moves
/// the camera.
pub const KEYBOARD_SENSITIVITY: i64 = 10;

/// World distance that the camera moves per unit of pointer motion.
pub const MOUSE_SENSITIVITY: i64 = 2;

/// Units of scroll that change the scale by one whole unit.
pub const ZOOM_SENSITIVITY: i64 = 10;

/// The smallest scale that zooming leaves: half a unit.
pub const MIN_SCALE: i64 = 500;

/// The largest scale that zooming leaves: four and a half units.
pub const MAX_SCALE: i64 = 4500;

/// A pair of fixed-point quantities, one per axis.
#[derive(Clone, Copy, Debug, PartialEq, Eq, Structural)]
pub struct Vector2 {
    pub x: i64,
    pub y: i64,
}

/// The accumulated pointer motion of one frame, wide enough to hold the exact
/// sum of any batch of events.
#[derive(Clone, Copy, Debug, PartialEq, Eq, Structural)]
pub struct MotionTotal {
    pub dx: i128,
    pub dy: i128,
}

/// Where the camera is and how far it is zoomed out.
#[derive(Clone, Copy, Debug, PartialEq, Eq, Structural)]
pub struct CameraTransform {
    pub translation: Vector2,
    pub scale: Vector2,
}

/// The translation step of a keyboard motion at a horizontal scale: the
/// motion times the sensitivity times the scale, so that a view zoomed
/// further out pans faster.
pub open spec fn keyboard_step(motion: (int, int), scale_x: int) -> (int, int) {
    (motion.0 * KEYBOARD_SENSITIVITY * scale_x, motion.1 * KEYBOARD_SENSITIVITY * scale_x)
}

/// The translation step of an accumulated pointer motion: the motion times
/// the sensitivity, with the horizontal axis inverted, so that dragging right
/// moves the view left.
pub open spec fn mouse_step(total: (int, int)) -> (int, int) {
    (-total.0 * MOUSE_SENSITIVITY, total.1 * MOUSE_SENSITIVITY)
}

/// How far a scroll value zooms: a tenth of it, rounded toward zero.
pub open spec fn zoom_step(scroll: int) -> int {
    div_toward_zero(scroll, ZOOM_SENSITIVITY as int)
}

/// The scale that a nonzero scroll value leaves on both axes, from the
/// horizontal scale before it.
pub open spec fn zoomed_scale(scale_x: int, scroll: int) -> int {
    clamp(scale_x - zoom_step(scroll), MIN_SCALE as int, MAX_SCALE as int)
}

impl CameraTransform {
    /// Whether both scales lie between the least and the greatest scale.
    pub open spec fn scale_in_bounds(self) -> bool {
        &&& MIN_SCALE <= self.scale.x <= MAX_SCALE
        &&& MIN_SCALE <= self.scale.y <= MAX_SCALE
    }

    /// This transform moved by `step`, each coordinate saturating at the ends
    /// of its range. The scale stays.
    pub open spec fn moved_by(self, step: (int, int)) -> CameraTransform {
        CameraTransform {
            translation: Vector2 {
                x: saturate(self.translation.x + step.0) as i64,
                y: saturate(self.translation.y + step.1) as i64,
            },
            scale: self.scale,
        }
    }

    /// This transform after one frame of keyboard panning with `motion`.
    pub open spec fn keyboard_panned(self, motion: (int, int)) -> CameraTransform {
        self.moved_by(keyboard_step(motion, self.scale.x as int))
    }

    /// This transform after one frame of mouse panning with the accumulated
    /// pointer motion `total`.
    pub open spec fn mouse_panned(self, total: (int, int)) -> CameraTransform {
        self.moved_by(mouse_step(total))
    }

    /// This transform after a frame whose last scroll value is `scroll`. Zero
    /// changes nothing. Any other value sets both scales to the same value,
    /// computed from the horizontal scale. The translation stays.
    pub open spec fn zoomed(self, scroll: int) -> CameraTransform {
        if scroll == 0 {
            self
        } else {
            CameraTransform {
                translation: self.translation,
                scale: Vector2 {
                    x: zoomed_scale(self.scale.x as int, scroll) as i64,
                    y: zoomed_scale(self.scale.x as int, scroll) as i64,
                },
            }
        }
    }

    /// A camera at the origin with a scale of one unit on both axes.
    pub fn identity() -> (camera: CameraTransform)
        ensures
            camera.translation == (Vector2 { x: 0, y: 0 }),
            camera.scale == (Vector2 { x: UNIT, y: UNIT }),
            camera.scale_in_bounds(),
    {
        CameraTransform { translation: Vector2 { x: 0, y: 0 }, scale: Vector2 { x: UNIT, y: UNIT } }
    }

    /// Pans by the motion that `keys` ask for, at this camera's horizontal
    /// scale. Runs every frame, also when no key is held: the step is then
    /// zero.
    pub fn pan_by_keys(&mut self, keys: &HeldKeys)
        ensures
            *final(self) == old(self).keyboard_panned(motion_of(*keys)),
            final(self).scale == old(self).scale,
    {
        let motion: Motion = keys.motion();
        let gain: i128 = KEYBOARD_SENSITIVITY as i128;
        let scale_x: i128 = self.scale.x as i128;
        proof {
            let asked = motion_of(*keys);
            assert(asked.0 * gain * scale_x == asked.0 * KEYBOARD_SENSITIVITY * (self.scale.x as int));
            assert(asked.1 * gain * scale_x == asked.1 * KEYBOARD_SENSITIVITY * (self.scale.x as int));
            assert(-0x8_0000_0000_0000_0000 <= asked.0 * gain * scale_x <= 0x8_0000_0000_0000_0000)
                by (nonlinear_arith)
                requires
                    -1 <= asked.0 <= 1,
                    gain == 10,
                    -0x8000_0000_0000_0000 <= scale_x < 0x8000_0000_0000_0000,
            ;
            assert(-0x8_0000_0000_0000_0000 <= asked.1 * gain * scale_x <= 0x8_0000_0000_0000_0000)
                by (nonlinear_arith)
                requires
                    -1 <= asked.1 <= 1,
                    gain == 10,
                    -0x8000_0000_0000_0000 <= scale_x < 0x8000_0000_0000_0000,
            ;
        }
        let step_x: i128 = motion.x as i128 * gain * scale_x;
        let step_y: i128 = motion.y as i128 * gain * scale_x;
        self.translation.x = saturating_offset(self.translation.x, step_x);
        self.translation.y = saturating_offset(self.translation.y, step_y);
    }

    /// Pans by the accumulated pointer motion of one frame.
    pub fn pan_by_mouse(&mut self, total: MotionTotal)
        ensures
            *final(self) == old(self).mouse_panned((total.dx as int, total.dy as int)),
            final(self).scale == old(self).scale,
    {
        // A total beyond this bound saturates the result wherever the camera
        // is, so limiting it first loses nothing.
        let bound: i128 = 0x1_0000_0000_0000_0000;
        let dx: i128 = if total.dx < -bound {
            -bound
        } else if total.dx > bound {
            bound
        } else {
            total.dx
        };
        let dy: i128 = if total.dy < -bound {
            -bound
        } else if total.dy > bound {
            bound
        } else {
            total.dy
        };
        let gain: i128 = MOUSE_SENSITIVITY as i128;
        assert(-dx * gain == -dx * 2 && dy * gain == dy * 2);
        self.translation.x = saturating_offset(self.translation.x, -dx * gain);
        self.translation.y = saturating_offset(self.translation.y, dy * gain);
    }

    /// Zooms by the last scroll value of one frame.
    pub fn zoom(&mut self, scroll: i64)
        ensures
            *final(self) == old(self).zoomed(scroll as int),
            final(self).translation == old(self).translation,
            scroll != 0 || old(self).scale_in_bounds() ==> final(self).scale_in_bounds(),
    {
        if scroll != 0 {
            let step: i64 = scroll / ZOOM_SENSITIVITY;
            let raw: i128 = self.scale.x as i128 - step as i128;
            let scale: i64 = if raw < MIN_SCALE as i128 {
                MIN_SCALE
            } else if raw > MAX_SCALE as i128 {
                MAX_SCALE
            } else {
                raw as i64
            };
            self.scale.x = scale;
            self.scale.y = scale;
        }
    }
}

/// Keyboard panning is linear in the scale: at `factor` times the scale the
/// same motion gives `factor` times the step. Doubling the scale doubles the
/// step.
pub proof fn lemma_keyboard_step_linear_in_scale(motion: (int, int), scale_x: int, factor: int)
    ensures
        keyboard_step(motion, factor * scale_x).0 == factor * keyboard_step(motion, scale_x).0,
        keyboard_step(motion, factor * scale_x).1 == factor * keyboard_step(motion, scale_x).1,
        keyboard_step(motion, 2 * scale_x).0 == 2 * keyboard_step(motion, scale_x).0,
        keyboard_step(motion, 2 * scale_x).1 == 2 * keyboard_step(motion, scale_x).1,
{
    let gain = KEYBOARD_SENSITIVITY as int;
    assert(motion.0 * gain * (factor * scale_x) == factor * (motion.0 * gain * scale_x))
        by (nonlinear_arith);
    assert(motion.1 * gain * (factor * scale_x) == factor * (motion.1 * gain * scale_x))
        by (nonlinear_arith);
    assert(motion.0 * gain * (2 * scale_x) == 2 * (motion.0 * gain * scale_x))
        by (nonlinear_arith);
    assert(motion.1 * gain * (2 * scale_x) == 2 * (motion.1 * gain * scale_x))
        by (nonlinear_arith);
}

/// The bounds of the scale are half a unit and four and a half units.
pub proof fn lemma_scale_bounds_in_units()
    ensures
        2 * MIN_SCALE == UNIT,
        2 * MAX_SCALE == 9 * UNIT,
        MIN_SCALE <= UNIT <= MAX_SCALE,
{
}

/// A motion of zero leaves the camera where it is, whatever its scale.
pub proof fn lemma_no_motion_no_keyboard_pan(camera: CameraTransform)
    ensures
        camera.keyboard_panned((0, 0)) == camera,
{
    let scale_x = camera.scale.x as int;
    assert(0 * KEYBOARD_SENSITIVITY * scale_x == 0) by (nonlinear_arith);
}

/// An accumulated pointer motion of exactly zero leaves the camera where it
/// is.
pub proof fn lemma_zero_total_no_mouse_pan(camera: CameraTransform)
    ensures
        camera.mouse_panned((0, 0)) == camera,
{
}

/// The mouse step inverts the horizontal axis and only that one: mirroring
/// the pointer motion sideways mirrors the step sideways, and the two steps
/// have the sign of the motion on the vertical axis and the opposite sign on
/// the horizontal one.
pub proof fn lemma_mouse_step_inverts_x_only(total: (int, int))
    ensures
        mouse_step(total).0 == -(MOUSE_SENSITIVITY * total.0),
        mouse_step(total).1 == MOUSE_SENSITIVITY * total.1,
        mouse_step((-total.0, total.1)) == (-mouse_step(total).0, mouse_step(total).1),
{
}

/// Neither kind of panning touches the scale.
pub proof fn lemma_panning_keeps_scale(camera: CameraTransform, motion: (int, int), total: (int, int))
    ensures
        camera.keyboard_panned(motion).scale == camera.scale,
        camera.mouse_panned(total).scale == camera.scale,
{
}

/// After a nonzero scroll value both scales are equal and lie within the
/// bounds, wherever they were before; zooming never touches the translation;
/// and scales that lie within the bounds stay there under any scroll value.
pub proof fn lemma_zoom_clamps_and_converges(camera: CameraTransform, scroll: int)
    ensures
        scroll != 0 ==> camera.zoomed(scroll).scale.x == camera.zoomed(scroll).scale.y,
        scroll != 0 ==> camera.zoomed(scroll).scale_in_bounds(),
        camera.scale_in_bounds() ==> camera.zoomed(scroll).scale_in_bounds(),
        camera.zoomed(scroll).translation == camera.translation,
{
}

/// The scale that a nonzero scroll value leaves is the horizontal scale less
/// the zoom step where that lies within the bounds, and the nearer bound where
/// it does not.
pub proof fn lemma_zoom_stops_at_bounds(scale_x: int, scroll: int)
    ensures
        scale_x - zoom_step(scroll) <= MIN_SCALE ==> zoomed_scale(scale_x, scroll) == MIN_SCALE,
        scale_x - zoom_step(scroll) >= MAX_SCALE ==> zoomed_scale(scale_x, scroll) == MAX_SCALE,
        MIN_SCALE <= scale_x - zoom_step(scroll) <= MAX_SCALE ==> zoomed_scale(scale_x, scroll)
            == scale_x - zoom_step(scroll),
{
}

} // verus!
