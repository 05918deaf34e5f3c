//! The pointer events that wait to be read, and the two ways of reading them.
//!
//! The input backend appends what arrived since the last frame. A read takes
//! everything that waits and leaves the queue empty, so that no event is
//! counted twice.

use crate::camera::{MotionTotal, Vector2};
use vstd::prelude::*;

verus! {

/// The pointer moved by `delta`.
#[derive(Clone, Copy, Debug, PartialEq, Eq, Structural)]
pub struct MotionEvent {
    pub delta: Vector2,
}

/// The wheel was turned: `x` units sideways and `y` units up or down.
#[derive(Clone, Copy, Debug, PartialEq, Eq, Structural)]
pub struct WheelEvent {
    pub x: i64,
    pub y: i64,
}

/// The events that no frame has read yet, oldest first.
pub struct State {
    pub mouse_motion_events: Vec<MotionEvent>,
    pub mouse_scroll_events: Vec<WheelEvent>,
}

impl Default for State {
    /// A state in which no event waits.
    fn default() -> (state: State)
        ensures
            state.mouse_motion_events@.len() == 0,
            state.mouse_scroll_events@.len() == 0,
    {
        State { mouse_motion_events: Vec::new(), mouse_scroll_events: Vec::new() }
    }
}

/// The exact sum of the motions in a batch of events, axis by axis.
pub open spec fn motion_total(events: Seq<MotionEvent>) -> (int, int)
    decreases events.len(),
{
    if events.len() == 0 {
        (0, 0)
    } else {
        let earlier = motion_total(events.drop_last());
        (earlier.0 + events.last().delta.x, earlier.1 + events.last().delta.y)
    }
}

/// The scroll value that a batch of events zooms by: the vertical value of
/// its last event, and zero for an empty batch. Earlier events do not count.
pub open spec fn last_scroll(events: Seq<WheelEvent>) -> int {
    if events.len() == 0 {
        0
    } else {
        events.last().y as int
    }
}

/// One more event adds its motion to the total, and a batch of one event has
/// that event's motion as its total.
pub proof fn lemma_motion_total_push(events: Seq<MotionEvent>, event: MotionEvent)
    ensures
        motion_total(events.push(event)) == (
            motion_total(events).0 + event.delta.x,
            motion_total(events).1 + event.delta.y,
        ),
        motion_total(seq![event]) == (event.delta.x as int, event.delta.y as int),
{
    assert(events.push(event).drop_last() == events);
    let one = seq![event];
    assert(one.last() == event);
    assert(motion_total(one.drop_last()) == (0int, 0int));
}

/// Each coordinate of a batch's total is at most the batch's length times the
/// largest magnitude that one event can have.
pub proof fn lemma_motion_total_bounds(events: Seq<MotionEvent>)
    ensures
        -(events.len() * 0x8000_0000_0000_0000) <= motion_total(events).0 <= events.len()
            * 0x8000_0000_0000_0000,
        -(events.len() * 0x8000_0000_0000_0000) <= motion_total(events).1 <= events.len()
            * 0x8000_0000_0000_0000,
    decreases events.len(),
{
    if events.len() > 0 {
        lemma_motion_total_bounds(events.drop_last());
    }
}

impl State {
    /// Reads the pointer motion: sums all motion events that wait and leaves
    /// none waiting. The scroll events are not touched.
    pub fn read_mouse_motion(&mut self) -> (total: MotionTotal)
        ensures
            (total.dx as int, total.dy as int) == motion_total(old(self).mouse_motion_events@),
            final(self).mouse_motion_events@.len() == 0,
            final(self).mouse_scroll_events@ == old(self).mouse_scroll_events@,
    {
        let mut dx: i128 = 0;
        let mut dy: i128 = 0;
        let n: usize = self.mouse_motion_events.len();
        let mut i: usize = 0;
        while i < n
            invariant
                i <= n,
                n == self.mouse_motion_events@.len(),
                self.mouse_motion_events@ == old(self).mouse_motion_events@,
                self.mouse_scroll_events@ == old(self).mouse_scroll_events@,
                (dx as int, dy as int) == motion_total(self.mouse_motion_events@.take(i as int)),
            decreases n - i,
        {
            let event: MotionEvent = self.mouse_motion_events[i];
            proof {
                let seen = self.mouse_motion_events@.take(i as int);
                let next = self.mouse_motion_events@.take(i + 1);
                assert(next.drop_last() == seen);
                assert(next.last() == event);
                lemma_motion_total_bounds(seen);
            }
            dx = dx + event.delta.x as i128;
            dy = dy + event.delta.y as i128;
            i = i + 1;
        }
        proof {
            assert(self.mouse_motion_events@.take(n as int) == self.mouse_motion_events@);
        }
        self.mouse_motion_events.clear();
        MotionTotal { dx, dy }
    }

    /// Reads the scroll wheel: returns the vertical value of the last scroll
    /// event that waits, or zero if none waits, and leaves none waiting. The
    /// motion events are not touched.
    pub fn read_mouse_scroll(&mut self) -> (scroll: i64)
        ensures
            scroll == last_scroll(old(self).mouse_scroll_events@),
            final(self).mouse_scroll_events@.len() == 0,
            final(self).mouse_motion_events@ == old(self).mouse_motion_events@,
    {
        let mut scroll: i64 = 0;
        let n: usize = self.mouse_scroll_events.len();
        let mut i: usize = 0;
        while i < n
            invariant
                i <= n,
                n == self.mouse_scroll_events@.len(),
                self.mouse_scroll_events@ == old(self).mouse_scroll_events@,
                self.mouse_motion_events@ == old(self).mouse_motion_events@,
                scroll == last_scroll(self.mouse_scroll_events@.take(i as int)),
            decreases n - i,
        {
            scroll = self.mouse_scroll_events[i].y;
            i = i + 1;
        }
        proof {
            assert(self.mouse_scroll_events@.take(n as int) == self.mouse_scroll_events@);
        }
        self.mouse_scroll_events.clear();
        scroll
    }
}

} // verus!
