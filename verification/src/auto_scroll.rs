//! Automatic scrolling while a drag selection holds the pointer near an edge:
//! the speed ramps up with the distance into the edge zone, and a timer applies
//! it every frame until it is stopped.
use vstd::prelude::*;
use crate::geometry::{Bounds, Pixels, Point, COORD_LIMIT};

verus! {

/// The slowest automatic scroll, in pixels per frame.
pub const AUTO_SCROLL_MIN_SPEED: i64 = 12;
/// The fastest automatic scroll, in pixels per frame.
pub const AUTO_SCROLL_MAX_SPEED: i64 = 64;
/// How far inside the bounds the edge zone begins.
pub const AUTO_SCROLL_INNER_ZONE: i64 = 16;
/// How far beyond the bounds the speed keeps growing.
pub const AUTO_SCROLL_OUTER_RAMP: i64 = 80;
/// The interval of the scroll timer, in milliseconds (about sixty frames a second).
pub const AUTO_SCROLL_TICK_MS: u64 = 16;

/// The speed for a pointer `dist` pixels into the edge zone: from the slowest
/// speed at the zone's start up to the fastest one at the ramp's end, linearly,
/// in whole pixels rounded down.
pub open spec fn ramp_speed(dist: int) -> int {
    let ramp = AUTO_SCROLL_INNER_ZONE + AUTO_SCROLL_OUTER_RAMP;
    let d = if dist < ramp { dist } else { ramp as int };
    AUTO_SCROLL_MIN_SPEED + (d * (AUTO_SCROLL_MAX_SPEED - AUTO_SCROLL_MIN_SPEED)) / ramp
}

/// The scroll delta for a pointer at height `y` in `bounds`: positive (towards
/// the bottom) past the bottom trigger, negative past the top trigger, none
/// between them.
pub open spec fn compute_delta_spec(y: int, bounds: Bounds) -> Option<int> {
    let bottom_trigger = bounds.bottom_spec() - AUTO_SCROLL_INNER_ZONE;
    let top_trigger = bounds.top_spec() + AUTO_SCROLL_INNER_ZONE;
    if y > bottom_trigger {
        Some(ramp_speed(y - bottom_trigger))
    } else if y < top_trigger {
        Some(-ramp_speed(top_trigger - y))
    } else {
        None
    }
}

/// What the host does with the scroll timer after `AutoScroll::set`.
#[derive(Clone, Copy, Debug, PartialEq, Eq, Structural)]
pub enum TimerAction {
    /// Start the timer.
    Start,
    /// Keep the running timer; it picks up the new delta.
    Keep,
    /// Drop the timer.
    Stop,
}

/// The automatic-scroll state of a selectable view.
#[derive(Clone, Copy, Debug, PartialEq, Eq, Structural)]
pub struct AutoScroll {
    /// The delta applied every frame; positive is towards the bottom.
    pub delta: Option<Pixels>,
    /// Whether the host's timer runs.
    pub timer_running: bool,
    /// The last drag position, to extend the selection after each scroll.
    pub last_drag_position: Option<Point>,
}

fn ramp(dist: i64) -> (r: i64)
    requires
        0 < dist <= 4 * COORD_LIMIT,
    ensures
        r == ramp_speed(dist as int),
        AUTO_SCROLL_MIN_SPEED <= r <= AUTO_SCROLL_MAX_SPEED,
{
    let ramp = AUTO_SCROLL_INNER_ZONE + AUTO_SCROLL_OUTER_RAMP;
    let d = if dist < ramp { dist } else { ramp };
    assert(0 <= d * 52 <= 96 * 52) by (nonlinear_arith)
        requires
            0 <= d <= 96,
    ;
    assert((d * 52) / 96 <= 52) by (nonlinear_arith)
        requires
            0 <= d * 52 <= 96 * 52,
    ;
    AUTO_SCROLL_MIN_SPEED + (d * (AUTO_SCROLL_MAX_SPEED - AUTO_SCROLL_MIN_SPEED)) / ramp
}

impl AutoScroll {
    /// Idle: no delta, no timer, no drag position.
    pub fn new() -> (r: AutoScroll)
        ensures
            r == (AutoScroll { delta: None, timer_running: false, last_drag_position: None }),
    {
        AutoScroll { delta: None, timer_running: false, last_drag_position: None }
    }

    /// The current delta; positive is towards the bottom.
    pub fn delta(&self) -> (r: Option<Pixels>)
        ensures
            r == self.delta,
    {
        self.delta
    }

    /// The delta for a pointer at height `y` in `bounds`: near the bottom edge a
    /// positive speed, near the top a negative one, `None` in between. The edge
    /// zone starts 16 pixels inside the bounds and the speed grows from 12 to 64
    /// pixels per frame over the following 96 pixels.
    pub fn compute_delta(y: Pixels, bounds: Bounds) -> (r: Option<Pixels>)
        requires
            -COORD_LIMIT <= y.0 <= COORD_LIMIT,
            bounds.wf(),
        ensures
            match compute_delta_spec(y.0 as int, bounds) {
                Some(d) => r == Some(Pixels(d as i64)),
                None => r is None,
            },
            r matches Some(d) ==> AUTO_SCROLL_MIN_SPEED <= (if d.0 < 0 { -d.0 } else { d.0 as int }) <= AUTO_SCROLL_MAX_SPEED,
    {
        let bottom_trigger = bounds.bottom() - AUTO_SCROLL_INNER_ZONE;
        let top_trigger = bounds.top() + AUTO_SCROLL_INNER_ZONE;
        if y.0 > bottom_trigger {
            Some(Pixels(ramp(y.0 - bottom_trigger)))
        } else if y.0 < top_trigger {
            Some(Pixels(-ramp(top_trigger - y.0)))
        } else {
            None
        }
    }

    /// Sets the delta. With no delta the timer stops; otherwise an idle timer
    /// starts and a running one keeps going with the new delta.
    pub fn set(&mut self, delta: Option<Pixels>) -> (r: TimerAction)
        ensures
            final(self).delta == delta,
            final(self).last_drag_position == old(self).last_drag_position,
            delta is None ==> r == TimerAction::Stop && !final(self).timer_running,
            delta is Some && !old(self).timer_running ==> r == TimerAction::Start && final(self).timer_running,
            delta is Some && old(self).timer_running ==> r == TimerAction::Keep && final(self).timer_running,
    {
        let was_idle = !self.timer_running;
        self.delta = delta;
        if delta.is_none() {
            self.timer_running = false;
            return TimerAction::Stop;
        }
        if was_idle {
            self.timer_running = true;
            TimerAction::Start
        } else {
            TimerAction::Keep
        }
    }

    /// A timer tick: the delta to scroll by, or `None` when the timer should end.
    pub fn tick(&self) -> (r: Option<Pixels>)
        ensures
            r == self.delta,
    {
        self.delta
    }

    /// Whether automatic scrolling is active.
    pub fn is_active(&self) -> (r: bool)
        ensures
            r == (self.delta is Some),
    {
        self.delta.is_some()
    }

    /// Stops scrolling and forgets the drag position.
    pub fn stop(&mut self)
        ensures
            *final(self) == AutoScroll::idle(),
    {
        self.delta = None;
        self.timer_running = false;
        self.last_drag_position = None;
    }

    pub open spec fn idle() -> AutoScroll {
        AutoScroll { delta: None, timer_running: false, last_drag_position: None }
    }
}

/// Deeper into the edge zone is never slower.
pub proof fn lemma_ramp_monotonic(a: int, b: int)
    requires
        0 <= a <= b,
    ensures
        ramp_speed(a) <= ramp_speed(b),
{
    let ramp = AUTO_SCROLL_INNER_ZONE + AUTO_SCROLL_OUTER_RAMP;
    let da = if a < ramp { a } else { ramp as int };
    let db = if b < ramp { b } else { ramp as int };
    assert(da <= db);
    assert((da * 52) / 96 <= (db * 52) / 96) by (nonlinear_arith)
        requires
            0 <= da <= db,
    ;
}

} // verus!
