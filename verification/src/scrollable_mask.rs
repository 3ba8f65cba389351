//! The scroll-wheel mask of nested scrollers: a layer over a scroll viewport that
//! takes wheel turns along its own axis and lets the others go to the parent.
use vstd::prelude::*;
use crate::element::ElementId;
use crate::geometry::{Axis, Pixels, Point, COORD_LIMIT};
use crate::scroll_handle::{ScrollHandle, ScrollHandleView, offset_ok, OFFSET_LIMIT};

verus! {

/// A wheel mask.
#[derive(Clone, Debug)]
pub struct ScrollableMask {
    pub axis: Axis,
    pub id: ElementId,
    /// Whether the mask's bounds are outlined.
    pub debug: bool,
}

/// What a wheel turn does.
#[derive(Clone, Copy, Debug, PartialEq, Eq, Structural)]
pub enum WheelOutcome {
    /// The mask does not handle it: not in the capture phase, or not the topmost hit.
    Ignored,
    /// The turn goes on to the parent scroller.
    Bubble,
    /// The turn scrolls to this offset, and propagation stops.
    Consume(Point),
}

/// `|v|`.
pub open spec fn abs_spec(v: int) -> int {
    if v < 0 { -v } else { v }
}

/// The delta restricted to its dominant axis: when both components are non-zero
/// the smaller one (the vertical one on a tie) is dropped.
pub open spec fn dominant_delta(dx: int, dy: int) -> (int, int) {
    if dx != 0 && dy != 0 {
        if abs_spec(dx) > abs_spec(dy) { (dx, 0) } else { (0, dy) }
    } else {
        (dx, dy)
    }
}

/// What a wheel turn with `delta` does to a scroller at `offset` with largest
/// offset `max_offset`: vertically the offset (itself clamped first) moves within
/// `[-max, 0]` and the turn bubbles when it cannot move; horizontally the offset
/// moves without clamping and any move is consumed.
pub open spec fn wheel_spec(
    horizontal: bool,
    handles: bool,
    offset: Point,
    max_offset: Point,
    dx: int,
    dy: int,
) -> WheelOutcome {
    if !handles {
        WheelOutcome::Ignored
    } else {
        let (ddx, ddy) = dominant_delta(dx, dy);
        if !horizontal {
            let axis_max = if max_offset.y.0 > 0 { max_offset.y.0 as int } else { 0 };
            let current = clamp_to(offset.y.0 as int, -axis_max, 0);
            let new_y = clamp_to(current + ddy, -axis_max, 0);
            if new_y == current {
                WheelOutcome::Bubble
            } else {
                WheelOutcome::Consume(Point { x: offset.x, y: Pixels(new_y as i64) })
            }
        } else if ddx == 0 {
            WheelOutcome::Bubble
        } else {
            WheelOutcome::Consume(Point { x: Pixels((offset.x.0 + ddx) as i64), y: offset.y })
        }
    }
}

/// `v` clamped into `[lo, hi]`.
pub open spec fn clamp_to(v: int, lo: int, hi: int) -> int {
    if v < lo { lo } else if v > hi { hi } else { v }
}

fn clamp_i64(v: i64, lo: i64, hi: i64) -> (r: i64)
    requires
        lo <= hi,
    ensures
        r == clamp_to(v as int, lo as int, hi as int),
{
    if v < lo { lo } else if v > hi { hi } else { v }
}

impl ScrollableMask {
    /// A mask taking wheel turns along `axis`, identified by `id`.
    pub fn new(axis: Axis, id: ElementId) -> (r: ScrollableMask)
        ensures
            r.axis == axis,
            r.id == id,
            !r.debug,
    {
        ScrollableMask { axis, id, debug: false }
    }

    /// Sets the identifier; masks on the same axis share their gesture lock by it.
    pub fn id(self, id: ElementId) -> (r: ScrollableMask)
        ensures
            r.axis == self.axis,
            r.id == id,
            r.debug == self.debug,
    {
        ScrollableMask { id, ..self }
    }

    /// Outlines the mask's bounds.
    pub fn debug(self) -> (r: ScrollableMask)
        ensures
            r.axis == self.axis,
            r.id == self.id,
            r.debug,
    {
        ScrollableMask { debug: true, ..self }
    }

    /// The axis suffix of the mask's element identifier, which tells the two
    /// masks of one scroller apart.
    pub fn axis_suffix(&self) -> (r: &'static str)
        ensures
            self.axis == Axis::Horizontal ==> r@ == "horizontal"@,
            self.axis == Axis::Vertical ==> r@ == "vertical"@,
    {
        match self.axis {
            Axis::Horizontal => "horizontal",
            Axis::Vertical => "vertical",
        }
    }

    /// Handles a wheel turn of `delta` pixels (after the gesture's axis lock):
    /// `handles` says whether it is the capture phase and the mask is the topmost
    /// hit. A consumed turn moves the handle's offset.
    pub fn handle_wheel(&self, handle: &mut ScrollHandle, handles: bool, delta: Point) -> (r: WheelOutcome)
        requires
            -COORD_LIMIT <= delta.x.0 <= COORD_LIMIT,
            -COORD_LIMIT <= delta.y.0 <= COORD_LIMIT,
            self.axis == Axis::Horizontal ==> offset_ok(old(handle)@.offset.x.0 + delta.x.0),
        ensures
            r == wheel_spec(
                self.axis == Axis::Horizontal,
                handles,
                old(handle)@.offset,
                old(handle)@.max_offset,
                delta.x.0 as int,
                delta.y.0 as int,
            ),
            r matches WheelOutcome::Consume(p) ==> final(handle)@ == (ScrollHandleView { offset: p, ..old(handle)@ }),
            !(r is Consume) ==> final(handle)@ == old(handle)@,
    {
        if !handles {
            return WheelOutcome::Ignored;
        }
        let mut offset = handle.offset();
        let max_offset = handle.max_offset();
        let mut dx = delta.x.0;
        let mut dy = delta.y.0;
        if dx != 0 && dy != 0 {
            let ax = if dx < 0 { -dx } else { dx };
            let ay = if dy < 0 { -dy } else { dy };
            if ax > ay {
                dy = 0;
            } else {
                dx = 0;
            }
        }
        match self.axis {
            Axis::Vertical => {
                let axis_max = if max_offset.y.0 > 0 { max_offset.y.0 } else { 0 };
                let current = clamp_i64(offset.y.0, -axis_max, 0);
                let new_y = clamp_i64(current + dy, -axis_max, 0);
                if new_y == current {
                    return WheelOutcome::Bubble;
                }
                offset.y = Pixels(new_y);
                handle.set_offset(offset);
                WheelOutcome::Consume(offset)
            },
            Axis::Horizontal => {
                if dx == 0 {
                    return WheelOutcome::Bubble;
                }
                offset.x = Pixels(offset.x.0 + dx);
                handle.set_offset(offset);
                WheelOutcome::Consume(offset)
            },
        }
    }
}

/// A vertical mask never scrolls past the scroller's range: a consumed turn
/// leaves the offset within `[-max(max_offset, 0), 0]`.
pub proof fn lemma_vertical_wheel_stays_in_range(offset: Point, max_offset: Point, dx: int, dy: int, p: Point)
    requires
        wheel_spec(false, true, offset, max_offset, dx, dy) == WheelOutcome::Consume(p),
        -OFFSET_LIMIT <= max_offset.y.0,
    ensures
        -(if max_offset.y.0 > 0 { max_offset.y.0 as int } else { 0 }) <= p.y.0 <= 0,
        p.x == offset.x,
{
}

/// At its edge a vertical mask hands the turn to the parent: a turn that pushes
/// further past the edge bubbles.
pub proof fn lemma_vertical_edge_bubbles(offset: Point, max_offset: Point, dy: int)
    requires
        max_offset.y.0 >= 0,
        offset.y.0 == -max_offset.y.0,
        dy < 0,
    ensures
        wheel_spec(false, true, offset, max_offset, 0, dy) == WheelOutcome::Bubble,
{
}

/// A wheel turn that is mostly horizontal does not move a vertical mask.
pub proof fn lemma_horizontal_dominant_bubbles_vertically(offset: Point, max_offset: Point, dx: int, dy: int)
    requires
        dy != 0,
        abs_spec(dx) > abs_spec(dy),
    ensures
        wheel_spec(false, true, offset, max_offset, dx, dy) == WheelOutcome::Bubble,
{
}

} // verus!
