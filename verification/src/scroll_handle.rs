//! The scrollable aspect of an element: its scroll offset, the bounds that its
//! children were laid out in, and requests to bring a child into view.
use vstd::prelude::*;
use crate::geometry::{AxisOverflow, Bounds, Overflow, Pixels, Point, Size, Edges, COORD_LIMIT, coord_ok};

verus! {

/// Largest magnitude of a stored scroll offset coordinate.
pub const OFFSET_LIMIT: i64 = 4_398_046_511_104;

/// A value that may be stored as a scroll offset coordinate.
pub open spec fn offset_ok(v: int) -> bool {
    -OFFSET_LIMIT <= v <= OFFSET_LIMIT
}

/// Both coordinates of `p` may be stored as a scroll offset.
pub open spec fn point_offset_ok(p: Point) -> bool {
    offset_ok(p.x.0 as int) && offset_ok(p.y.0 as int)
}

/// How a requested child is brought into view.
#[derive(Clone, Copy, Debug, PartialEq, Eq, Structural)]
pub enum ScrollStrategy {
    /// Scroll as little as possible so that the child is fully visible.
    FirstVisible,
    /// Scroll so that the child's top edge is the viewport's top edge.
    Top,
}

/// A child that should be brought into view at the next layout.
#[derive(Clone, Copy, Debug, PartialEq, Eq, Structural)]
pub struct ScrollActiveItem {
    pub index: usize,
    pub strategy: ScrollStrategy,
}

/// The abstract state of a [`ScrollHandle`].
pub ghost struct ScrollHandleView {
    pub offset: Point,
    pub bounds: Bounds,
    pub max_offset: Point,
    pub child_bounds: Seq<Bounds>,
    pub scroll_to_bottom: bool,
    pub overflow: AxisOverflow,
    pub active_item: Option<ScrollActiveItem>,
}

/// Where `y` lies relative to `b` along the vertical axis: `-1` below its bottom
/// edge, `1` above its top edge, `0` within it.
pub open spec fn vertical_order(y: int, b: Bounds) -> int {
    if y < b.top_spec() {
        1
    } else if y > b.bottom_spec() {
        -1
    } else {
        0
    }
}

/// The children are ordered along the vertical axis as seen from `y`.
pub open spec fn sorted_for(children: Seq<Bounds>, y: int) -> bool {
    forall|i: int, j: int|
        0 <= i < j < children.len() ==> vertical_order(y, #[trigger] children[i]) <= vertical_order(
            y,
            #[trigger] children[j],
        )
}

/// Where a binary search for the height `y` over the children in `[lo, hi)`
/// ends: at a child containing `y` that it probes, or, when the range runs out,
/// at `lo` kept within the children (0 when there are none).
pub open spec fn search_from(cs: Seq<Bounds>, y: int, lo: int, hi: int) -> int
    decreases hi - lo,
{
    if lo < hi {
        let mid = lo + (hi - lo) / 2;
        if vertical_order(y, cs[mid]) == 1 {
            search_from(cs, y, lo, mid)
        } else if vertical_order(y, cs[mid]) == -1 {
            search_from(cs, y, mid + 1, hi)
        } else {
            mid
        }
    } else if cs.len() == 0 {
        0
    } else if lo < cs.len() - 1 {
        lo
    } else {
        cs.len() - 1
    }
}

/// The index of the child at the top of the view of `v`.
pub open spec fn top_index(v: ScrollHandleView) -> int {
    search_from(v.child_bounds, v.bounds.top_spec() - v.offset.y.0, 0, v.child_bounds.len() as int)
}

/// The index of the child at the bottom of the view of `v`.
pub open spec fn bottom_index(v: ScrollHandleView) -> int {
    search_from(v.child_bounds, v.bounds.bottom_spec() - v.offset.y.0, 0, v.child_bounds.len() as int)
}

/// The index of the child found at height `y`, as a binary search over the
/// children reports it: any child that contains `y` when there is one, the
/// position where `y` would be inserted otherwise, never past the last child.
pub open spec fn search_result_ok(children: Seq<Bounds>, y: int, r: int) -> bool {
    &&& children.len() == 0 ==> r == 0
    &&& children.len() > 0 ==> 0 <= r < children.len()
    &&& (sorted_for(children, y) && children.len() > 0) ==> {
        if exists|i: int| 0 <= i < children.len() && vertical_order(y, #[trigger] children[i]) == 0 {
            vertical_order(y, children[r]) == 0
        } else {
            &&& forall|i: int| 0 <= i < r ==> vertical_order(y, #[trigger] children[i]) == -1
            &&& vertical_order(y, children[r]) == 1 || (r == children.len() - 1 && vertical_order(
                y,
                children[r],
            ) == -1)
        }
    }
}

/// The offset coordinate that brings a child spanning `[child_start, child_end)`
/// into a viewport spanning `[view_start, view_end)` with the fewest pixels moved,
/// aligning a child larger than the viewport to its start edge.
pub open spec fn reveal_offset(
    child_start: int,
    child_end: int,
    view_start: int,
    view_end: int,
    current: int,
) -> int {
    if child_end - child_start > view_end - view_start {
        view_start - child_start
    } else if child_start + current < view_start {
        view_start - child_start
    } else if child_end + current > view_end {
        view_end - child_end
    } else {
        current
    }
}

/// The offset after the active item has been scrolled to, for a child at `c`.
pub open spec fn active_item_offset(v: ScrollHandleView, item: ScrollActiveItem, c: Bounds) -> Point {
    let y = match item.strategy {
        ScrollStrategy::FirstVisible => if v.overflow.y == Overflow::Scroll {
            reveal_offset(
                c.top_spec(),
                c.bottom_spec(),
                v.bounds.top_spec(),
                v.bounds.bottom_spec(),
                v.offset.y.0 as int,
            )
        } else {
            v.offset.y.0 as int
        },
        ScrollStrategy::Top => v.bounds.top_spec() - c.top_spec(),
    };
    let x = if v.overflow.x == Overflow::Scroll {
        reveal_offset(
            c.left_spec(),
            c.right_spec(),
            v.bounds.left_spec(),
            v.bounds.right_spec(),
            v.offset.x.0 as int,
        )
    } else {
        v.offset.x.0 as int
    };
    Point { x: Pixels(x as i64), y: Pixels(y as i64) }
}

/// The state after the active item, if any, has been scrolled to: a request for a
/// child that exists is carried out and dropped; one for a missing child waits.
pub open spec fn scroll_to_active_item_spec(v: ScrollHandleView) -> ScrollHandleView {
    match v.active_item {
        None => v,
        Some(item) => if item.index < v.child_bounds.len() {
            ScrollHandleView {
                offset: active_item_offset(v, item, v.child_bounds[item.index as int]),
                active_item: None,
                ..v
            }
        } else {
            v
        },
    }
}

/// The largest scroll distance along one axis: how far the padded content
/// exceeds the viewport, and never less than zero.
pub open spec fn scroll_max_spec(content: int, padding: int, viewport: int) -> int {
    if content + padding - viewport > 0 {
        content + padding - viewport
    } else {
        0
    }
}

/// `v` clamped into `[lo, hi]`, assuming `lo <= hi`.
pub open spec fn clamp_spec(v: int, lo: int, hi: int) -> int {
    if v < lo {
        lo
    } else if v > hi {
        hi
    } else {
        v
    }
}

/// A handle to the scrollable aspect of an element, used to read the scroll state
/// (such as the current offset) and to change it (such as scrolling to a child).
pub struct ScrollHandle {
    offset: Point,
    bounds: Bounds,
    max_offset: Point,
    child_bounds: Vec<Bounds>,
    scroll_to_bottom: bool,
    overflow: AxisOverflow,
    active_item: Option<ScrollActiveItem>,
}

impl View for ScrollHandle {
    type V = ScrollHandleView;

    closed spec fn view(&self) -> ScrollHandleView {
        ScrollHandleView {
            offset: self.offset,
            bounds: self.bounds,
            max_offset: self.max_offset,
            child_bounds: self.child_bounds@,
            scroll_to_bottom: self.scroll_to_bottom,
            overflow: self.overflow,
            active_item: self.active_item,
        }
    }
}

/// Every stored coordinate of a handle's state is within range.
pub open spec fn handle_view_wf(v: ScrollHandleView) -> bool {
    &&& point_offset_ok(v.offset)
    &&& point_offset_ok(v.max_offset)
    &&& v.max_offset.x.0 >= 0
    &&& v.max_offset.y.0 >= 0
    &&& v.bounds.wf()
    &&& forall|i: int| 0 <= i < v.child_bounds.len() ==> (#[trigger] v.child_bounds[i]).wf()
}

impl ScrollHandle {
    #[verifier::type_invariant]
    closed spec fn inv(self) -> bool {
        handle_view_wf(self@)
    }

    /// A new handle: no offset, no children, nothing requested.
    pub fn new() -> (r: ScrollHandle)
        ensures
            r@.offset == (Point { x: Pixels(0), y: Pixels(0) }),
            r@.bounds == (Bounds {
                origin: Point { x: Pixels(0), y: Pixels(0) },
                size: Size { width: Pixels(0), height: Pixels(0) },
            }),
            r@.max_offset == (Point { x: Pixels(0), y: Pixels(0) }),
            r@.child_bounds.len() == 0,
            !r@.scroll_to_bottom,
            r@.overflow == (AxisOverflow { x: Overflow::Visible, y: Overflow::Visible }),
            (r@.active_item is None),
    {
        let zero = Point { x: Pixels(0), y: Pixels(0) };
        ScrollHandle {
            offset: zero,
            bounds: Bounds { origin: zero, size: Size { width: Pixels(0), height: Pixels(0) } },
            max_offset: zero,
            child_bounds: Vec::new(),
            scroll_to_bottom: false,
            overflow: AxisOverflow { x: Overflow::Visible, y: Overflow::Visible },
            active_item: None,
        }
    }

    /// The current scroll offset.
    pub fn offset(&self) -> (r: Point)
        ensures
            r == self@.offset,
            point_offset_ok(r),
    {
        proof {
            use_type_invariant(self);
        }
        self.offset
    }

    /// The largest scroll offset.
    pub fn max_offset(&self) -> (r: Point)
        ensures
            r == self@.max_offset,
            point_offset_ok(r),
            r.x.0 >= 0,
            r.y.0 >= 0,
    {
        proof {
            use_type_invariant(self);
        }
        self.max_offset
    }

    /// The bounds that the scrolled element was drawn in.
    pub fn bounds(&self) -> (r: Bounds)
        ensures
            r == self@.bounds,
            r.wf(),
    {
        proof {
            use_type_invariant(self);
        }
        self.bounds
    }

    /// The bounds of the child at `ix`, if there is one.
    pub fn bounds_for_item(&self, ix: usize) -> (r: Option<Bounds>)
        ensures
            ix < self@.child_bounds.len() ==> r == Some(self@.child_bounds[ix as int]),
            ix >= self@.child_bounds.len() ==> (r is None),
    {
        if ix < self.child_bounds.len() {
            Some(self.child_bounds[ix])
        } else {
            None
        }
    }

    /// The number of children of the scrollable element.
    pub fn children_count(&self) -> (r: usize)
        ensures
            r == self@.child_bounds.len(),
    {
        self.child_bounds.len()
    }

    /// Searches the children for the height `y` in the manner of a binary search.
    fn search_children(&self, y: i64) -> (r: usize)
        requires
            -7 * COORD_LIMIT <= y <= 7 * COORD_LIMIT,
        ensures
            search_result_ok(self@.child_bounds, y as int, r as int),
            r == search_from(self@.child_bounds, y as int, 0, self@.child_bounds.len() as int),
    {
        proof {
            use_type_invariant(self);
        }
        let len = self.child_bounds.len();
        let ghost cs = self@.child_bounds;
        let mut lo: usize = 0;
        let mut hi: usize = len;
        while lo < hi
            invariant
                0 <= lo <= hi <= len,
                len == cs.len(),
                cs == self@.child_bounds,
                forall|i: int| 0 <= i < cs.len() ==> (#[trigger] cs[i]).wf(),
                -7 * COORD_LIMIT <= y <= 7 * COORD_LIMIT,
                sorted_for(cs, y as int) ==> forall|i: int|
                    0 <= i < lo ==> vertical_order(y as int, #[trigger] cs[i]) == -1,
                sorted_for(cs, y as int) ==> forall|i: int|
                    hi <= i < len ==> vertical_order(y as int, #[trigger] cs[i]) == 1,
                search_from(cs, y as int, lo as int, hi as int) == search_from(cs, y as int, 0, len as int),
            decreases hi - lo,
        {
            let mid = lo + (hi - lo) / 2;
            let b = self.child_bounds[mid];
            assert(b.wf());
            if y < b.top() {
                proof {
                    if sorted_for(cs, y as int) {
                        assert forall|i: int| mid <= i < len implies vertical_order(
                            y as int,
                            #[trigger] cs[i],
                        ) == 1 by {
                            if i > mid {
                                assert(vertical_order(y as int, cs[mid as int]) <= vertical_order(
                                    y as int,
                                    cs[i],
                                ));
                            }
                        }
                    }
                }
                hi = mid;
            } else if y > b.bottom() {
                proof {
                    if sorted_for(cs, y as int) {
                        assert forall|i: int| 0 <= i <= mid implies vertical_order(
                            y as int,
                            #[trigger] cs[i],
                        ) == -1 by {
                            if i < mid {
                                assert(vertical_order(y as int, cs[i]) <= vertical_order(
                                    y as int,
                                    cs[mid as int],
                                ));
                            }
                        }
                    }
                }
                lo = mid + 1;
            } else {
                return mid;
            }
        }
        proof {
            if sorted_for(cs, y as int) && len > 0 {
                assert forall|i: int| 0 <= i < len implies vertical_order(
                    y as int,
                    #[trigger] cs[i],
                ) != 0 by {
                    if i < lo {
                    } else {
                    }
                }
            }
        }
        if len == 0 {
            0
        } else if lo < len - 1 {
            lo
        } else {
            len - 1
        }
    }

    /// The index of the child scrolled to the top of the view.
    pub fn top_item(&self) -> (r: usize)
        ensures
            r == top_index(self@),
            search_result_ok(
                self@.child_bounds,
                self@.bounds.top_spec() - self@.offset.y.0,
                r as int,
            ),
    {
        proof {
            use_type_invariant(self);
        }
        let top = self.bounds.top() - self.offset.y.0;
        self.search_children(top)
    }

    /// The index of the child scrolled to the bottom of the view.
    pub fn bottom_item(&self) -> (r: usize)
        ensures
            r == bottom_index(self@),
            search_result_ok(
                self@.child_bounds,
                self@.bounds.bottom_spec() - self@.offset.y.0,
                r as int,
            ),
    {
        proof {
            use_type_invariant(self);
        }
        let bottom = self.bounds.bottom() - self.offset.y.0;
        self.search_children(bottom)
    }

    /// Asks for the child at `ix` to be scrolled fully into view at the next layout.
    pub fn scroll_to_item(&mut self, ix: usize)
        ensures
            final(self)@ == (ScrollHandleView {
                active_item: Some(ScrollActiveItem { index: ix, strategy: ScrollStrategy::FirstVisible }),
                ..old(self)@
            }),
    {
        proof {
            use_type_invariant(&*self);
        }
        self.active_item = Some(ScrollActiveItem { index: ix, strategy: ScrollStrategy::FirstVisible });
    }

    /// Asks for the child at `ix` to be scrolled to the top of the view at the next layout.
    pub fn scroll_to_top_of_item(&mut self, ix: usize)
        ensures
            final(self)@ == (ScrollHandleView {
                active_item: Some(ScrollActiveItem { index: ix, strategy: ScrollStrategy::Top }),
                ..old(self)@
            }),
    {
        proof {
            use_type_invariant(&*self);
        }
        self.active_item = Some(ScrollActiveItem { index: ix, strategy: ScrollStrategy::Top });
    }

    /// The offset coordinate that reveals `[cs, ce)` in `[vs, ve)`.
    fn reveal_coord(cs: i64, ce: i64, vs: i64, ve: i64, current: i64) -> (r: i64)
        requires
            coord_ok(cs as int),
            coord_ok(vs as int),
            -2 * COORD_LIMIT <= ce <= 2 * COORD_LIMIT,
            -2 * COORD_LIMIT <= ve <= 2 * COORD_LIMIT,
            offset_ok(current as int),
        ensures
            r == reveal_offset(cs as int, ce as int, vs as int, ve as int, current as int),
            offset_ok(r as int),
    {
        if ce - cs > ve - vs {
            vs - cs
        } else if cs + current < vs {
            vs - cs
        } else if ce + current > ve {
            ve - ce
        } else {
            current
        }
    }

    /// Scrolls the smallest amount that makes the requested child fully visible,
    /// or puts its top at the top of the view, as the request asks; a request for
    /// a child that does not exist yet is kept for a later layout.
    pub fn scroll_to_active_item(&mut self)
        ensures
            final(self)@ == scroll_to_active_item_spec(old(self)@),
    {
        proof {
            use_type_invariant(&*self);
        }
        let item = match self.active_item {
            None => {
                return;
            },
            Some(item) => item,
        };
        if item.index >= self.child_bounds.len() {
            return;
        }
        let c = self.child_bounds[item.index];
        assert(c.wf());
        let b = self.bounds;
        let y = match item.strategy {
            ScrollStrategy::FirstVisible => {
                if self.overflow.y == Overflow::Scroll {
                    Self::reveal_coord(c.top(), c.bottom(), b.top(), b.bottom(), self.offset.y.0)
                } else {
                    self.offset.y.0
                }
            },
            ScrollStrategy::Top => b.top() - c.top(),
        };
        let x = if self.overflow.x == Overflow::Scroll {
            Self::reveal_coord(c.left(), c.right(), b.left(), b.right(), self.offset.x.0)
        } else {
            self.offset.x.0
        };
        self.offset = Point { x: Pixels(x), y: Pixels(y) };
        self.active_item = None;
    }

    /// Asks for the view to be scrolled to the bottom at the next layout.
    pub fn scroll_to_bottom(&mut self)
        ensures
            final(self)@ == (ScrollHandleView { scroll_to_bottom: true, ..old(self)@ }),
    {
        proof {
            use_type_invariant(&*self);
        }
        self.scroll_to_bottom = true;
    }

    /// Sets the offset: the distance from the top-left corner of the parent to
    /// that of the first child, which grows more negative as one scrolls down.
    pub fn set_offset(&mut self, position: Point)
        requires
            point_offset_ok(position),
        ensures
            final(self)@ == (ScrollHandleView { offset: position, ..old(self)@ }),
    {
        proof {
            use_type_invariant(&*self);
        }
        self.offset = position;
    }

    /// The logical scroll top: the child at the top of the view and how far the
    /// view's top edge lies below that child's top edge.
    pub fn logical_scroll_top(&self) -> (r: (usize, Pixels))
        ensures
            r.0 == top_index(self@),
            search_result_ok(
                self@.child_bounds,
                self@.bounds.top_spec() - self@.offset.y.0,
                r.0 as int,
            ),
            r.0 < self@.child_bounds.len() ==> r.1.0 == self@.child_bounds[r.0 as int].top_spec()
                + self@.offset.y.0 - self@.bounds.top_spec(),
            r.0 >= self@.child_bounds.len() ==> r.1.0 == 0,
    {
        proof {
            use_type_invariant(self);
        }
        let ix = self.top_item();
        if ix < self.child_bounds.len() {
            let c = self.child_bounds[ix];
            (ix, Pixels(c.top() + self.offset.y.0 - self.bounds.top()))
        } else {
            (ix, Pixels(0))
        }
    }

    /// The logical scroll bottom: the child at the bottom of the view and how far
    /// the view's bottom edge lies above that child's bottom edge.
    pub fn logical_scroll_bottom(&self) -> (r: (usize, Pixels))
        ensures
            r.0 == bottom_index(self@),
            search_result_ok(
                self@.child_bounds,
                self@.bounds.bottom_spec() - self@.offset.y.0,
                r.0 as int,
            ),
            r.0 < self@.child_bounds.len() ==> r.1.0 == self@.child_bounds[r.0 as int].bottom_spec()
                + self@.offset.y.0 - self@.bounds.bottom_spec(),
            r.0 >= self@.child_bounds.len() ==> r.1.0 == 0,
    {
        proof {
            use_type_invariant(self);
        }
        let ix = self.bottom_item();
        if ix < self.child_bounds.len() {
            let c = self.child_bounds[ix];
            assert(c.wf());
            (ix, Pixels(c.bottom() + self.offset.y.0 - self.bounds.bottom()))
        } else {
            (ix, Pixels(0))
        }
    }

    /// Records the bounds that the children were laid out in.
    pub fn set_child_bounds(&mut self, child_bounds: Vec<Bounds>)
        requires
            forall|i: int| 0 <= i < child_bounds@.len() ==> (#[trigger] child_bounds@[i]).wf(),
        ensures
            final(self)@ == (ScrollHandleView { child_bounds: child_bounds@, ..old(self)@ }),
    {
        proof {
            use_type_invariant(&*self);
        }
        self.child_bounds = child_bounds;
    }

    /// Records a layout of the scrolled element: its bounds, overflow, content size
    /// and padding. The largest offset becomes how far the padded content exceeds
    /// the bounds; the offset is clamped into `[-max, 0]`, or jumps to `-max`
    /// vertically when scrolling to the bottom was asked for, which the call
    /// consumes. Returns the clamped offset.
    pub fn clamp_to_layout(&mut self, bounds: Bounds, overflow: AxisOverflow, content_size: Size, padding: Edges) -> (r: Point)
        requires
            bounds.wf(),
            content_size.wf(),
            padding.wf(),
        ensures
            ({
                let mx = scroll_max_spec(
                    content_size.width.0 as int,
                    padding.left.0 + padding.right.0,
                    bounds.size.width.0 as int,
                );
                let my = scroll_max_spec(
                    content_size.height.0 as int,
                    padding.top.0 + padding.bottom.0,
                    bounds.size.height.0 as int,
                );
                &&& final(self)@.max_offset.x.0 == mx
                &&& final(self)@.max_offset.y.0 == my
                &&& final(self)@.offset.x.0 == clamp_spec(old(self)@.offset.x.0 as int, -mx, 0)
                &&& final(self)@.offset.y.0 == (if old(self)@.scroll_to_bottom {
                    -my
                } else {
                    clamp_spec(old(self)@.offset.y.0 as int, -my, 0)
                })
                &&& final(self)@.bounds == bounds
                &&& final(self)@.overflow == overflow
                &&& !final(self)@.scroll_to_bottom
                &&& final(self)@.child_bounds == old(self)@.child_bounds
                &&& final(self)@.active_item == old(self)@.active_item
                &&& r == final(self)@.offset
            }),
    {
        proof {
            use_type_invariant(&*self);
        }
        let pad_x = padding.left.0 + padding.right.0;
        let pad_y = padding.top.0 + padding.bottom.0;
        let ex = content_size.width.0 + pad_x - bounds.size.width.0;
        let ey = content_size.height.0 + pad_y - bounds.size.height.0;
        let mx = if ex > 0 { ex } else { 0 };
        let my = if ey > 0 { ey } else { 0 };
        let ox = self.offset.x.0;
        let x = if ox < -mx { -mx } else if ox > 0 { 0 } else { ox };
        let y = if self.scroll_to_bottom {
            -my
        } else {
            let oy = self.offset.y.0;
            if oy < -my { -my } else if oy > 0 { 0 } else { oy }
        };
        let active_item = self.active_item;
        proof {
            use_type_invariant(&*self);
            assert(handle_view_wf(self@));
            assert(forall|i: int| 0 <= i < self@.child_bounds.len() ==> (#[trigger] self@.child_bounds[i]).wf());
            assert(self@.child_bounds == self.child_bounds@);
        }
        assert(forall|i: int| 0 <= i < self.child_bounds@.len() ==> (#[trigger] self.child_bounds@[i]).wf());
        let mut child_bounds: Vec<Bounds> = Vec::new();
        std::mem::swap(&mut child_bounds, &mut self.child_bounds);
        assert(offset_ok(x as int));
        assert(offset_ok(y as int));
        assert(offset_ok(mx as int));
        assert(offset_ok(my as int));
        assert(forall|i: int| 0 <= i < child_bounds@.len() ==> (#[trigger] child_bounds@[i]).wf());
        *self = ScrollHandle {
            offset: Point { x: Pixels(x), y: Pixels(y) },
            bounds,
            max_offset: Point { x: Pixels(mx), y: Pixels(my) },
            child_bounds,
            scroll_to_bottom: false,
            overflow,
            active_item,
        };
        self.offset
    }
}

/// After a layout is recorded, the offset lies within `[-max_offset, 0]` on both axes.
pub proof fn lemma_clamped_offset_in_range(old_offset: int, max: int, r: int)
    requires
        max >= 0,
        r == clamp_spec(old_offset, -max, 0),
    ensures
        -max <= r <= 0,
{
}

/// Scrolling to a child that fits in the view, by the smallest amount, leaves the
/// whole child inside the view; a child that was already inside is not moved.
pub proof fn lemma_reveal_makes_child_visible(
    child_start: int,
    child_end: int,
    view_start: int,
    view_end: int,
    current: int,
)
    requires
        child_start <= child_end,
        child_end - child_start <= view_end - view_start,
    ensures
        ({
            let r = reveal_offset(child_start, child_end, view_start, view_end, current);
            &&& view_start <= child_start + r
            &&& child_end + r <= view_end
        }),
        (view_start <= child_start + current && child_end + current <= view_end) ==> reveal_offset(
            child_start,
            child_end,
            view_start,
            view_end,
            current,
        ) == current,
{
}

/// Revealing a child that fits in the view moves the offset the least: any
/// other offset `q` that shows the child fully is at least as far from the
/// current offset as the revealed one.
pub proof fn lemma_reveal_moves_least(
    child_start: int,
    child_end: int,
    view_start: int,
    view_end: int,
    current: int,
    q: int,
)
    requires
        child_start <= child_end,
        child_end - child_start <= view_end - view_start,
        view_start <= child_start + q,
        child_end + q <= view_end,
    ensures
        ({
            let r = reveal_offset(child_start, child_end, view_start, view_end, current);
            let dr = if r >= current { r - current } else { current - r };
            let dq = if q >= current { q - current } else { current - q };
            dr <= dq
        }),
{
}

/// A child larger than the view is aligned to the view's start edge.
pub proof fn lemma_reveal_large_child_aligns_start(
    child_start: int,
    child_end: int,
    view_start: int,
    view_end: int,
    current: int,
)
    requires
        child_end - child_start > view_end - view_start,
    ensures
        child_start + reveal_offset(child_start, child_end, view_start, view_end, current)
            == view_start,
{
}

impl Default for ScrollHandle {
    /// A handle at offset zero with nothing laid out, as `ScrollHandle::new` gives.
    fn default() -> (r: ScrollHandle)
        ensures
            r@.offset == (Point { x: Pixels(0), y: Pixels(0) }),
            r@.bounds == (Bounds {
                origin: Point { x: Pixels(0), y: Pixels(0) },
                size: Size { width: Pixels(0), height: Pixels(0) },
            }),
            r@.max_offset == (Point { x: Pixels(0), y: Pixels(0) }),
            r@.child_bounds.len() == 0,
            !r@.scroll_to_bottom,
            r@.overflow == (AxisOverflow { x: Overflow::Visible, y: Overflow::Visible }),
            (r@.active_item is None),
    {
        ScrollHandle::new()
    }
}

/// The leftmost and topmost origin coordinates among the first `k` (at least
/// one) children.
pub open spec fn min_left(cs: Seq<Bounds>, k: nat) -> int
    decreases k,
{
    if k <= 1 {
        cs[0].left_spec()
    } else {
        let m = min_left(cs, (k - 1) as nat);
        if cs[k - 1].left_spec() < m { cs[k - 1].left_spec() } else { m }
    }
}

pub open spec fn min_top(cs: Seq<Bounds>, k: nat) -> int
    decreases k,
{
    if k <= 1 {
        cs[0].top_spec()
    } else {
        let m = min_top(cs, (k - 1) as nat);
        if cs[k - 1].top_spec() < m { cs[k - 1].top_spec() } else { m }
    }
}

/// The rightmost and bottommost edges among the first `k` children, and never
/// less than zero.
pub open spec fn max_right(cs: Seq<Bounds>, k: nat) -> int
    decreases k,
{
    if k == 0 {
        0
    } else {
        let m = max_right(cs, (k - 1) as nat);
        if cs[k - 1].right_spec() > m { cs[k - 1].right_spec() } else { m }
    }
}

pub open spec fn max_bottom(cs: Seq<Bounds>, k: nat) -> int
    decreases k,
{
    if k == 0 {
        0
    } else {
        let m = max_bottom(cs, (k - 1) as nat);
        if cs[k - 1].bottom_spec() > m { cs[k - 1].bottom_spec() } else { m }
    }
}

proof fn lemma_extent_ranges(cs: Seq<Bounds>, k: nat)
    requires
        1 <= k <= cs.len(),
        forall|i: int| 0 <= i < cs.len() ==> (#[trigger] cs[i]).wf(),
    ensures
        -COORD_LIMIT <= min_left(cs, k) <= COORD_LIMIT,
        -COORD_LIMIT <= min_top(cs, k) <= COORD_LIMIT,
        0 <= max_right(cs, k) <= 2 * COORD_LIMIT,
        0 <= max_bottom(cs, k) <= 2 * COORD_LIMIT,
    decreases k,
{
    assert(cs[k - 1].wf());
    if k > 1 {
        lemma_extent_ranges(cs, (k - 1) as nat);
    } else {
        assert(cs[0].wf());
        assert(max_right(cs, 0) == 0);
        assert(max_bottom(cs, 0) == 0);
    }
}

/// The size of an element's content: the element's own size without
/// children; otherwise from the leftmost and topmost child origin to the
/// rightmost and bottommost child edge, where those edges count from no less
/// than zero.
pub open spec fn content_size_spec(bounds: Bounds, cs: Seq<Bounds>) -> (int, int) {
    if cs.len() == 0 {
        (bounds.size.width.0 as int, bounds.size.height.0 as int)
    } else {
        (max_right(cs, cs.len()) - min_left(cs, cs.len()), max_bottom(cs, cs.len()) - min_top(cs, cs.len()))
    }
}

/// The size of the content of an element laid out in `bounds` whose children
/// were laid out in `children`.
pub fn content_size(bounds: Bounds, children: &Vec<Bounds>) -> (r: Size)
    requires
        forall|i: int| 0 <= i < children@.len() ==> (#[trigger] children@[i]).wf(),
    ensures
        (r.width.0 as int, r.height.0 as int) == content_size_spec(bounds, children@),
{
    let n = children.len();
    if n == 0 {
        return bounds.size;
    }
    let ghost cs = children@;
    let c0 = children[0];
    assert(c0.wf());
    let mut min_x = c0.origin.x.0;
    let mut min_y = c0.origin.y.0;
    let mut max_x: i64 = if c0.origin.x.0 + c0.size.width.0 > 0 { c0.origin.x.0 + c0.size.width.0 } else { 0 };
    let mut max_y: i64 = if c0.origin.y.0 + c0.size.height.0 > 0 { c0.origin.y.0 + c0.size.height.0 } else { 0 };
    proof {
        reveal_with_fuel(max_right, 2);
        reveal_with_fuel(max_bottom, 2);
    }
    let mut i: usize = 1;
    while i < n
        invariant
            1 <= i <= n,
            n == cs.len(),
            cs == children@,
            forall|k: int| 0 <= k < cs.len() ==> (#[trigger] cs[k]).wf(),
            min_x == min_left(cs, i as nat),
            min_y == min_top(cs, i as nat),
            max_x == max_right(cs, i as nat),
            max_y == max_bottom(cs, i as nat),
        decreases n - i,
    {
        let c = children[i];
        assert(c.wf());
        if c.origin.x.0 < min_x {
            min_x = c.origin.x.0;
        }
        if c.origin.y.0 < min_y {
            min_y = c.origin.y.0;
        }
        let right = c.origin.x.0 + c.size.width.0;
        let bottom = c.origin.y.0 + c.size.height.0;
        if right > max_x {
            max_x = right;
        }
        if bottom > max_y {
            max_y = bottom;
        }
        i = i + 1;
    }
    proof {
        lemma_extent_ranges(cs, n as nat);
    }
    Size { width: Pixels(max_x - min_x), height: Pixels(max_y - min_y) }
}

/// The state after a layout of the scrolled element in `bounds` with `overflow`,
/// content `cw` x `ch` and `padding` is recorded in `v`, as
/// `ScrollHandle::clamp_to_layout` records it.
pub open spec fn layout_clamp_spec(
    v: ScrollHandleView,
    bounds: Bounds,
    overflow: AxisOverflow,
    cw: int,
    ch: int,
    padding: Edges,
) -> ScrollHandleView {
    let mx = scroll_max_spec(cw, padding.left.0 + padding.right.0, bounds.size.width.0 as int);
    let my = scroll_max_spec(ch, padding.top.0 + padding.bottom.0, bounds.size.height.0 as int);
    ScrollHandleView {
        offset: Point {
            x: Pixels(clamp_spec(v.offset.x.0 as int, -mx, 0) as i64),
            y: Pixels((if v.scroll_to_bottom { -my } else { clamp_spec(v.offset.y.0 as int, -my, 0) }) as i64),
        },
        bounds,
        max_offset: Point { x: Pixels(mx as i64), y: Pixels(my as i64) },
        child_bounds: v.child_bounds,
        scroll_to_bottom: false,
        overflow,
        active_item: v.active_item,
    }
}

/// The scroll part of a prepaint of the scrolled element, from state `v`:
/// the children's bounds are recorded (when there are children), then the
/// requested child is scrolled to (against the bounds of the previous layout),
/// then the new layout is recorded and the offset clamped.
pub open spec fn prepaint_scroll_spec(
    v: ScrollHandleView,
    bounds: Bounds,
    overflow: AxisOverflow,
    children: Seq<Bounds>,
    padding: Edges,
) -> ScrollHandleView {
    let v1 = if children.len() > 0 { ScrollHandleView { child_bounds: children, ..v } } else { v };
    let v2 = scroll_to_active_item_spec(v1);
    let (cw, ch) = content_size_spec(bounds, children);
    layout_clamp_spec(v2, bounds, overflow, cw, ch, padding)
}

impl ScrollHandle {
    /// The scroll part of a prepaint of the element the handle tracks, laid out
    /// in `bounds` with `overflow` and `padding`, whose children were laid out
    /// in `children`: records the children's bounds when there are any, scrolls
    /// to the requested child, then records the layout with the content size
    /// that the children span and clamps the offset into `[-max, 0]`. Returns
    /// the offset.
    pub fn prepaint_scroll(
        &mut self,
        bounds: Bounds,
        overflow: AxisOverflow,
        children: Vec<Bounds>,
        padding: Edges,
    ) -> (r: Point)
        requires
            bounds.wf(),
            padding.wf(),
            forall|i: int| 0 <= i < children@.len() ==> (#[trigger] children@[i]).wf(),
            coord_ok(content_size_spec(bounds, children@).0),
            coord_ok(content_size_spec(bounds, children@).1),
        ensures
            final(self)@ == prepaint_scroll_spec(old(self)@, bounds, overflow, children@, padding),
            r == final(self)@.offset,
    {
        let content = content_size(bounds, &children);
        let ghost cs = children@;
        if children.len() > 0 {
            self.set_child_bounds(children);
        }
        self.scroll_to_active_item();
        let ghost v2 = self@;
        let r = self.clamp_to_layout(bounds, overflow, content, padding);
        assert(self@ == layout_clamp_spec(v2, bounds, overflow, content.width.0 as int, content.height.0 as int, padding));
        r
    }
}

/// Scrolling to the top of child `ix` and then running the scroll part of the
/// next prepaint puts that child's top at the top of the view (the view as laid
/// out at the previous prepaint), clamped into `[-max, 0]`, and clears the
/// request, whatever the vertical overflow; when there is no child `ix` yet, the
/// request stays and the offset is only clamped.
pub proof fn lemma_top_of_item_aligned_then_clamped(
    v: ScrollHandleView,
    bounds: Bounds,
    overflow: AxisOverflow,
    children: Seq<Bounds>,
    padding: Edges,
    ix: usize,
)
    requires
        handle_view_wf(v),
        bounds.wf(),
        padding.wf(),
        forall|i: int| 0 <= i < children.len() ==> (#[trigger] children[i]).wf(),
        coord_ok(content_size_spec(bounds, children).0),
        coord_ok(content_size_spec(bounds, children).1),
        v.active_item == Some(ScrollActiveItem { index: ix, strategy: ScrollStrategy::Top }),
        !v.scroll_to_bottom,
    ensures
        ({
            let w = prepaint_scroll_spec(v, bounds, overflow, children, padding);
            let cb = if children.len() > 0 { children } else { v.child_bounds };
            let my = w.max_offset.y.0 as int;
            &&& my >= 0
            &&& ix < cb.len() ==> {
                &&& w.offset.y.0 == clamp_spec(v.bounds.top_spec() - cb[ix as int].top_spec(), -my, 0)
                &&& w.active_item is None
            }
            &&& ix >= cb.len() ==> {
                &&& w.offset.y.0 == clamp_spec(v.offset.y.0 as int, -my, 0)
                &&& w.active_item == v.active_item
            }
        }),
{
    let cb = if children.len() > 0 { children } else { v.child_bounds };
    if ix < cb.len() {
        assert(cb[ix as int].wf());
    }
}

} // verus!
