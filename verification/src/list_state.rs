//! The state of a virtualized list: its items with their measured or hinted
//! heights, where it is scrolled to (as an item and an offset into it), whether
//! it follows its tail, and the scroll adjustment pending from a remeasure.
//!
//! Positions in the list's content are measured from the top of the first item;
//! the height of an item is its measured height, else its hinted height, else
//! zero. A seek for a content position finds the item whose extent holds it.
use vstd::prelude::*;
use std::ops::Range;
use crate::element::CallbackId;
use crate::geometry::{Bounds, Edges, Pixels, Point, Size, COORD_LIMIT, coord_ok};
use crate::list::{
    FocusId, FollowMode, FollowState, ListAlignment, ListItem, ListMeasuringBehavior, ListOffset,
    ListScrollEvent,
};

verus! {

/// Largest magnitude of a stored offset into an item.
pub const LIST_OFFSET_LIMIT: i64 = 4_398_046_511_104;

pub open spec fn list_offset_ok(v: int) -> bool {
    -LIST_OFFSET_LIMIT <= v <= LIST_OFFSET_LIMIT
}

/// The height an item takes in the list's content.
pub open spec fn item_height(it: ListItem) -> int {
    match it {
        ListItem::Measured { size, .. } => size.height.0 as int,
        ListItem::Unmeasured { size_hint, .. } => match size_hint {
            Some(s) => s.height.0 as int,
            None => 0,
        },
    }
}

/// The item's known size is storable and its height is not negative.
pub open spec fn item_ok(it: ListItem) -> bool {
    match it {
        ListItem::Measured { size, .. } => size.wf() && size.height.0 >= 0,
        ListItem::Unmeasured { size_hint, .. } => match size_hint {
            Some(s) => s.wf() && s.height.0 >= 0,
            None => true,
        },
    }
}

pub open spec fn items_ok(items: Seq<ListItem>) -> bool {
    forall|i: int| 0 <= i < items.len() ==> item_ok(#[trigger] items[i])
}

/// The height of the first `n` items (of all of them when `n` exceeds their number).
pub open spec fn prefix_height(items: Seq<ListItem>, n: nat) -> int
    decreases n,
{
    if n == 0 {
        0
    } else if n > items.len() {
        prefix_height(items, items.len())
    } else {
        prefix_height(items, (n - 1) as nat) + item_height(items[n - 1])
    }
}

/// The height of all items.
pub open spec fn total_height(items: Seq<ListItem>) -> int {
    prefix_height(items, items.len())
}

/// The first item, from `from` on, whose bottom lies below content position `h`
/// (the number of items when there is none).
pub open spec fn first_end_after(items: Seq<ListItem>, from: nat, h: int) -> nat
    decreases items.len() - from,
{
    if from >= items.len() {
        items.len()
    } else if prefix_height(items, from + 1) > h {
        from
    } else {
        first_end_after(items, from + 1, h)
    }
}

/// The first item, from `from` on, whose bottom lies at or below content
/// position `h` (the number of items when there is none).
pub open spec fn first_end_reaching(items: Seq<ListItem>, from: nat, h: int) -> nat
    decreases items.len() - from,
{
    if from >= items.len() {
        items.len()
    } else if prefix_height(items, from + 1) >= h {
        from
    } else {
        first_end_reaching(items, from + 1, h)
    }
}

/// Whether some item has neither a measured nor a hinted height.
pub open spec fn has_unknown_height(items: Seq<ListItem>) -> bool {
    exists|i: int|
        0 <= i < items.len() && (#[trigger] items[i] matches ListItem::Unmeasured { size_hint, .. }
            && size_hint is None)
}

pub proof fn lemma_prefix_bounds(items: Seq<ListItem>, i: nat, j: nat)
    requires
        items_ok(items),
        i <= j,
    ensures
        0 <= prefix_height(items, i) <= prefix_height(items, j) <= total_height(items),
{
    lemma_prefix_nonneg(items, i);
    lemma_prefix_mono(items, i, j);
    if j <= items.len() {
        lemma_prefix_mono(items, j, items.len());
    }
}

proof fn lemma_prefix_mono(items: Seq<ListItem>, i: nat, j: nat)
    requires
        items_ok(items),
        i <= j,
    ensures
        prefix_height(items, i) <= prefix_height(items, j),
    decreases j,
{
    if j > items.len() {
        if i <= items.len() {
            lemma_prefix_mono(items, i, items.len());
        }
    } else if i < j {
        assert(item_ok(items[j - 1]));
        lemma_prefix_mono(items, i, (j - 1) as nat);
    }
}

proof fn lemma_prefix_nonneg(items: Seq<ListItem>, j: nat)
    requires
        items_ok(items),
    ensures
        prefix_height(items, j) >= 0,
    decreases j,
{
    if j > items.len() {
        lemma_prefix_nonneg(items, items.len());
    } else if j > 0 {
        assert(item_ok(items[j - 1]));
        lemma_prefix_nonneg(items, (j - 1) as nat);
    }
}

/// The height of the first `k` items depends on those items alone.
proof fn lemma_prefix_agree(a: Seq<ListItem>, b: Seq<ListItem>, k: nat)
    requires
        k <= a.len(),
        k <= b.len(),
        forall|i: int| 0 <= i < k ==> item_height(#[trigger] a[i]) == item_height(b[i]),
    ensures
        prefix_height(a, k) == prefix_height(b, k),
    decreases k,
{
    if k > 0 {
        lemma_prefix_agree(a, b, (k - 1) as nat);
        assert(item_height(a[k - 1]) == item_height(b[k - 1]));
    }
}

/// The height of two runs of items put together.
proof fn lemma_total_concat(x: Seq<ListItem>, y: Seq<ListItem>)
    ensures
        total_height(x + y) == total_height(x) + total_height(y),
    decreases y.len(),
{
    if y.len() == 0 {
        assert(x + y =~= x);
    } else {
        let y0 = y.drop_last();
        let l = y.last();
        lemma_total_concat(x, y0);
        assert((x + y0).push(l) =~= x + y);
        assert(y0.push(l) =~= y);
        let z = x + y;
        lemma_prefix_agree(z, x + y0, (x + y0).len());
        lemma_prefix_agree(y, y0, y0.len());
        assert(z[z.len() - 1] == l);
        assert(y[y.len() - 1] == l);
    }
}

/// The height of the first `k` items is the height of the run they form.
proof fn lemma_prefix_is_total_of_run(a: Seq<ListItem>, k: nat)
    requires
        k <= a.len(),
    ensures
        prefix_height(a, k) == total_height(a.subrange(0, k as int)),
{
    lemma_prefix_agree(a, a.subrange(0, k as int), k);
}

/// The height of the items from `k` on.
proof fn lemma_suffix_total(a: Seq<ListItem>, k: nat)
    requires
        k <= a.len(),
    ensures
        total_height(a.subrange(k as int, a.len() as int)) == total_height(a) - prefix_height(a, k),
{
    assert(a.subrange(0, k as int) + a.subrange(k as int, a.len() as int) =~= a);
    lemma_total_concat(a.subrange(0, k as int), a.subrange(k as int, a.len() as int));
    lemma_prefix_is_total_of_run(a, k);
}

/// Items with the same heights have the same total height.
proof fn lemma_same_heights(a: Seq<ListItem>, b: Seq<ListItem>)
    requires
        a.len() == b.len(),
        forall|i: int| 0 <= i < a.len() ==> item_height(#[trigger] a[i]) == item_height(b[i]),
    ensures
        total_height(a) == total_height(b),
{
    lemma_prefix_agree(a, b, a.len());
}

proof fn lemma_uniform_run_height(items: Seq<ListItem>, height: int, k: nat)
    requires
        k <= items.len(),
        height >= 0,
        forall|i: int| 0 <= i < items.len() ==> item_height(#[trigger] items[i]) == height,
    ensures
        prefix_height(items, k) == k * height,
    decreases k,
{
    if k > 0 {
        lemma_uniform_run_height(items, height, (k - 1) as nat);
        assert(item_height(items[k - 1]) == height);
        assert(k * height == (k - 1) * height + height) by (nonlinear_arith);
        assert(prefix_height(items, k) == prefix_height(items, (k - 1) as nat) + item_height(
            items[k - 1],
        ));
    } else {
        assert(k * height == 0) by (nonlinear_arith)
            requires
                k == 0,
        ;
    }
}

proof fn lemma_size_prefix_nonneg(sizes: Seq<Size>, j: nat)
    requires
        sizes_ok(sizes),
    ensures
        size_prefix(sizes, j) >= 0,
    decreases j,
{
    if j > sizes.len() {
        lemma_size_prefix_nonneg(sizes, sizes.len());
    } else if j > 0 {
        assert(sizes[j - 1].height.0 >= 0);
        lemma_size_prefix_nonneg(sizes, (j - 1) as nat);
    }
}

proof fn lemma_size_prefix_mono(sizes: Seq<Size>, i: nat, j: nat)
    requires
        sizes_ok(sizes),
        i <= j,
    ensures
        size_prefix(sizes, i) <= size_prefix(sizes, j),
    decreases j,
{
    if j > sizes.len() {
        if i <= sizes.len() {
            lemma_size_prefix_mono(sizes, i, sizes.len());
        }
    } else if i < j {
        assert(sizes[j - 1].height.0 >= 0);
        lemma_size_prefix_mono(sizes, i, (j - 1) as nat);
    }
}

/// Where the search for the first item ending after `h` stops, and what holds
/// of the items it passes.
pub proof fn lemma_first_end_after(items: Seq<ListItem>, from: nat, h: int)
    ensures
        from <= items.len() ==> from <= first_end_after(items, from, h),
        first_end_after(items, from, h) <= items.len() || from > items.len(),
        first_end_after(items, from, h) < items.len() ==> prefix_height(
            items,
            first_end_after(items, from, h) + 1,
        ) > h,
        forall|j: nat|
            from < j <= first_end_after(items, from, h) ==> #[trigger] prefix_height(items, j) <= h,
    decreases items.len() - from,
{
    if from < items.len() && prefix_height(items, from + 1) <= h {
        lemma_first_end_after(items, from + 1, h);
    }
}

/// The same for the first item ending at or after `h`.
pub proof fn lemma_first_end_reaching(items: Seq<ListItem>, from: nat, h: int)
    ensures
        from <= items.len() ==> from <= first_end_reaching(items, from, h),
        first_end_reaching(items, from, h) <= items.len() || from > items.len(),
        first_end_reaching(items, from, h) < items.len() ==> prefix_height(
            items,
            first_end_reaching(items, from, h) + 1,
        ) >= h,
        forall|j: nat|
            from < j <= first_end_reaching(items, from, h) ==> #[trigger] prefix_height(items, j) < h,
    decreases items.len() - from,
{
    if from < items.len() && prefix_height(items, from + 1) < h {
        lemma_first_end_reaching(items, from + 1, h);
    }
}

/// The item found for a content position starts at or above it.
pub proof fn lemma_found_item_starts_above(items: Seq<ListItem>, h: int)
    requires
        items_ok(items),
        h >= 0,
    ensures
        prefix_height(items, first_end_after(items, 0, h)) <= h,
        prefix_height(items, first_end_reaching(items, 0, h)) <= h,
{
    lemma_first_end_after(items, 0, h);
    lemma_first_end_reaching(items, 0, h);
    let k = first_end_after(items, 0, h);
    if k > 0 {
        assert(prefix_height(items, k) <= h);
    }
    let k2 = first_end_reaching(items, 0, h);
    if k2 > 0 {
        assert(prefix_height(items, k2) < h);
    }
}

fn item_height_exec(it: &ListItem) -> (r: i64)
    ensures
        r == item_height(*it),
{
    match it {
        ListItem::Measured { size, .. } => size.height.0,
        ListItem::Unmeasured { size_hint, .. } => match size_hint {
            Some(s) => s.height.0,
            None => 0,
        },
    }
}

/// The height of the first `n` items.
fn prefix_height_exec(items: &Vec<ListItem>, n: usize) -> (r: i64)
    requires
        items_ok(items@),
        total_height(items@) <= COORD_LIMIT,
    ensures
        r == prefix_height(items@, n as nat),
        0 <= r <= total_height(items@),
{
    let end = if n < items.len() { n } else { items.len() };
    let mut acc: i64 = 0;
    let mut i: usize = 0;
    while i < end
        invariant
            i <= end <= items.len(),
            end == (if n < items.len() { n as nat } else { items@.len() }),
            items_ok(items@),
            total_height(items@) <= COORD_LIMIT,
            acc == prefix_height(items@, i as nat),
        decreases end - i,
    {
        proof {
            lemma_prefix_bounds(items@, (i + 1) as nat, items@.len());
            assert(item_ok(items@[i as int]));
        }
        acc = acc + item_height_exec(&items[i]);
        i = i + 1;
    }
    proof {
        lemma_prefix_bounds(items@, i as nat, items@.len());
    }
    acc
}

/// The first item from `from` on whose bottom lies below `h` (or, with
/// `reaching`, at or below it), with the content position of its top.
fn seek_height(items: &Vec<ListItem>, from: usize, h: i64, reaching: bool) -> (r: (usize, i64))
    requires
        items_ok(items@),
        total_height(items@) <= COORD_LIMIT,
        from <= items.len(),
    ensures
        r.0 == (if reaching {
            first_end_reaching(items@, from as nat, h as int)
        } else {
            first_end_after(items@, from as nat, h as int)
        }),
        r.1 == prefix_height(items@, r.0 as nat),
        from <= r.0 <= items.len(),
        0 <= r.1 <= total_height(items@),
{
    let mut i: usize = from;
    let mut acc: i64 = prefix_height_exec(items, from);
    while i < items.len()
        invariant_except_break
            from <= i <= items.len(),
            items_ok(items@),
            total_height(items@) <= COORD_LIMIT,
            acc == prefix_height(items@, i as nat),
            (if reaching {
                first_end_reaching(items@, from as nat, h as int) == first_end_reaching(
                    items@,
                    i as nat,
                    h as int,
                )
            } else {
                first_end_after(items@, from as nat, h as int) == first_end_after(
                    items@,
                    i as nat,
                    h as int,
                )
            }),
        ensures
            from <= i <= items.len(),
            acc == prefix_height(items@, i as nat),
            (if reaching {
                first_end_reaching(items@, from as nat, h as int) == i
            } else {
                first_end_after(items@, from as nat, h as int) == i
            }),
        decreases items.len() - i,
    {
        proof {
            lemma_prefix_bounds(items@, (i + 1) as nat, items@.len());
            assert(item_ok(items@[i as int]));
        }
        let next = acc + item_height_exec(&items[i]);
        let stop = if reaching { next >= h } else { next > h };
        if stop {
            break;
        }
        acc = next;
        i = i + 1;
    }
    proof {
        lemma_prefix_bounds(items@, i as nat, items@.len());
    }
    (i, acc)
}

fn any_unknown_height(items: &Vec<ListItem>) -> (r: bool)
    ensures
        r == has_unknown_height(items@),
{
    let mut i: usize = 0;
    while i < items.len()
        invariant
            i <= items.len(),
            forall|k: int|
                0 <= k < i ==> !(#[trigger] items@[k] matches ListItem::Unmeasured { size_hint, .. }
                    && size_hint is None),
        decreases items.len() - i,
    {
        match items[i] {
            ListItem::Unmeasured { size_hint: None, .. } => {
                assert(items@[i as int] matches ListItem::Unmeasured { size_hint, .. }
                    && size_hint is None);
                return true;
            },
            _ => {},
        }
        i = i + 1;
    }
    false
}

/// What a wheel turn over the list leads to.
#[derive(Debug)]
pub struct ScrollOutcome {
    /// Whether the list's view must be notified; not after a reset, when the
    /// turn is dropped because the item heights are unknown.
    pub notify: bool,
    /// The event for the scroll handler, when there is one.
    pub event: Option<ListScrollEvent>,
}

fn laid_size_exec(it: &ListItem, size: Size, vis: i64, avail: i64) -> (r: Size)
    ensures
        r == laid_size(*it, size, vis as int, avail as int),
{
    if vis < avail {
        return size;
    }
    match it {
        ListItem::Measured { size: measured, .. } => *measured,
        ListItem::Unmeasured { .. } => size,
    }
}

fn focus_in_exec(it: &ListItem, focused: &Vec<FocusId>) -> (r: bool)
    ensures
        r == focus_in(*it, focused@),
{
    it.contains_focused(focused)
}

fn size_prefix_exec(sizes: &Vec<Size>, n: usize) -> (r: i64)
    requires
        sizes_ok(sizes@),
        size_prefix(sizes@, sizes@.len()) <= COORD_LIMIT,
    ensures
        r == size_prefix(sizes@, n as nat),
{
    let end = if n < sizes.len() { n } else { sizes.len() };
    let mut acc: i64 = 0;
    let mut i: usize = 0;
    while i < end
        invariant
            i <= end <= sizes.len(),
            end == (if n < sizes.len() { n as nat } else { sizes@.len() }),
            sizes_ok(sizes@),
            size_prefix(sizes@, sizes@.len()) <= COORD_LIMIT,
            acc == size_prefix(sizes@, i as nat),
        decreases end - i,
    {
        proof {
            lemma_size_prefix_mono(sizes@, (i + 1) as nat, sizes@.len());
            lemma_size_prefix_nonneg(sizes@, i as nat);
            assert(sizes@[i as int].height.0 >= 0);
        }
        acc = acc + sizes[i].height.0;
        i = i + 1;
    }
    acc
}

/// A scroll adjustment kept across a remeasure of the item at the top of the
/// viewport, applied once that item has been measured again.
#[derive(Clone, Copy, Debug, PartialEq, Eq, Structural)]
pub enum PendingScroll {
    /// Keep the same offset in pixels into the item.
    Absolute { item_ix: usize, offset: Pixels },
    /// Keep the same fraction of the item's height, `numerator / denominator`,
    /// between zero and one.
    Proportional { item_ix: usize, numerator: i64, denominator: i64 },
}

/// The fraction of an item of height `height` that `offset` scrolls past,
/// kept between zero and one, as a numerator and a denominator; zero for an
/// item without height.
pub open spec fn fraction_spec(offset: int, height: int) -> (int, int) {
    if height > 0 {
        if offset < 0 {
            (0, height)
        } else if offset > height {
            (height, height)
        } else {
            (offset, height)
        }
    } else {
        (0, 1)
    }
}

fn fraction(offset: i64, height: i64) -> (r: (i64, i64))
    ensures
        (r.0 as int, r.1 as int) == fraction_spec(offset as int, height as int),
{
    if height > 0 {
        if offset < 0 {
            (0, height)
        } else if offset > height {
            (height, height)
        } else {
            (offset, height)
        }
    } else {
        (0, 1)
    }
}

pub open spec fn pending_ok(p: PendingScroll) -> bool {
    match p {
        PendingScroll::Absolute { offset, .. } => list_offset_ok(offset.0 as int),
        PendingScroll::Proportional { numerator, denominator, .. } => 0 <= numerator
            <= denominator && denominator > 0,
    }
}

/// The list's state, as its contracts see it.
pub ghost struct ListStateView {
    pub last_layout_bounds: Option<Bounds>,
    pub last_padding: Option<Edges>,
    pub items: Seq<ListItem>,
    pub logical_scroll_top: Option<ListOffset>,
    pub alignment: ListAlignment,
    pub overdraw: Pixels,
    pub reset: bool,
    pub scroll_handler: Option<CallbackId>,
    pub scrollbar_drag_start_height: Option<Pixels>,
    pub measuring_behavior: ListMeasuringBehavior,
    pub pending_scroll: Option<PendingScroll>,
    pub follow_state: FollowState,
}

impl ListStateView {
    /// What the state holds stays within the limits of its pixel arithmetic.
    pub open spec fn wf(self) -> bool {
        &&& items_ok(self.items)
        &&& total_height(self.items) <= COORD_LIMIT
        &&& self.items.len() < usize::MAX
        &&& (self.logical_scroll_top matches Some(o) ==> o.item_ix <= self.items.len()
            && list_offset_ok(o.offset_in_item.0 as int))
        &&& (self.last_layout_bounds matches Some(b) ==> b.wf())
        &&& (self.last_padding matches Some(p) ==> p.wf())
        &&& coord_ok(self.overdraw.0 as int)
        &&& (self.scrollbar_drag_start_height matches Some(h) ==> 0 <= h.0 <= COORD_LIMIT)
        &&& (self.pending_scroll matches Some(p) ==> pending_ok(p))
    }

    /// The scroll position: the stored one, else the list's start (or, for a
    /// bottom-aligned list, its end).
    pub open spec fn logical_scroll_top_spec(self) -> ListOffset {
        match self.logical_scroll_top {
            Some(o) => o,
            None => match self.alignment {
                ListAlignment::Top => ListOffset { item_ix: 0, offset_in_item: Pixels(0) },
                ListAlignment::Bottom => ListOffset {
                    item_ix: self.items.len() as usize,
                    offset_in_item: Pixels(0),
                },
            },
        }
    }

    /// The content position of a scroll position.
    pub open spec fn scroll_top_px(self, o: ListOffset) -> int {
        prefix_height(self.items, o.item_ix as nat) + o.offset_in_item.0
    }

    /// The padding of the last layout, or none.
    pub open spec fn padding(self) -> Edges {
        match self.last_padding {
            Some(p) => p,
            None => Edges { top: Pixels(0), right: Pixels(0), bottom: Pixels(0), left: Pixels(0) },
        }
    }

    /// The bounds of the last layout, or empty bounds at the origin.
    pub open spec fn viewport(self) -> Bounds {
        match self.last_layout_bounds {
            Some(b) => b,
            None => Bounds {
                origin: Point { x: Pixels(0), y: Pixels(0) },
                size: Size { width: Pixels(0), height: Pixels(0) },
            },
        }
    }

    /// How far the content can be scrolled: the content height (frozen while
    /// the scrollbar is dragged) less the viewport height, never below zero.
    pub open spec fn max_scroll_offset(self) -> int {
        let height = match self.scrollbar_drag_start_height {
            Some(h) => h.0 as int,
            None => total_height(self.items),
        };
        let d = height - self.viewport().size.height.0;
        if d > 0 {
            d
        } else {
            0
        }
    }

    /// The pending adjustment re-anchored to a newly set scroll position: an
    /// absolute one keeps the new offset, a proportional one the new fraction of
    /// the item's known height (and is dropped when that is unknown or zero);
    /// any is dropped when the position is past the last item.
    pub open spec fn rebase_pending(self, scroll_top: ListOffset) -> Option<PendingScroll> {
        match self.pending_scroll {
            None => None,
            Some(p) => if scroll_top.item_ix >= self.items.len() {
                None
            } else {
                match p {
                    PendingScroll::Absolute { .. } => Some(
                        PendingScroll::Absolute {
                            item_ix: scroll_top.item_ix,
                            offset: scroll_top.offset_in_item,
                        },
                    ),
                    PendingScroll::Proportional { .. } => {
                        let it = self.items[scroll_top.item_ix as int];
                        let known = match it {
                            ListItem::Measured { size, .. } => Some(size),
                            ListItem::Unmeasured { size_hint, .. } => size_hint,
                        };
                        match known {
                            Some(s) => if s.height.0 > 0 {
                                let (n, d) = fraction_spec(
                                    scroll_top.offset_in_item.0 as int,
                                    s.height.0 as int,
                                );
                                Some(
                                    PendingScroll::Proportional {
                                        item_ix: scroll_top.item_ix,
                                        numerator: n as i64,
                                        denominator: d as i64,
                                    },
                                )
                            } else {
                                None
                            },
                            None => None,
                        }
                    },
                }
            },
        }
    }

    /// The state after setting the scroll position to `scroll_top`, re-anchoring
    /// any pending adjustment to it.
    pub open spec fn with_scroll_top(self, scroll_top: ListOffset) -> ListStateView {
        ListStateView {
            pending_scroll: self.rebase_pending(scroll_top),
            logical_scroll_top: Some(scroll_top),
            ..self
        }
    }

    /// The scroll position for content position `px`: the item whose extent
    /// holds it and the offset into that item.
    pub open spec fn offset_at(self, px: int) -> ListOffset {
        let k = first_end_after(self.items, 0, px);
        ListOffset {
            item_ix: k as usize,
            offset_in_item: Pixels((px - prefix_height(self.items, k)) as i64),
        }
    }
}

/// A following state after the user scrolls away from the tail.
pub open spec fn stopped(s: FollowState) -> FollowState {
    match s {
        FollowState::Tail { .. } => FollowState::Tail { is_following: false },
        FollowState::Normal => FollowState::Normal,
    }
}

pub open spec fn max0(v: int) -> int {
    if v > 0 {
        v
    } else {
        0
    }
}

impl ListStateView {
    /// Scrolling by `distance` pixels: from the content position of the scroll
    /// position, moved by `distance` but not above the start, the list seeks
    /// the item that holds the new position (forward from the current item when
    /// moving down); moving up stops following the tail.
    pub open spec fn scroll_by_spec(self, distance: int) -> ListStateView {
        if distance == 0 {
            self
        } else {
            let cur = self.logical_scroll_top_spec();
            let follow = if distance < 0 {
                stopped(self.follow_state)
            } else {
                self.follow_state
            };
            let start_px = self.scroll_top_px(cur);
            let new_px = max0(start_px + distance);
            let k = if new_px > start_px {
                first_end_after(self.items, cur.item_ix as nat, new_px)
            } else {
                first_end_after(self.items, 0, new_px)
            };
            let st = ListOffset {
                item_ix: k as usize,
                offset_in_item: Pixels((new_px - prefix_height(self.items, k)) as i64),
            };
            ListStateView { follow_state: follow, ..self }.with_scroll_top(st)
        }
    }

    /// Scrolling to `scroll_top`: a position past the last item becomes the end
    /// of the list; a position before it stops following the tail.
    pub open spec fn scroll_to_spec(self, scroll_top: ListOffset) -> ListStateView {
        let target = if scroll_top.item_ix >= self.items.len() {
            ListOffset { item_ix: self.items.len() as usize, offset_in_item: Pixels(0) }
        } else {
            scroll_top
        };
        let follow = if target.item_ix < self.items.len() {
            stopped(self.follow_state)
        } else {
            self.follow_state
        };
        ListStateView { follow_state: follow, ..self }.with_scroll_top(target)
    }

    /// Scrolling so that item `ix` shows completely: an item at or above the
    /// scroll position becomes the top; an item below it is brought up until
    /// its bottom (with the padding) meets the viewport's bottom, unless that
    /// would scroll up.
    pub open spec fn reveal_item_spec(self, ix: usize) -> ListStateView {
        let st0 = self.logical_scroll_top_spec();
        let height = match self.last_layout_bounds {
            Some(b) => b.size.height.0 as int,
            None => 0,
        };
        let pad = self.padding();
        let st = if ix <= st0.item_ix {
            ListOffset { item_ix: ix, offset_in_item: Pixels(0) }
        } else {
            let bottom = prefix_height(self.items, (ix + 1) as nat) + pad.top.0;
            let goal = max0(bottom - height + pad.bottom.0);
            let k = first_end_reaching(self.items, 0, goal);
            if k >= st0.item_ix {
                ListOffset {
                    item_ix: k as usize,
                    offset_in_item: Pixels((goal - prefix_height(self.items, k)) as i64),
                }
            } else {
                st0
            }
        };
        self.with_scroll_top(st)
    }

    /// The bounds of item `ix` in window coordinates, when it is measured and
    /// not above the scroll position.
    pub open spec fn bounds_for_item_spec(self, ix: usize) -> Option<Bounds> {
        let b = self.viewport();
        let st = self.logical_scroll_top_spec();
        if ix < st.item_ix || ix >= self.items.len() {
            None
        } else {
            match self.items[ix as int] {
                ListItem::Measured { size, .. } => {
                    let top = b.origin.y.0 + prefix_height(self.items, ix as nat) - self.scroll_top_px(
                        st,
                    );
                    Some(
                        Bounds {
                            origin: Point { x: b.origin.x, y: Pixels(top as i64) },
                            size: Size { width: b.size.width, height: size.height },
                        },
                    )
                },
                ListItem::Unmeasured { .. } => None,
            }
        }
    }

    /// Whether the list is scrolled to its end; unknown before a layout, while
    /// an item's height is unknown, or when the content fits the viewport.
    pub open spec fn is_scrolled_to_end_spec(self) -> Option<bool> {
        match self.last_layout_bounds {
            None => None,
            Some(b) => if has_unknown_height(self.items) {
                None
            } else {
                let pad = self.padding();
                let max = max0(
                    total_height(self.items) + pad.top.0 + pad.bottom.0 - b.size.height.0,
                );
                if max <= 0 {
                    None
                } else {
                    Some(self.scroll_top_px(self.logical_scroll_top_spec()) >= max)
                }
            },
        }
    }

    /// Setting the scroll position from the scrollbar at `y` (minus the content
    /// position): the position is kept within the content (as it was when the
    /// drag started); reaching the end resumes following the tail, and anything
    /// else stops it; a bottom-aligned list at its end keeps no position.
    pub open spec fn offset_from_scrollbar_spec(self, y: int) -> ListStateView {
        match self.last_layout_bounds {
            None => self,
            Some(b) => {
                let pad = self.padding();
                let content = match self.scrollbar_drag_start_height {
                    Some(h) => h.0 as int,
                    None => total_height(self.items),
                };
                let max = max0(content + pad.top.0 + pad.bottom.0 - b.size.height.0);
                let new_top = if max0(-y) < max {
                    max0(-y)
                } else {
                    max
                };
                let dragged_to_end = max > 0 && new_top >= max0(max - 1);
                if dragged_to_end && self.follow_state is Tail {
                    ListStateView {
                        follow_state: FollowState::Tail { is_following: true },
                        pending_scroll: None,
                        logical_scroll_top: Some(
                            ListOffset {
                                item_ix: self.items.len() as usize,
                                offset_in_item: Pixels(0),
                            },
                        ),
                        ..self
                    }
                } else {
                    let v1 = ListStateView { follow_state: stopped(self.follow_state), ..self };
                    if self.alignment == ListAlignment::Bottom && new_top == max {
                        ListStateView { pending_scroll: None, logical_scroll_top: None, ..v1 }
                    } else {
                        v1.with_scroll_top(v1.offset_at(new_top))
                    }
                }
            },
        }
    }
}

impl ListStateView {
    /// A wheel turn of `delta_y` pixels over a viewport `height` tall, from
    /// `scroll_top` (the position of the last layout): the content position
    /// moves against the turn within the content; a bottom-aligned list at its
    /// end keeps no position; turning down stops following the tail. Nothing
    /// happens right after a reset.
    pub open spec fn wheel_spec(self, scroll_top: ListOffset, height: int, delta_y: int) -> ListStateView {
        if self.reset {
            self
        } else {
            let pad = self.padding();
            let max = max0(total_height(self.items) + pad.top.0 + pad.bottom.0 - height);
            let moved = max0(self.scroll_top_px(scroll_top) - delta_y);
            let new_top = if moved < max {
                moved
            } else {
                max
            };
            let v1 = if self.alignment == ListAlignment::Bottom && new_top == max {
                ListStateView { pending_scroll: None, logical_scroll_top: None, ..self }
            } else {
                self.with_scroll_top(self.offset_at(new_top))
            };
            if delta_y > 0 {
                ListStateView { follow_state: stopped(v1.follow_state), ..v1 }
            } else {
                v1
            }
        }
    }

    /// The last item visible in a viewport `height` tall scrolled to
    /// `scroll_top`: the first item whose bottom reaches the viewport's bottom.
    pub open spec fn last_visible(self, scroll_top: ListOffset, height: int) -> nat {
        let from = if scroll_top.item_ix <= self.items.len() {
            scroll_top.item_ix as nat
        } else {
            self.items.len()
        };
        first_end_reaching(self.items, from, self.scroll_top_px(scroll_top) + height)
    }
}

/// The measuring behavior after the items changed: all items are to be
/// measured again when all are measured.
pub open spec fn measuring_reset(m: ListMeasuringBehavior) -> ListMeasuringBehavior {
    match m {
        ListMeasuringBehavior::Measure(_) => ListMeasuringBehavior::Measure(false),
        ListMeasuringBehavior::Visible => ListMeasuringBehavior::Visible,
    }
}

/// The item unmeasured again, keeping its best known size as its hint.
pub open spec fn invalidated(it: ListItem) -> ListItem {
    match it {
        ListItem::Measured { size, focus_handle } => ListItem::Unmeasured {
            size_hint: Some(size),
            focus_handle,
        },
        ListItem::Unmeasured { size_hint, focus_handle } => ListItem::Unmeasured {
            size_hint,
            focus_handle,
        },
    }
}

/// The item unmeasured, hinted with its best known size or else `height`.
pub open spec fn with_uniform_hint(it: ListItem, height: Pixels) -> ListItem {
    match it {
        ListItem::Measured { size, focus_handle } => ListItem::Unmeasured {
            size_hint: Some(size),
            focus_handle,
        },
        ListItem::Unmeasured { size_hint, focus_handle } => ListItem::Unmeasured {
            size_hint: Some(
                match size_hint {
                    Some(s) => s,
                    None => Size { width: Pixels(0), height },
                },
            ),
            focus_handle,
        },
    }
}

pub open spec fn uniform_items(items: Seq<ListItem>, height: Pixels) -> Seq<ListItem> {
    items.map_values(|it: ListItem| with_uniform_hint(it, height))
}

/// Where the run `[start, end)` of the list's items begins and ends, clamped
/// to the items there are.
pub open spec fn clamp_run(n: nat, start: usize, end: usize) -> (nat, nat) {
    let s = if (start as nat) < n {
        start as nat
    } else {
        n
    };
    let e0 = if (end as nat) < n {
        end as nat
    } else {
        n
    };
    let e = if e0 < s {
        s
    } else {
        e0
    };
    (s, e)
}

impl ListStateView {
    /// The items of `[start, end)` replaced by fresh items with `handles` as
    /// their focus handles; a scroll position inside the run moves to its
    /// start, one after it shifts by the change in length.
    pub open spec fn splice_spec(self, start: usize, end: usize, handles: Seq<Option<FocusId>>) -> ListStateView {
        let (s, e) = clamp_run(self.items.len(), start, end);
        let items = self.items.subrange(0, s as int) + handles.map_values(
            |h: Option<FocusId>| fresh_item(h),
        ) + self.items.subrange(e as int, self.items.len() as int);
        let top = match self.logical_scroll_top {
            Some(o) => Some(
                if start <= o.item_ix && o.item_ix < end {
                    ListOffset { item_ix: start, offset_in_item: Pixels(0) }
                } else if end <= o.item_ix {
                    ListOffset {
                        item_ix: (o.item_ix - (end - start) + handles.len()) as usize,
                        offset_in_item: o.offset_in_item,
                    }
                } else {
                    o
                },
            ),
            None => None,
        };
        ListStateView { items, logical_scroll_top: top, ..self }
    }

    /// The items of `[start, end)` to be measured again, keeping their best
    /// known sizes as hints; when the scroll position lies in the run, the
    /// adjustment that keeps it is recorded: its offset, or (proportionally)
    /// its fraction of the item's measured height.
    pub open spec fn remeasure_spec(self, start: usize, end: usize, proportional: bool) -> ListStateView {
        let (s, e) = clamp_run(self.items.len(), start, end);
        let items = self.items.subrange(0, s as int) + self.items.subrange(s as int, e as int).map_values(
            |it: ListItem| invalidated(it),
        ) + self.items.subrange(e as int, self.items.len() as int);
        let pending = match self.logical_scroll_top {
            Some(st) => if start <= st.item_ix && st.item_ix < end {
                if !proportional {
                    Some(
                        PendingScroll::Absolute {
                            item_ix: st.item_ix,
                            offset: st.offset_in_item,
                        },
                    )
                } else if st.item_ix < self.items.len() && self.items[st.item_ix as int] is Measured {
                    let h = self.items[st.item_ix as int]->Measured_size.height.0 as int;
                    let (num, den) = fraction_spec(st.offset_in_item.0 as int, h);
                    Some(
                        PendingScroll::Proportional {
                            item_ix: st.item_ix,
                            numerator: num as i64,
                            denominator: den as i64,
                        },
                    )
                } else {
                    self.pending_scroll
                }
            } else {
                self.pending_scroll
            },
            None => self.pending_scroll,
        };
        ListStateView {
            items,
            pending_scroll: pending,
            measuring_behavior: measuring_reset(self.measuring_behavior),
            ..self
        }
    }
}

/// An item placed by a layout: its index and the size it was rendered at.
#[derive(Clone, Copy, Debug, PartialEq, Eq, Structural)]
pub struct ItemLayout {
    pub index: usize,
    pub size: Size,
}

/// The heights of the first `n` sizes (of all when `n` exceeds their number).
pub open spec fn size_prefix(sizes: Seq<Size>, n: nat) -> int
    decreases n,
{
    if n == 0 {
        0
    } else if n > sizes.len() {
        size_prefix(sizes, sizes.len())
    } else {
        size_prefix(sizes, (n - 1) as nat) + sizes[n - 1].height.0
    }
}

/// Every size is storable and not negative in height.
pub open spec fn sizes_ok(sizes: Seq<Size>) -> bool {
    forall|i: int| 0 <= i < sizes.len() ==> (#[trigger] sizes[i]).wf() && sizes[i].height.0 >= 0
}

/// Whether the item's focus handle is among those that contain the focus.
pub open spec fn focus_in(it: ListItem, focused: Seq<FocusId>) -> bool {
    match it.focus_handle_spec() {
        Some(h) => focused.contains(h),
        None => false,
    }
}

/// An item is rendered by a layout when it lies (partly) in the viewport or its
/// height is not known from an earlier measurement.
pub open spec fn needs_render(it: ListItem, vis: int, avail: int) -> bool {
    vis < avail || it is Unmeasured
}

/// The size a layout gives an item: the size it renders at when it is
/// rendered, else its measured size.
pub open spec fn laid_size(it: ListItem, size: Size, vis: int, avail: int) -> Size {
    if needs_render(it, vis, avail) {
        size
    } else {
        it->Measured_size
    }
}

/// What a pass over consecutive items of a layout found.
pub ghost struct ScanResult {
    /// Where the pass stopped.
    pub end: nat,
    /// The content height reached, padding included.
    pub rendered: int,
    /// The items placed in the viewport.
    pub layouts: Seq<ItemLayout>,
    /// The items passed over, now measured.
    pub measured: Seq<ListItem>,
    /// The widest item passed over, and never less than zero.
    pub max_width: int,
    /// Whether an item placed in the viewport contains the focus.
    pub focused_rendered: bool,
}

/// The downward pass of a layout from item `j`, `rendered` pixels below the
/// top of the content box and `o` pixels scrolled into the first item: it
/// measures items until they reach `limit` below the viewport's top (the
/// viewport and the overdraw), rendering those in the viewport `avail` tall
/// and those not measured before.
pub open spec fn fwd_scan(
    items: Seq<ListItem>,
    sizes: Seq<Size>,
    j: nat,
    rendered: int,
    o: int,
    avail: int,
    limit: int,
    focused: Seq<FocusId>,
) -> ScanResult
    decreases items.len() - j,
{
    if j >= items.len() || rendered - o >= limit {
        ScanResult {
            end: j,
            rendered,
            layouts: Seq::empty(),
            measured: Seq::empty(),
            max_width: 0,
            focused_rendered: false,
        }
    } else {
        let it = items[j as int];
        let vis = rendered - o;
        let sz = laid_size(it, sizes[j as int], vis, avail);
        let rest = fwd_scan(items, sizes, j + 1, rendered + sz.height.0, o, avail, limit, focused);
        let laid = vis < avail;
        ScanResult {
            end: rest.end,
            rendered: rest.rendered,
            layouts: (if laid {
                seq![ItemLayout { index: j as usize, size: sz }]
            } else {
                Seq::empty()
            }) + rest.layouts,
            measured: seq![ListItem::Measured { size: sz, focus_handle: it.focus_handle_spec() }]
                + rest.measured,
            max_width: if sz.width.0 > rest.max_width {
                sz.width.0 as int
            } else {
                rest.max_width
            },
            focused_rendered: (laid && focus_in(it, focused)) || rest.focused_rendered,
        }
    }
}

proof fn lemma_fwd_scan_max_width(
    items: Seq<ListItem>,
    sizes: Seq<Size>,
    j: nat,
    rendered: int,
    o: int,
    avail: int,
    limit: int,
    focused: Seq<FocusId>,
)
    ensures
        fwd_scan(items, sizes, j, rendered, o, avail, limit, focused).max_width >= 0,
    decreases items.len() - j,
{
    if !(j >= items.len() || rendered - o >= limit) {
        let it = items[j as int];
        let sz = laid_size(it, sizes[j as int], rendered - o, avail);
        lemma_fwd_scan_max_width(items, sizes, j + 1, rendered + sz.height.0, o, avail, limit, focused);
    }
}

/// The exec record of a pass over items.
struct ScanOut {
    end: usize,
    rendered: i64,
    layouts: Vec<ItemLayout>,
    measured: Vec<ListItem>,
    max_width: i64,
    focused_rendered: bool,
}

fn scan_forward(
    items: &Vec<ListItem>,
    sizes: &Vec<Size>,
    j0: usize,
    rendered0: i64,
    o: i64,
    avail: i64,
    limit: i64,
    focused: &Vec<FocusId>,
) -> (r: ScanOut)
    requires
        items_ok(items@),
        sizes_ok(sizes@),
        sizes@.len() == items@.len(),
        j0 <= items@.len(),
        total_height(items@) + size_prefix(sizes@, sizes@.len()) <= COORD_LIMIT,
        -2 * COORD_LIMIT <= rendered0 <= 2 * COORD_LIMIT,
        list_offset_ok(o as int),
        -8 * COORD_LIMIT <= avail <= 8 * COORD_LIMIT,
        -8 * COORD_LIMIT <= limit <= 8 * COORD_LIMIT,
    ensures
        ({
            let sr = fwd_scan(
                items@,
                sizes@,
                j0 as nat,
                rendered0 as int,
                o as int,
                avail as int,
                limit as int,
                focused@,
            );
            &&& r.end == sr.end
            &&& r.rendered == sr.rendered
            &&& r.layouts@ == sr.layouts
            &&& r.measured@ == sr.measured
            &&& r.max_width == sr.max_width
            &&& r.focused_rendered == sr.focused_rendered
        }),
        j0 <= r.end <= items@.len(),
        r.measured@.len() == r.end - j0,
        rendered0 <= r.rendered <= rendered0 + COORD_LIMIT,
        0 <= r.max_width <= COORD_LIMIT,
        forall|x: int|
            0 <= x < r.measured@.len() ==> item_ok(#[trigger] r.measured@[x]) && item_height(
                r.measured@[x],
            ) <= item_height(items@[j0 + x]) + sizes@[j0 + x].height.0
                && r.measured@[x].focus_handle_spec() == items@[j0 + x].focus_handle_spec(),
        forall|x: int|
            0 <= x < r.layouts@.len() ==> (#[trigger] r.layouts@[x]).index < items@.len()
                && r.layouts@[x].size == sizes@[r.layouts@[x].index as int],
{
    let ghost sr0 = fwd_scan(
        items@,
        sizes@,
        j0 as nat,
        rendered0 as int,
        o as int,
        avail as int,
        limit as int,
        focused@,
    );
    let mut j: usize = j0;
    let mut rendered: i64 = rendered0;
    let mut layouts: Vec<ItemLayout> = Vec::new();
    let mut measured: Vec<ListItem> = Vec::new();
    let mut max_width: i64 = 0;
    let mut focused_rendered = false;
    proof {
        lemma_prefix_bounds(items@, j0 as nat, items@.len());
        lemma_size_prefix_mono(sizes@, j0 as nat, sizes@.len());
        lemma_size_prefix_nonneg(sizes@, j0 as nat);
        lemma_fwd_scan_max_width(
            items@,
            sizes@,
            j0 as nat,
            rendered0 as int,
            o as int,
            avail as int,
            limit as int,
            focused@,
        );
        assert(layouts@ + sr0.layouts =~= sr0.layouts);
        assert(measured@ + sr0.measured =~= sr0.measured);
    }
    while j < items.len() && rendered - o < limit
        invariant
            j0 <= j <= items@.len(),
            items_ok(items@),
            sizes_ok(sizes@),
            sizes@.len() == items@.len(),
            total_height(items@) + size_prefix(sizes@, sizes@.len()) <= COORD_LIMIT,
            -2 * COORD_LIMIT <= rendered0 <= 2 * COORD_LIMIT,
            list_offset_ok(o as int),
            -8 * COORD_LIMIT <= avail <= 8 * COORD_LIMIT,
            -8 * COORD_LIMIT <= limit <= 8 * COORD_LIMIT,
            rendered0 <= rendered <= rendered0 + COORD_LIMIT,
            rendered - rendered0 <= (prefix_height(items@, j as nat) - prefix_height(items@, j0 as nat))
                + (size_prefix(sizes@, j as nat) - size_prefix(sizes@, j0 as nat)),
            0 <= max_width <= COORD_LIMIT,
            measured@.len() == j - j0,
            sr0 == fwd_scan(
                items@,
                sizes@,
                j0 as nat,
                rendered0 as int,
                o as int,
                avail as int,
                limit as int,
                focused@,
            ),
            ({
                let rest = fwd_scan(
                    items@,
                    sizes@,
                    j as nat,
                    rendered as int,
                    o as int,
                    avail as int,
                    limit as int,
                    focused@,
                );
                &&& sr0.end == rest.end
                &&& sr0.rendered == rest.rendered
                &&& sr0.layouts == layouts@ + rest.layouts
                &&& sr0.measured == measured@ + rest.measured
                &&& sr0.max_width == (if max_width > rest.max_width {
                    max_width as int
                } else {
                    rest.max_width
                })
                &&& sr0.focused_rendered == (focused_rendered || rest.focused_rendered)
            }),
            forall|x: int|
                0 <= x < measured@.len() ==> item_ok(#[trigger] measured@[x]) && item_height(
                    measured@[x],
                ) <= item_height(items@[j0 + x]) + sizes@[j0 + x].height.0
                    && measured@[x].focus_handle_spec() == items@[j0 + x].focus_handle_spec(),
            forall|x: int|
                0 <= x < layouts@.len() ==> (#[trigger] layouts@[x]).index < items@.len()
                    && layouts@[x].size == sizes@[layouts@[x].index as int],
        decreases items@.len() - j,
    {
        proof {
            lemma_prefix_bounds(items@, j0 as nat, (j + 1) as nat);
            lemma_prefix_bounds(items@, (j + 1) as nat, items@.len());
            lemma_size_prefix_mono(sizes@, j0 as nat, (j + 1) as nat);
            lemma_size_prefix_mono(sizes@, (j + 1) as nat, sizes@.len());
            lemma_size_prefix_nonneg(sizes@, j0 as nat);
            assert(item_ok(items@[j as int]));
            assert(sizes@[j as int].wf());
        }
        let it = items[j];
        let vis = rendered - o;
        let sz = laid_size_exec(&it, sizes[j], vis, avail);
        let laid = vis < avail;
        let ghost rest = fwd_scan(
            items@,
            sizes@,
            (j + 1) as nat,
            (rendered + sz.height.0) as int,
            o as int,
            avail as int,
            limit as int,
            focused@,
        );
        let ghost old_layouts = layouts@;
        let ghost old_measured = measured@;
        let ghost old_max = max_width;
        let ghost old_focus = focused_rendered;
        if laid {
            layouts.push(ItemLayout { index: j, size: sz });
            if focus_in_exec(&it, focused) {
                focused_rendered = true;
            }
        }
        measured.push(ListItem::Measured { size: sz, focus_handle: it.focus_handle() });
        if sz.width.0 > max_width {
            max_width = sz.width.0;
        }
        rendered = rendered + sz.height.0;
        j = j + 1;
        proof {
            let here = fwd_scan(
                items@,
                sizes@,
                (j - 1) as nat,
                (rendered - sz.height.0) as int,
                o as int,
                avail as int,
                limit as int,
                focused@,
            );
            assert(here.layouts == (if laid {
                seq![ItemLayout { index: (j - 1) as usize, size: sz }]
            } else {
                Seq::empty()
            }) + rest.layouts);
            assert(here.measured == seq![ListItem::Measured { size: sz, focus_handle: it.focus_handle_spec() }]
                + rest.measured);
            if laid {
                assert(old_layouts + (seq![ItemLayout { index: (j - 1) as usize, size: sz }]
                    + rest.layouts) =~= layouts@ + rest.layouts);
            } else {
                assert(old_layouts + (Seq::<ItemLayout>::empty() + rest.layouts) =~= layouts@
                    + rest.layouts);
            }
            assert(old_measured + (seq![ListItem::Measured { size: sz, focus_handle: it.focus_handle_spec() }]
                + rest.measured) =~= measured@ + rest.measured);
            assert forall|x: int| 0 <= x < measured@.len() implies item_ok(#[trigger] measured@[x])
                && item_height(measured@[x]) <= item_height(items@[j0 + x]) + sizes@[j0 + x].height.0
                && measured@[x].focus_handle_spec() == items@[j0 + x].focus_handle_spec() by {
                if x < old_measured.len() {
                    assert(measured@[x] == old_measured[x]);
                } else {
                    assert(j0 + x == j - 1);
                }
            }
        }
    }
    ScanOut { end: j, rendered, layouts, measured, max_width, focused_rendered }
}

/// The upward pass of a layout that fills a viewport `avail` tall left
/// partly empty: from item `j`, with `rendered` pixels of content, it renders
/// the items above until the content fills the viewport or the first item is
/// reached; the result lists them top to bottom.
pub open spec fn bwd_fill(
    items: Seq<ListItem>,
    sizes: Seq<Size>,
    j: nat,
    rendered: int,
    avail: int,
    focused: Seq<FocusId>,
) -> ScanResult
    decreases j,
{
    if rendered >= avail || j == 0 {
        ScanResult {
            end: j,
            rendered,
            layouts: Seq::empty(),
            measured: Seq::empty(),
            max_width: 0,
            focused_rendered: false,
        }
    } else {
        let k = (j - 1) as nat;
        let it = items[k as int];
        let sz = sizes[k as int];
        let r = bwd_fill(items, sizes, k, rendered + sz.height.0, avail, focused);
        ScanResult {
            end: r.end,
            rendered: r.rendered,
            layouts: r.layouts + seq![ItemLayout { index: k as usize, size: sz }],
            measured: r.measured + seq![ListItem::Measured { size: sz, focus_handle: it.focus_handle_spec() }],
            max_width: 0,
            focused_rendered: r.focused_rendered || focus_in(it, focused),
        }
    }
}

/// The measuring of the items above item `j` that the overdraw covers: with
/// `leading` pixels covered, items are measured (rendering those not measured
/// before) until the overdraw is covered or the first item is reached; the
/// result is where it stopped and the items top to bottom.
pub open spec fn lead_scan(
    items: Seq<ListItem>,
    sizes: Seq<Size>,
    j: nat,
    leading: int,
    overdraw: int,
) -> (nat, Seq<ListItem>)
    decreases j,
{
    if leading >= overdraw || j == 0 {
        (j, Seq::empty())
    } else {
        let k = (j - 1) as nat;
        let it = items[k as int];
        let size = match it {
            ListItem::Measured { size, .. } => size,
            ListItem::Unmeasured { .. } => sizes[k as int],
        };
        let r = lead_scan(items, sizes, k, leading + size.height.0, overdraw);
        (r.0, r.1 + seq![ListItem::Measured { size, focus_handle: it.focus_handle_spec() }])
    }
}

fn scan_backward(
    items: &Vec<ListItem>,
    sizes: &Vec<Size>,
    j0: usize,
    rendered0: i64,
    avail: i64,
    focused: &Vec<FocusId>,
) -> (r: ScanOut)
    requires
        items_ok(items@),
        sizes_ok(sizes@),
        sizes@.len() == items@.len(),
        j0 <= items@.len(),
        total_height(items@) + size_prefix(sizes@, sizes@.len()) <= COORD_LIMIT,
        -4 * COORD_LIMIT <= rendered0 <= 4 * COORD_LIMIT,
        -8 * COORD_LIMIT <= avail <= 8 * COORD_LIMIT,
    ensures
        ({
            let sr = bwd_fill(items@, sizes@, j0 as nat, rendered0 as int, avail as int, focused@);
            &&& r.end == sr.end
            &&& r.rendered == sr.rendered
            &&& r.layouts@ == sr.layouts
            &&& r.measured@ == sr.measured
            &&& r.focused_rendered == sr.focused_rendered
        }),
        r.end <= j0,
        r.measured@.len() == j0 - r.end,
        rendered0 <= r.rendered <= rendered0 + COORD_LIMIT,
        r.rendered == rendered0 || r.rendered < avail + COORD_LIMIT,
        r.max_width == 0,
        forall|x: int|
            0 <= x < r.measured@.len() ==> item_ok(#[trigger] r.measured@[x]) && item_height(
                r.measured@[x],
            ) <= item_height(items@[r.end + x]) + sizes@[r.end + x].height.0
                && r.measured@[x].focus_handle_spec() == items@[r.end + x].focus_handle_spec(),
        forall|x: int|
            0 <= x < r.layouts@.len() ==> (#[trigger] r.layouts@[x]).index < items@.len()
                && r.layouts@[x].size == sizes@[r.layouts@[x].index as int],
{
    let ghost sr0 = bwd_fill(items@, sizes@, j0 as nat, rendered0 as int, avail as int, focused@);
    let mut j: usize = j0;
    let mut rendered: i64 = rendered0;
    let mut layouts: Vec<ItemLayout> = Vec::new();
    let mut measured: Vec<ListItem> = Vec::new();
    let mut focused_rendered = false;
    proof {
        lemma_prefix_bounds(items@, j0 as nat, items@.len());
        lemma_size_prefix_mono(sizes@, j0 as nat, sizes@.len());
        assert(sr0.layouts + layouts@ =~= sr0.layouts);
        assert(sr0.measured + measured@ =~= sr0.measured);
    }
    while j > 0 && rendered < avail
        invariant
            j <= j0 <= items@.len(),
            items_ok(items@),
            sizes_ok(sizes@),
            sizes@.len() == items@.len(),
            total_height(items@) + size_prefix(sizes@, sizes@.len()) <= COORD_LIMIT,
            -4 * COORD_LIMIT <= rendered0 <= 4 * COORD_LIMIT,
            -8 * COORD_LIMIT <= avail <= 8 * COORD_LIMIT,
            rendered0 <= rendered <= rendered0 + COORD_LIMIT,
            rendered == rendered0 || rendered < avail + COORD_LIMIT,
            rendered - rendered0 <= size_prefix(sizes@, j0 as nat) - size_prefix(sizes@, j as nat),
            measured@.len() == j0 - j,
            sr0 == bwd_fill(items@, sizes@, j0 as nat, rendered0 as int, avail as int, focused@),
            ({
                let rest = bwd_fill(items@, sizes@, j as nat, rendered as int, avail as int, focused@);
                &&& sr0.end == rest.end
                &&& sr0.rendered == rest.rendered
                &&& sr0.layouts == rest.layouts + layouts@
                &&& sr0.measured == rest.measured + measured@
                &&& sr0.focused_rendered == (rest.focused_rendered || focused_rendered)
            }),
            forall|x: int|
                0 <= x < measured@.len() ==> item_ok(#[trigger] measured@[x]) && item_height(
                    measured@[x],
                ) <= item_height(items@[j + x]) + sizes@[j + x].height.0
                    && measured@[x].focus_handle_spec() == items@[j + x].focus_handle_spec(),
            forall|x: int|
                0 <= x < layouts@.len() ==> (#[trigger] layouts@[x]).index < items@.len()
                    && layouts@[x].size == sizes@[layouts@[x].index as int],
        decreases j,
    {
        let k = j - 1;
        proof {
            lemma_size_prefix_mono(sizes@, k as nat, j0 as nat);
            lemma_size_prefix_mono(sizes@, j0 as nat, sizes@.len());
            lemma_size_prefix_nonneg(sizes@, k as nat);
            lemma_prefix_nonneg(items@, items@.len());
            assert(size_prefix(sizes@, j as nat) == size_prefix(sizes@, k as nat) + sizes@[k as int].height.0);
            assert(sizes@[k as int].wf());
            assert(item_ok(items@[k as int]));
            lemma_item_height_nonneg(items@[k as int]);
        }
        let it = items[k];
        let sz = sizes[k];
        let ghost old_layouts = layouts@;
        let ghost old_measured = measured@;
        let ghost rest = bwd_fill(items@, sizes@, k as nat, (rendered + sz.height.0) as int, avail as int, focused@);
        layouts.insert(0, ItemLayout { index: k, size: sz });
        measured.insert(0, ListItem::Measured { size: sz, focus_handle: it.focus_handle() });
        if focus_in_exec(&it, focused) {
            focused_rendered = true;
        }
        rendered = rendered + sz.height.0;
        j = k;
        proof {
            assert(layouts@ =~= seq![ItemLayout { index: k, size: sz }] + old_layouts);
            assert(measured@ =~= seq![ListItem::Measured { size: sz, focus_handle: it.focus_handle_spec() }]
                + old_measured);
            assert(rest.layouts + seq![ItemLayout { index: k, size: sz }] + old_layouts =~= rest.layouts
                + layouts@);
            assert(rest.measured + seq![ListItem::Measured { size: sz, focus_handle: it.focus_handle_spec() }]
                + old_measured =~= rest.measured + measured@);
            assert forall|x: int| 0 <= x < measured@.len() implies item_ok(#[trigger] measured@[x])
                && item_height(measured@[x]) <= item_height(items@[j + x]) + sizes@[j + x].height.0
                && measured@[x].focus_handle_spec() == items@[j + x].focus_handle_spec() by {
                if x > 0 {
                    assert(measured@[x] == old_measured[x - 1]);
                }
            }
            assert forall|x: int| 0 <= x < layouts@.len() implies (#[trigger] layouts@[x]).index < items@.len()
                && layouts@[x].size == sizes@[layouts@[x].index as int] by {
                if x > 0 {
                    assert(layouts@[x] == old_layouts[x - 1]);
                }
            }
        }
    }
    proof {
        let rest = bwd_fill(items@, sizes@, j as nat, rendered as int, avail as int, focused@);
        assert(rest.layouts + layouts@ =~= layouts@);
        assert(rest.measured + measured@ =~= measured@);
    }
    ScanOut { end: j, rendered, layouts, measured, max_width: 0, focused_rendered }
}

proof fn lemma_item_height_nonneg(it: ListItem)
    requires
        item_ok(it),
    ensures
        0 <= item_height(it) <= COORD_LIMIT,
{
}

fn scan_leading(
    items: &Vec<ListItem>,
    sizes: &Vec<Size>,
    j0: usize,
    leading0: i64,
    overdraw: i64,
) -> (r: (usize, Vec<ListItem>))
    requires
        items_ok(items@),
        sizes_ok(sizes@),
        sizes@.len() == items@.len(),
        j0 <= items@.len(),
        total_height(items@) + size_prefix(sizes@, sizes@.len()) <= COORD_LIMIT,
        -8 * COORD_LIMIT <= leading0 <= 8 * COORD_LIMIT,
        coord_ok(overdraw as int),
    ensures
        r.0 == lead_scan(items@, sizes@, j0 as nat, leading0 as int, overdraw as int).0,
        r.1@ == lead_scan(items@, sizes@, j0 as nat, leading0 as int, overdraw as int).1,
        r.0 <= j0,
        r.1@.len() == j0 - r.0,
        forall|x: int|
            0 <= x < r.1@.len() ==> item_ok(#[trigger] r.1@[x]) && item_height(r.1@[x]) <= item_height(
                items@[r.0 + x],
            ) + sizes@[r.0 + x].height.0 && r.1@[x].focus_handle_spec()
                == items@[r.0 + x].focus_handle_spec(),
{
    let ghost lr0 = lead_scan(items@, sizes@, j0 as nat, leading0 as int, overdraw as int);
    let mut j: usize = j0;
    let mut leading: i64 = leading0;
    let mut measured: Vec<ListItem> = Vec::new();
    proof {
        assert(lr0.1 + measured@ =~= lr0.1);
    }
    while j > 0 && leading < overdraw
        invariant
            j <= j0 <= items@.len(),
            items_ok(items@),
            sizes_ok(sizes@),
            sizes@.len() == items@.len(),
            total_height(items@) + size_prefix(sizes@, sizes@.len()) <= COORD_LIMIT,
            -8 * COORD_LIMIT <= leading0 <= leading,
            coord_ok(overdraw as int),
            leading < overdraw + COORD_LIMIT || leading == leading0,
            measured@.len() == j0 - j,
            lr0 == lead_scan(items@, sizes@, j0 as nat, leading0 as int, overdraw as int),
            ({
                let rest = lead_scan(items@, sizes@, j as nat, leading as int, overdraw as int);
                &&& lr0.0 == rest.0
                &&& lr0.1 == rest.1 + measured@
            }),
            forall|x: int|
                0 <= x < measured@.len() ==> item_ok(#[trigger] measured@[x]) && item_height(
                    measured@[x],
                ) <= item_height(items@[j + x]) + sizes@[j + x].height.0
                    && measured@[x].focus_handle_spec() == items@[j + x].focus_handle_spec(),
        decreases j,
    {
        let k = j - 1;
        proof {
            assert(item_ok(items@[k as int]));
            assert(sizes@[k as int].wf());
            lemma_size_prefix_nonneg(sizes@, k as nat);
        }
        let it = items[k];
        let size = match it {
            ListItem::Measured { size, .. } => size,
            ListItem::Unmeasured { .. } => sizes[k],
        };
        let ghost old_measured = measured@;
        let ghost rest = lead_scan(items@, sizes@, k as nat, (leading + size.height.0) as int, overdraw as int);
        measured.insert(0, ListItem::Measured { size, focus_handle: it.focus_handle() });
        leading = leading + size.height.0;
        j = k;
        proof {
            assert(measured@ =~= seq![ListItem::Measured { size, focus_handle: it.focus_handle_spec() }]
                + old_measured);
            assert(rest.1 + seq![ListItem::Measured { size, focus_handle: it.focus_handle_spec() }]
                + old_measured =~= rest.1 + measured@);
            assert forall|x: int| 0 <= x < measured@.len() implies item_ok(#[trigger] measured@[x])
                && item_height(measured@[x]) <= item_height(items@[j + x]) + sizes@[j + x].height.0
                && measured@[x].focus_handle_spec() == items@[j + x].focus_handle_spec() by {
                if x > 0 {
                    assert(measured@[x] == old_measured[x - 1]);
                } else {
                    lemma_item_height_nonneg(items@[k as int]);
                }
            }
        }
    }
    proof {
        let rest = lead_scan(items@, sizes@, j as nat, leading as int, overdraw as int);
        assert(rest.1 + measured@ =~= measured@);
    }
    (j, measured)
}

/// The offset into the top item that a pending adjustment restores once the
/// item, now `h` tall, was rendered: the kept offset (no more than the item's
/// height) or the kept fraction of the height; none when the adjustment is
/// for another item.
pub open spec fn apply_pending_spec(pending: Option<PendingScroll>, ix: usize, h: int) -> Option<int> {
    match pending {
        Some(PendingScroll::Absolute { item_ix, offset }) => if item_ix == ix {
            Some(
                if (offset.0 as int) < h {
                    offset.0 as int
                } else {
                    h
                },
            )
        } else {
            None
        },
        Some(PendingScroll::Proportional { item_ix, numerator, denominator }) => if item_ix == ix {
            Some(numerator * h / (denominator as int))
        } else {
            None
        },
        None => None,
    }
}

/// The downward pass of a layout from the top item `a`: the top item is placed
/// with offset `o`, the items after it with offset `o2` (the offset that a
/// pending adjustment restored once the top item was rendered).
pub open spec fn fwd_pass(
    items: Seq<ListItem>,
    sizes: Seq<Size>,
    a: nat,
    top: int,
    o: int,
    o2: int,
    avail: int,
    limit: int,
    focused: Seq<FocusId>,
) -> ScanResult {
    if a >= items.len() || top - o >= limit {
        fwd_scan(items, sizes, a, top, o, avail, limit, focused)
    } else {
        let it = items[a as int];
        let vis = top - o;
        let sz = laid_size(it, sizes[a as int], vis, avail);
        let rest = fwd_scan(items, sizes, a + 1, top + sz.height.0, o2, avail, limit, focused);
        let laid = vis < avail;
        ScanResult {
            end: rest.end,
            rendered: rest.rendered,
            layouts: (if laid {
                seq![ItemLayout { index: a as usize, size: sz }]
            } else {
                Seq::empty()
            }) + rest.layouts,
            measured: seq![ListItem::Measured { size: sz, focus_handle: it.focus_handle_spec() }]
                + rest.measured,
            max_width: if sz.width.0 > rest.max_width {
                sz.width.0 as int
            } else {
                rest.max_width
            },
            focused_rendered: (laid && focus_in(it, focused)) || rest.focused_rendered,
        }
    }
}

/// The first item from `i` on whose focus handle contains the focus.
pub open spec fn first_focused(items: Seq<ListItem>, focused: Seq<FocusId>, i: nat) -> Option<nat>
    decreases items.len() - i,
{
    if i >= items.len() {
        None
    } else if focus_in(items[i as int], focused) {
        Some(i)
    } else {
        first_focused(items, focused, i + 1)
    }
}

/// What a layout placed.
pub ghost struct LayoutView {
    pub max_item_width: int,
    pub scroll_top: ListOffset,
    pub layouts: Seq<ItemLayout>,
}

/// The start of a layout: the scroll position it starts from (the end when
/// following the tail), the offset into the top item (restored by a pending
/// adjustment once that item is rendered), and the state with both recorded.
pub open spec fn layout_start_spec(v: ListStateView, avail: int, top: int, sizes: Seq<Size>) -> (
    ListOffset,
    int,
    ListStateView,
) {
    let n = v.items.len();
    let following = v.follow_state == FollowState::Tail { is_following: true };
    let st0 = if following {
        ListOffset { item_ix: n as usize, offset_in_item: Pixels(0) }
    } else {
        v.logical_scroll_top_spec()
    };
    let logical0 = if following {
        Some(st0)
    } else {
        v.logical_scroll_top
    };
    let a = st0.item_ix as nat;
    let o = st0.offset_in_item.0 as int;
    let limit = avail + v.overdraw.0;
    let first = a < n && top - o < limit;
    let render0 = first && needs_render(v.items[a as int], top - o, avail);
    let adj = if render0 {
        apply_pending_spec(v.pending_scroll, st0.item_ix, sizes[a as int].height.0 as int)
    } else {
        None
    };
    let o2 = match adj {
        Some(x) => x,
        None => o,
    };
    let logical1 = match adj {
        Some(x) => Some(ListOffset { item_ix: st0.item_ix, offset_in_item: Pixels(x as i64) }),
        None => logical0,
    };
    let pending1 = if render0 {
        None
    } else {
        v.pending_scroll
    };
    (st0, o2, ListStateView { logical_scroll_top: logical1, pending_scroll: pending1, ..v })
}

/// The passes of a layout over the items.
pub ghost struct PassesView {
    pub fwd: ScanResult,
    pub fill: bool,
    pub bwd: ScanResult,
    pub scroll_top: ListOffset,
    pub lead_start: nat,
    pub lead: Seq<ListItem>,
}

/// The passes of a layout from scroll position `st0` with offset `o2` past
/// the top item: downward through the viewport and the overdraw; upward to
/// fill a viewport left partly empty, which moves the scroll position up
/// (never above the content's top for a top-aligned list); and upward
/// through the overdraw above the scroll position.
pub open spec fn layout_passes_spec(
    v: ListStateView,
    st0: ListOffset,
    o2: int,
    avail: int,
    pad: Edges,
    sizes: Seq<Size>,
    focused: Seq<FocusId>,
) -> PassesView {
    let a = st0.item_ix as nat;
    let o = st0.offset_in_item.0 as int;
    let limit = avail + v.overdraw.0;
    let fwd = fwd_pass(v.items, sizes, a, pad.top.0 as int, o, o2, avail, limit, focused);
    let total_r = fwd.rendered + pad.bottom.0;
    let fill = total_r - o2 < avail;
    let bwd = if fill {
        bwd_fill(v.items, sizes, a, total_r, avail, focused)
    } else {
        ScanResult {
            end: a,
            rendered: total_r,
            layouts: Seq::empty(),
            measured: Seq::empty(),
            max_width: 0,
            focused_rendered: false,
        }
    };
    let st2 = if fill {
        ListOffset {
            item_ix: bwd.end as usize,
            offset_in_item: Pixels(
                (if v.alignment == ListAlignment::Top {
                    max0(bwd.rendered - avail)
                } else {
                    bwd.rendered - avail
                }) as i64,
            ),
        }
    } else {
        ListOffset { item_ix: st0.item_ix, offset_in_item: Pixels(o2 as i64) }
    };
    let lead = lead_scan(v.items, sizes, bwd.end, st2.offset_in_item.0 as int, v.overdraw.0 as int);
    PassesView { fwd, fill, bwd, scroll_top: st2, lead_start: lead.0, lead: lead.1 }
}

/// The end of a layout: the measured items replace the old ones; a
/// viewport that had to be filled upward keeps the new scroll position (a
/// bottom-aligned list keeps none); a list that stopped following its tail
/// follows it again when scrolled to within a pixel of the bottom; and, when
/// no placed item holds the focus, the first item that does is placed too.
pub open spec fn layout_finish_spec(
    v: ListStateView,
    p: PassesView,
    avail: int,
    pad: Edges,
    sizes: Seq<Size>,
    focused: Seq<FocusId>,
) -> (ListStateView, LayoutView) {
    let n = v.items.len();
    let st2 = p.scroll_top;
    let logical2 = if p.fill {
        if v.alignment == ListAlignment::Top {
            Some(st2)
        } else {
            None
        }
    } else {
        v.logical_scroll_top
    };
    let items2 = v.items.subrange(0, p.lead_start as int) + p.lead + p.bwd.measured + p.fwd.measured
        + v.items.subrange(p.fwd.end as int, n as int);
    let follow2 = if v.follow_state == (FollowState::Tail { is_following: false })
        && prefix_height(items2, st2.item_ix as nat) + st2.offset_in_item.0 + avail
        >= total_height(items2) + pad.top.0 + pad.bottom.0 - 1 {
        FollowState::Tail { is_following: true }
    } else {
        v.follow_state
    };
    let extra = if !(p.fwd.focused_rendered || p.bwd.focused_rendered) {
        first_focused(items2, focused, 0)
    } else {
        None
    };
    let layouts = p.bwd.layouts + p.fwd.layouts + match extra {
        Some(i) => seq![ItemLayout { index: i as usize, size: sizes[i as int] }],
        None => Seq::empty(),
    };
    (
        ListStateView { items: items2, logical_scroll_top: logical2, follow_state: follow2, ..v },
        LayoutView { max_item_width: p.fwd.max_width, scroll_top: st2, layouts },
    )
}

/// A layout of the list in a viewport `avail` tall with `pad` around its
/// content, where item `i` renders at `sizes[i]` and the focus lies within the
/// handles `focused`: its start, its passes and its end, as above.
pub open spec fn layout_spec(
    v: ListStateView,
    avail: int,
    pad: Edges,
    sizes: Seq<Size>,
    focused: Seq<FocusId>,
) -> (ListStateView, LayoutView) {
    let (st0, o2, v1) = layout_start_spec(v, avail, pad.top.0 as int, sizes);
    let p = layout_passes_spec(v1, st0, o2, avail, pad, sizes, focused);
    layout_finish_spec(v1, p, avail, pad, sizes, focused)
}

proof fn lemma_bounded_heights(new_items: Seq<ListItem>, items: Seq<ListItem>, sizes: Seq<Size>, k: nat)
    requires
        new_items.len() == items.len(),
        sizes.len() == items.len(),
        k <= items.len(),
        forall|i: int|
            0 <= i < items.len() ==> item_height(#[trigger] new_items[i]) <= item_height(items[i])
                + sizes[i].height.0,
    ensures
        prefix_height(new_items, k) <= prefix_height(items, k) + size_prefix(sizes, k),
    decreases k,
{
    if k > 0 {
        lemma_bounded_heights(new_items, items, sizes, (k - 1) as nat);
        assert(item_height(new_items[k - 1]) <= item_height(items[k - 1]) + sizes[k - 1].height.0);
    }
}

/// The five runs that a layout leaves the items in, with the bound on each
/// new height.
proof fn lemma_layout_items_ok(
    items: Seq<ListItem>,
    sizes: Seq<Size>,
    c: nat,
    lead: Seq<ListItem>,
    b: nat,
    back: Seq<ListItem>,
    a: nat,
    fwd: Seq<ListItem>,
    e: nat,
)
    requires
        items_ok(items),
        sizes_ok(sizes),
        sizes.len() == items.len(),
        total_height(items) + size_prefix(sizes, sizes.len()) <= COORD_LIMIT,
        c <= b <= a <= e <= items.len(),
        lead.len() == b - c,
        back.len() == a - b,
        fwd.len() == e - a,
        forall|x: int|
            0 <= x < lead.len() ==> item_ok(#[trigger] lead[x]) && item_height(lead[x]) <= item_height(
                items[c + x],
            ) + sizes[c + x].height.0,
        forall|x: int|
            0 <= x < back.len() ==> item_ok(#[trigger] back[x]) && item_height(back[x]) <= item_height(
                items[b + x],
            ) + sizes[b + x].height.0,
        forall|x: int|
            0 <= x < fwd.len() ==> item_ok(#[trigger] fwd[x]) && item_height(fwd[x]) <= item_height(
                items[a + x],
            ) + sizes[a + x].height.0,
    ensures
        ({
            let new_items = items.subrange(0, c as int) + lead + back + fwd + items.subrange(
                e as int,
                items.len() as int,
            );
            &&& new_items.len() == items.len()
            &&& items_ok(new_items)
            &&& total_height(new_items) <= COORD_LIMIT
        }),
{
    let new_items = items.subrange(0, c as int) + lead + back + fwd + items.subrange(
        e as int,
        items.len() as int,
    );
    assert(new_items.len() == items.len());
    assert forall|i: int| 0 <= i < items.len() implies item_ok(#[trigger] new_items[i]) && item_height(
        new_items[i],
    ) <= item_height(items[i]) + sizes[i].height.0 by {
        assert(item_ok(items[i]));
        assert(sizes[i].height.0 >= 0);
        if i < c {
            assert(new_items[i] == items[i]);
        } else if i < b {
            assert(new_items[i] == lead[i - c]);
        } else if i < a {
            assert(new_items[i] == back[i - b]);
        } else if i < e {
            assert(new_items[i] == fwd[i - a]);
        } else {
            assert(new_items[i] == items[i]);
        }
    }
    lemma_bounded_heights(new_items, items, sizes, items.len());
    lemma_size_prefix_nonneg(sizes, sizes.len());
}

fn apply_pending(pending: Option<PendingScroll>, ix: usize, h: i64) -> (r: Option<i64>)
    requires
        pending matches Some(p) ==> pending_ok(p),
        0 <= h <= COORD_LIMIT,
    ensures
        match apply_pending_spec(pending, ix, h as int) {
            Some(x) => r == Some(x as i64) && list_offset_ok(x) && x <= h,
            None => r is None,
        },
{
    match pending {
        Some(PendingScroll::Absolute { item_ix, offset }) => if item_ix == ix {
            Some(if offset.0 < h { offset.0 } else { h })
        } else {
            None
        },
        Some(PendingScroll::Proportional { item_ix, numerator, denominator }) => if item_ix == ix {
            assert(numerator as int * h as int <= 9223372036854775807 * 1099511627776) by (nonlinear_arith)
                requires
                    0 <= numerator <= 9223372036854775807,
                    0 <= h <= 1099511627776,
            ;
            assert(0 <= numerator * h) by (nonlinear_arith)
                requires
                    0 <= numerator,
                    0 <= h,
            ;
            let prod: i128 = numerator as i128 * h as i128;
            let q: i128 = prod / (denominator as i128);
            assert(0 <= q <= h) by (nonlinear_arith)
                requires
                    q == (numerator * h) / (denominator as int),
                    0 <= numerator <= denominator,
                    denominator > 0,
                    0 <= h,
            ;
            Some(q as i64)
        } else {
            None
        },
        None => None,
    }
}

fn first_focused_exec(items: &Vec<ListItem>, focused: &Vec<FocusId>) -> (r: Option<usize>)
    ensures
        match first_focused(items@, focused@, 0) {
            Some(i) => r == Some(i as usize) && i < items@.len(),
            None => r is None,
        },
{
    let mut i: usize = 0;
    while i < items.len()
        invariant
            i <= items.len(),
            first_focused(items@, focused@, 0) == first_focused(items@, focused@, i as nat),
        decreases items.len() - i,
    {
        if items[i].contains_focused(focused) {
            return Some(i);
        }
        i = i + 1;
    }
    None
}

fn forward_pass(
    items: &Vec<ListItem>,
    sizes: &Vec<Size>,
    a: usize,
    top: i64,
    o: i64,
    o2: i64,
    avail: i64,
    limit: i64,
    focused: &Vec<FocusId>,
) -> (r: ScanOut)
    requires
        items_ok(items@),
        sizes_ok(sizes@),
        sizes@.len() == items@.len(),
        a <= items@.len(),
        total_height(items@) + size_prefix(sizes@, sizes@.len()) <= COORD_LIMIT,
        coord_ok(top as int),
        list_offset_ok(o as int),
        list_offset_ok(o2 as int),
        -8 * COORD_LIMIT <= avail <= 8 * COORD_LIMIT,
        -8 * COORD_LIMIT <= limit <= 8 * COORD_LIMIT,
    ensures
        ({
            let sr = fwd_pass(
                items@,
                sizes@,
                a as nat,
                top as int,
                o as int,
                o2 as int,
                avail as int,
                limit as int,
                focused@,
            );
            &&& r.end == sr.end
            &&& r.rendered == sr.rendered
            &&& r.layouts@ == sr.layouts
            &&& r.measured@ == sr.measured
            &&& r.max_width == sr.max_width
            &&& r.focused_rendered == sr.focused_rendered
        }),
        a <= r.end <= items@.len(),
        r.measured@.len() == r.end - a,
        top <= r.rendered <= top + 2 * COORD_LIMIT,
        0 <= r.max_width <= COORD_LIMIT,
        forall|x: int|
            0 <= x < r.measured@.len() ==> item_ok(#[trigger] r.measured@[x]) && item_height(
                r.measured@[x],
            ) <= item_height(items@[a + x]) + sizes@[a + x].height.0
                && r.measured@[x].focus_handle_spec() == items@[a + x].focus_handle_spec(),
        forall|x: int|
            0 <= x < r.layouts@.len() ==> (#[trigger] r.layouts@[x]).index < items@.len()
                && r.layouts@[x].size == sizes@[r.layouts@[x].index as int],
{
    if a >= items.len() || top - o >= limit {
        return scan_forward(items, sizes, a, top, o, avail, limit, focused);
    }
    proof {
        assert(item_ok(items@[a as int]));
        assert(sizes@[a as int].wf());
    }
    let it = items[a];
    let vis = top - o;
    let sz = laid_size_exec(&it, sizes[a], vis, avail);
    let rest = scan_forward(items, sizes, a + 1, top + sz.height.0, o2, avail, limit, focused);
    let ScanOut {
        end,
        rendered,
        layouts: mut rest_layouts,
        measured: mut rest_measured,
        max_width: rest_max,
        focused_rendered: rest_focused,
    } = rest;
    let ghost rl = rest_layouts@;
    let ghost rm = rest_measured@;
    let mut layouts: Vec<ItemLayout> = Vec::new();
    let mut focused_rendered = rest_focused;
    if vis < avail {
        layouts.push(ItemLayout { index: a, size: sz });
        if focus_in_exec(&it, focused) {
            focused_rendered = true;
        }
    }
    layouts.append(&mut rest_layouts);
    let mut measured: Vec<ListItem> = Vec::new();
    measured.push(ListItem::Measured { size: sz, focus_handle: it.focus_handle() });
    measured.append(&mut rest_measured);
    let max_width = if sz.width.0 > rest_max { sz.width.0 } else { rest_max };
    proof {
        if vis < avail {
            assert(layouts@ =~= seq![ItemLayout { index: a, size: sz }] + rl);
        } else {
            assert(layouts@ =~= Seq::<ItemLayout>::empty() + rl);
        }
        assert(measured@ =~= seq![ListItem::Measured { size: sz, focus_handle: it.focus_handle_spec() }]
            + rm);
        assert forall|x: int| 0 <= x < measured@.len() implies item_ok(#[trigger] measured@[x])
            && item_height(measured@[x]) <= item_height(items@[a + x]) + sizes@[a + x].height.0
            && measured@[x].focus_handle_spec() == items@[a + x].focus_handle_spec() by {
            if x > 0 {
                assert(measured@[x] == rm[x - 1]);
            } else {
                lemma_item_height_nonneg(items@[a as int]);
            }
        }
        assert forall|x: int| 0 <= x < layouts@.len() implies (#[trigger] layouts@[x]).index < items@.len()
            && layouts@[x].size == sizes@[layouts@[x].index as int] by {
            if vis < avail && x > 0 {
                assert(layouts@[x] == rl[x - 1]);
            } else if !(vis < avail) {
                assert(layouts@[x] == rl[x]);
            }
        }
    }
    ScanOut { end, rendered, layouts, measured, max_width, focused_rendered }
}

spec fn scan_view(s: ScanOut) -> ScanResult {
    ScanResult {
        end: s.end as nat,
        rendered: s.rendered as int,
        layouts: s.layouts@,
        measured: s.measured@,
        max_width: s.max_width as int,
        focused_rendered: s.focused_rendered,
    }
}

/// The exec record of a layout's passes.
struct Passes {
    fwd: ScanOut,
    fill: bool,
    bwd: ScanOut,
    scroll_top: ListOffset,
    lead_start: usize,
    lead: Vec<ListItem>,
}

spec fn passes_view(p: &Passes) -> PassesView {
    PassesView {
        fwd: scan_view(p.fwd),
        fill: p.fill,
        bwd: scan_view(p.bwd),
        scroll_top: p.scroll_top,
        lead_start: p.lead_start as nat,
        lead: p.lead@,
    }
}

/// What holds of the passes of a layout from item `a`: the runs they measured
/// are consecutive and within the items, each new height is bounded by the
/// old one and the rendered one, the placed items are rendered at their
/// sizes, and the scroll position kept for a top-aligned list is storable.
spec fn passes_ok(items: Seq<ListItem>, sizes: Seq<Size>, a: nat, alignment: ListAlignment, p: PassesView) -> bool {
    &&& p.lead_start <= p.bwd.end <= a <= p.fwd.end <= items.len()
    &&& p.lead.len() == p.bwd.end - p.lead_start
    &&& p.bwd.measured.len() == a - p.bwd.end
    &&& p.fwd.measured.len() == p.fwd.end - a
    &&& p.scroll_top.item_ix == p.bwd.end || (!p.fill && p.scroll_top.item_ix == a)
    &&& (forall|x: int|
        0 <= x < p.lead.len() ==> item_ok(#[trigger] p.lead[x]) && item_height(p.lead[x])
            <= item_height(items[p.lead_start + x]) + sizes[p.lead_start + x].height.0)
    &&& (forall|x: int|
        0 <= x < p.bwd.measured.len() ==> item_ok(#[trigger] p.bwd.measured[x]) && item_height(
            p.bwd.measured[x],
        ) <= item_height(items[p.bwd.end + x]) + sizes[p.bwd.end + x].height.0)
    &&& (forall|x: int|
        0 <= x < p.fwd.measured.len() ==> item_ok(#[trigger] p.fwd.measured[x]) && item_height(
            p.fwd.measured[x],
        ) <= item_height(items[a + x]) + sizes[a + x].height.0)
    &&& (p.fill && alignment == ListAlignment::Top ==> list_offset_ok(p.scroll_top.offset_in_item.0 as int))
    &&& -8 * COORD_LIMIT <= p.fwd.max_width <= 8 * COORD_LIMIT
    &&& -8 * COORD_LIMIT <= p.scroll_top.offset_in_item.0 <= 8 * COORD_LIMIT
}

/// What a layout placed: the widest item passed downward, the scroll
/// position the layout used, and the placed items.
#[derive(Debug)]
pub struct LayoutItemsResponse {
    pub max_item_width: Pixels,
    pub scroll_top: ListOffset,
    pub item_layouts: Vec<ItemLayout>,
}

/// The items with their measurements dropped, as when the list's width
/// changed.
pub open spec fn unmeasured_items(items: Seq<ListItem>) -> Seq<ListItem> {
    items.map_values(|it: ListItem| fresh_item(it.focus_handle_spec()))
}

/// Every item measured: at its earlier measured size, else at its size now.
pub open spec fn measured_all(items: Seq<ListItem>, sizes: Seq<Size>) -> Seq<ListItem> {
    Seq::new(
        items.len(),
        |i: int|
            ListItem::Measured {
                size: match items[i] {
                    ListItem::Measured { size, .. } => size,
                    ListItem::Unmeasured { .. } => sizes[i],
                },
                focus_handle: items[i].focus_handle_spec(),
            },
    )
}

/// The painting pass of a list in `bounds` with `pad` around its content:
/// wheel turns are accepted again; a new width drops all measurements; a list
/// measuring all items measures them the first time; the items are laid out
/// (nothing is placed when the padding leaves no room); and the bounds and
/// padding are kept for the queries that need them.
pub open spec fn prepaint_spec(
    v: ListStateView,
    bounds: Bounds,
    pad: Edges,
    sizes: Seq<Size>,
    focused: Seq<FocusId>,
) -> (ListStateView, LayoutView) {
    let v1 = ListStateView { reset: false, ..v };
    let width_changed = match v.last_layout_bounds {
        Some(b) => b.size.width != bounds.size.width,
        None => true,
    };
    let v2 = if width_changed {
        ListStateView {
            items: unmeasured_items(v1.items),
            measuring_behavior: measuring_reset(v1.measuring_behavior),
            ..v1
        }
    } else {
        v1
    };
    let v3 = if v2.measuring_behavior == ListMeasuringBehavior::Measure(false) {
        ListStateView {
            items: measured_all(v2.items, sizes),
            measuring_behavior: ListMeasuringBehavior::Measure(true),
            ..v2
        }
    } else {
        v2
    };
    let (v4, lay) = layout_spec(v3, bounds.size.height.0 as int, pad, sizes, focused);
    let lay2 = if bounds.size.height.0 <= pad.top.0 + pad.bottom.0 {
        LayoutView { layouts: Seq::empty(), ..lay }
    } else {
        lay
    };
    (ListStateView { last_layout_bounds: Some(bounds), last_padding: Some(pad), ..v4 }, lay2)
}

/// The height an item is known to have for an autoscroll: its measured height,
/// else the height it renders at.
pub open spec fn known_height(items: Seq<ListItem>, sizes: Seq<Size>, j: nat) -> int {
    match items[j as int] {
        ListItem::Measured { size, .. } => size.height.0 as int,
        ListItem::Unmeasured { .. } => sizes[j as int].height.0 as int,
    }
}

/// The top of placed item `k`, the items being stacked from `start` down.
pub open spec fn placed_top(layouts: Seq<ItemLayout>, k: nat, start: int) -> int
    decreases k,
{
    if k == 0 {
        start
    } else {
        placed_top(layouts, (k - 1) as nat, start) + layouts[k - 1].size.height.0
    }
}

/// Moving the scroll position up from item `j`, `offset` pixels into it,
/// while the offset is negative: each item above adds its height; above the
/// first item the offset becomes zero.
pub open spec fn walk_up_top(items: Seq<ListItem>, sizes: Seq<Size>, j: nat, offset: int) -> (nat, int)
    decreases j,
{
    if offset >= 0 {
        (j, offset)
    } else if j == 0 {
        (j, 0)
    } else {
        walk_up_top(items, sizes, (j - 1) as nat, offset + known_height(items, sizes, (j - 1) as nat))
    }
}

/// Moving the scroll position up from item `j` while `height` pixels of the
/// viewport above the requested bottom remain to be filled.
pub open spec fn walk_up_bottom(items: Seq<ListItem>, sizes: Seq<Size>, j: nat, height: int) -> (nat, int)
    decreases j,
{
    if height <= 0 || j == 0 {
        (j, height)
    } else {
        walk_up_bottom(items, sizes, (j - 1) as nat, height - known_height(items, sizes, (j - 1) as nat))
    }
}

proof fn lemma_placed_top_shift(layouts: Seq<ItemLayout>, k: nat, start: int, sizes: Seq<Size>)
    requires
        k <= layouts.len(),
    ensures
        placed_top(layouts, k, start) == start + placed_top(layouts, k, 0),
    decreases k,
{
    if k > 0 {
        lemma_placed_top_shift(layouts, (k - 1) as nat, start, sizes);
    }
}

proof fn lemma_placed_top_mono(layouts: Seq<ItemLayout>, i: nat, k: nat, start: int, sizes: Seq<Size>)
    requires
        i <= k <= layouts.len(),
        sizes_ok(sizes),
        forall|x: int|
            0 <= x < layouts.len() ==> (#[trigger] layouts[x]).index < sizes.len()
                && layouts[x].size == sizes[layouts[x].index as int],
    ensures
        placed_top(layouts, i, start) <= placed_top(layouts, k, start),
    decreases k,
{
    if i < k {
        lemma_placed_top_mono(layouts, i, (k - 1) as nat, start, sizes);
        assert(sizes[layouts[k - 1].index as int].height.0 >= 0);
    }
}

/// The scroll position that shows `request`, asked for by the `k`-th placed
/// item while being painted in `bounds` with `pad`: a request above the
/// viewport brings its top to the viewport's top (never leaving blank space
/// above the first item), a request below brings its bottom to the viewport's
/// bottom; none when the request is within the viewport.
pub open spec fn autoscroll_spec(
    items: Seq<ListItem>,
    sizes: Seq<Size>,
    layouts: Seq<ItemLayout>,
    scroll_offset: int,
    k: nat,
    bounds: Bounds,
    pad: Edges,
    request: Bounds,
) -> Option<ListOffset> {
    let item = layouts[k as int];
    let origin = placed_top(layouts, k, bounds.origin.y.0 + pad.top.0 - scroll_offset);
    if request.top_spec() < bounds.top_spec() {
        let (ix, off) = walk_up_top(items, sizes, item.index as nat, request.top_spec() - origin);
        Some(ListOffset { item_ix: ix as usize, offset_in_item: Pixels(off as i64) })
    } else if request.bottom_spec() > bounds.bottom_spec() {
        let height = bounds.size.height.0 - pad.top.0 - pad.bottom.0 - (request.bottom_spec() - origin);
        let (ix, h) = walk_up_bottom(items, sizes, item.index as nat, height);
        Some(ListOffset { item_ix: ix as usize, offset_in_item: Pixels((if h < 0 { -h } else { 0 }) as i64) })
    } else {
        None
    }
}

/// The state of a virtualized list.
pub struct ListState {
    last_layout_bounds: Option<Bounds>,
    last_padding: Option<Edges>,
    items: Vec<ListItem>,
    logical_scroll_top: Option<ListOffset>,
    alignment: ListAlignment,
    overdraw: Pixels,
    reset: bool,
    scroll_handler: Option<CallbackId>,
    scrollbar_drag_start_height: Option<Pixels>,
    measuring_behavior: ListMeasuringBehavior,
    pending_scroll: Option<PendingScroll>,
    follow_state: FollowState,
}

impl View for ListState {
    type V = ListStateView;

    closed spec fn view(&self) -> ListStateView {
        ListStateView {
            last_layout_bounds: self.last_layout_bounds,
            last_padding: self.last_padding,
            items: self.items@,
            logical_scroll_top: self.logical_scroll_top,
            alignment: self.alignment,
            overdraw: self.overdraw,
            reset: self.reset,
            scroll_handler: self.scroll_handler,
            scrollbar_drag_start_height: self.scrollbar_drag_start_height,
            measuring_behavior: self.measuring_behavior,
            pending_scroll: self.pending_scroll,
            follow_state: self.follow_state,
        }
    }
}

/// An item that was just added: not measured, without a hint.
pub open spec fn fresh_item(focus_handle: Option<FocusId>) -> ListItem {
    ListItem::Unmeasured { size_hint: None, focus_handle }
}

proof fn lemma_fresh_items_height(items: Seq<ListItem>, n: nat)
    requires
        forall|i: int| 0 <= i < items.len() ==> item_height(#[trigger] items[i]) == 0,
    ensures
        prefix_height(items, n) == 0,
    decreases n,
{
    if n > items.len() {
        lemma_fresh_items_height(items, items.len());
    } else if n > 0 {
        lemma_fresh_items_height(items, (n - 1) as nat);
    }
}

impl ListState {
    /// A list of `item_count` unmeasured items. `overdraw` is how far above and
    /// below the viewport items are measured too, so that scrolling does not
    /// reveal unmeasured space.
    pub fn new(item_count: usize, alignment: ListAlignment, overdraw: Pixels) -> (r: ListState)
        requires
            item_count < usize::MAX,
            coord_ok(overdraw.0 as int),
        ensures
            r@.wf(),
            r@ == (ListStateView {
                last_layout_bounds: None,
                last_padding: None,
                items: Seq::new(item_count as nat, |i: int| fresh_item(None)),
                logical_scroll_top: None,
                alignment,
                overdraw,
                reset: false,
                scroll_handler: None,
                scrollbar_drag_start_height: None,
                measuring_behavior: ListMeasuringBehavior::Visible,
                pending_scroll: None,
                follow_state: FollowState::Normal,
            }),
    {
        let mut items: Vec<ListItem> = Vec::new();
        let mut i: usize = 0;
        while i < item_count
            invariant
                i <= item_count,
                items@ == Seq::new(i as nat, |k: int| fresh_item(None)),
            decreases item_count - i,
        {
            items.push(ListItem::Unmeasured { size_hint: None, focus_handle: None });
            i = i + 1;
            assert(items@ =~= Seq::new(i as nat, |k: int| fresh_item(None)));
        }
        proof {
            assert forall|k: int| 0 <= k < items@.len() implies item_height(#[trigger] items@[k]) == 0 by {
                assert(items@[k] == fresh_item(None));
            }
            lemma_fresh_items_height(items@, items@.len());
        }
        ListState {
            last_layout_bounds: None,
            last_padding: None,
            items,
            logical_scroll_top: None,
            alignment,
            overdraw,
            reset: false,
            scroll_handler: None,
            scrollbar_drag_start_height: None,
            measuring_behavior: ListMeasuringBehavior::Visible,
            pending_scroll: None,
            follow_state: FollowState::Normal,
        }
    }

    /// Makes the list measure all of its items at its first layout, so that its
    /// scrollbar has the right size from the start.
    pub fn measure_all(self) -> (r: ListState)
        requires
            self@.wf(),
        ensures
            r@.wf(),
            r@ == (ListStateView {
                measuring_behavior: ListMeasuringBehavior::Measure(false),
                ..self@
            }),
    {
        ListState { measuring_behavior: ListMeasuringBehavior::Measure(false), ..self }
    }

    /// The number of items.
    pub fn item_count(&self) -> (r: usize)
        ensures
            r == self@.items.len(),
    {
        self.items.len()
    }

    /// The scroll position, in items.
    pub fn logical_scroll_top(&self) -> (r: ListOffset)
        ensures
            r == self@.logical_scroll_top_spec(),
    {
        match self.logical_scroll_top {
            Some(o) => o,
            None => match self.alignment {
                ListAlignment::Top => ListOffset { item_ix: 0, offset_in_item: Pixels(0) },
                ListAlignment::Bottom => ListOffset {
                    item_ix: self.items.len(),
                    offset_in_item: Pixels(0),
                },
            },
        }
    }

    /// Sets the handler called when the list is scrolled.
    pub fn set_scroll_handler(&mut self, handler: CallbackId)
        requires
            old(self)@.wf(),
        ensures
            final(self)@.wf(),
            final(self)@ == (ListStateView { scroll_handler: Some(handler), ..old(self)@ }),
    {
        self.scroll_handler = Some(handler);
    }

    /// Scrolls past the last item, so that the layout walks up from the end and
    /// shows the bottom of the last item, even while that item grows.
    pub fn scroll_to_end(&mut self)
        requires
            old(self)@.wf(),
        ensures
            final(self)@.wf(),
            final(self)@ == (ListStateView {
                pending_scroll: None,
                logical_scroll_top: Some(
                    ListOffset {
                        item_ix: old(self)@.items.len() as usize,
                        offset_in_item: Pixels(0),
                    },
                ),
                ..old(self)@
            }),
    {
        let n = self.items.len();
        self.pending_scroll = None;
        self.logical_scroll_top = Some(ListOffset { item_ix: n, offset_in_item: Pixels(0) });
    }

    /// Sets the follow mode: following the tail snaps the list to its end.
    pub fn set_follow_mode(&mut self, mode: FollowMode)
        requires
            old(self)@.wf(),
        ensures
            final(self)@.wf(),
            final(self)@ == (match mode {
                FollowMode::Normal => ListStateView {
                    follow_state: FollowState::Normal,
                    ..old(self)@
                },
                FollowMode::Tail => ListStateView {
                    follow_state: FollowState::Tail { is_following: true },
                    logical_scroll_top: Some(
                        ListOffset {
                            item_ix: old(self)@.items.len() as usize,
                            offset_in_item: Pixels(0),
                        },
                    ),
                    ..old(self)@
                },
            }),
    {
        match mode {
            FollowMode::Normal => {
                self.follow_state = FollowState::Normal;
            },
            FollowMode::Tail => {
                self.follow_state = FollowState::Tail { is_following: true };
                let n = self.items.len();
                self.logical_scroll_top = Some(ListOffset { item_ix: n, offset_in_item: Pixels(0) });
            },
        }
    }

    /// Whether the list snaps to its end at every layout.
    pub fn is_following_tail(&self) -> (r: bool)
        ensures
            r == (self@.follow_state == FollowState::Tail { is_following: true }),
    {
        self.follow_state.is_following()
    }

    /// Records that the user started dragging the scrollbar: the content height
    /// reported to it is frozen until the drag ends.
    pub fn scrollbar_drag_started(&mut self)
        requires
            old(self)@.wf(),
        ensures
            final(self)@.wf(),
            final(self)@ == (ListStateView {
                scrollbar_drag_start_height: Some(Pixels(total_height(old(self)@.items) as i64)),
                ..old(self)@
            }),
    {
        let h = prefix_height_exec(&self.items, self.items.len());
        self.scrollbar_drag_start_height = Some(Pixels(h));
    }

    /// Records that the scrollbar drag ended.
    pub fn scrollbar_drag_ended(&mut self)
        requires
            old(self)@.wf(),
        ensures
            final(self)@.wf(),
            final(self)@ == (ListStateView { scrollbar_drag_start_height: None, ..old(self)@ }),
    {
        self.scrollbar_drag_start_height = None;
    }

    /// Whether the scrollbar is being dragged.
    pub fn is_scrollbar_dragging(&self) -> (r: bool)
        ensures
            r == self@.scrollbar_drag_start_height is Some,
    {
        self.scrollbar_drag_start_height.is_some()
    }

    /// The bounds of the last layout, or empty bounds at the origin.
    pub fn viewport_bounds(&self) -> (r: Bounds)
        ensures
            r == self@.viewport(),
    {
        match self.last_layout_bounds {
            Some(b) => b,
            None => Bounds {
                origin: Point { x: Pixels(0), y: Pixels(0) },
                size: Size { width: Pixels(0), height: Pixels(0) },
            },
        }
    }

    fn max_scroll_offset(&self) -> (r: i64)
        requires
            self@.wf(),
        ensures
            r == self@.max_scroll_offset(),
            0 <= r <= 2 * COORD_LIMIT,
    {
        let viewport = self.viewport_bounds();
        let height = match self.scrollbar_drag_start_height {
            Some(h) => h.0,
            None => prefix_height_exec(&self.items, self.items.len()),
        };
        let d = height - viewport.size.height.0;
        if d > 0 { d } else { 0 }
    }

    /// The largest scroll offset for the scrollbar: how far the content (as
    /// measured so far, and frozen while the scrollbar is dragged) exceeds the
    /// viewport.
    pub fn max_offset_for_scrollbar(&self) -> (r: Point)
        requires
            self@.wf(),
        ensures
            r.x.0 == 0,
            r.y.0 == self@.max_scroll_offset(),
    {
        let m = self.max_scroll_offset();
        Point { x: Pixels(0), y: Pixels(m) }
    }

    /// The scroll offset for the scrollbar: minus the content position of the
    /// scroll position (minus the largest offset for a bottom-aligned list that
    /// keeps no scroll position).
    pub fn scroll_px_offset_for_scrollbar(&self) -> (r: Point)
        requires
            self@.wf(),
        ensures
            r.x.0 == 0,
            r.y.0 == (if self@.logical_scroll_top is None && self@.alignment == ListAlignment::Bottom {
                -self@.max_scroll_offset()
            } else {
                -self@.scroll_top_px(self@.logical_scroll_top_spec())
            }),
    {
        let bottom = match self.alignment {
            ListAlignment::Bottom => true,
            ListAlignment::Top => false,
        };
        if self.logical_scroll_top.is_none() && bottom {
            let m = self.max_scroll_offset();
            return Point { x: Pixels(0), y: Pixels(-m) };
        }
        let top = self.logical_scroll_top();
        let above = prefix_height_exec(&self.items, top.item_ix);
        Point { x: Pixels(0), y: Pixels(-(above + top.offset_in_item.0)) }
    }

    fn rebase_pending_scroll(&mut self, scroll_top: ListOffset)
        requires
            old(self)@.wf(),
            list_offset_ok(scroll_top.offset_in_item.0 as int),
        ensures
            final(self)@ == (ListStateView {
                pending_scroll: old(self)@.rebase_pending(scroll_top),
                ..old(self)@
            }),
            final(self)@.wf(),
    {
        let pending = self.pending_scroll;
        self.pending_scroll = None;
        match pending {
            None => {},
            Some(p) => {
                if scroll_top.item_ix >= self.items.len() {
                    return;
                }
                match p {
                    PendingScroll::Absolute { .. } => {
                        self.pending_scroll = Some(
                            PendingScroll::Absolute {
                                item_ix: scroll_top.item_ix,
                                offset: scroll_top.offset_in_item,
                            },
                        );
                    },
                    PendingScroll::Proportional { .. } => {
                        let known = self.items[scroll_top.item_ix].size_hint();
                        match known {
                            Some(s) => {
                                if s.height.0 > 0 {
                                    let (n, d) = fraction(scroll_top.offset_in_item.0, s.height.0);
                                    self.pending_scroll = Some(
                                        PendingScroll::Proportional {
                                            item_ix: scroll_top.item_ix,
                                            numerator: n,
                                            denominator: d,
                                        },
                                    );
                                }
                            },
                            None => {},
                        }
                    },
                }
            },
        }
    }

    fn set_scroll_top(&mut self, scroll_top: ListOffset)
        requires
            old(self)@.wf(),
            scroll_top.item_ix <= old(self)@.items.len(),
            list_offset_ok(scroll_top.offset_in_item.0 as int),
        ensures
            final(self)@ == old(self)@.with_scroll_top(scroll_top),
            final(self)@.wf(),
    {
        self.rebase_pending_scroll(scroll_top);
        self.logical_scroll_top = Some(scroll_top);
    }

    fn stop_following(&mut self)
        requires
            old(self)@.wf(),
        ensures
            final(self)@ == (ListStateView { follow_state: stopped(old(self)@.follow_state), ..old(self)@ }),
            final(self)@.wf(),
    {
        let mut f = self.follow_state;
        f.stop_following();
        self.follow_state = f;
    }

    /// Scrolls by `distance` pixels (down when positive).
    pub fn scroll_by(&mut self, distance: Pixels)
        requires
            old(self)@.wf(),
            coord_ok(distance.0 as int),
            coord_ok(old(self)@.scroll_top_px(old(self)@.logical_scroll_top_spec()) + distance.0),
        ensures
            final(self)@.wf(),
            final(self)@ == old(self)@.scroll_by_spec(distance.0 as int),
    {
        if distance.0 == 0 {
            return;
        }
        let current = self.logical_scroll_top();
        if distance.0 < 0 {
            self.stop_following();
        }
        let above = prefix_height_exec(&self.items, current.item_ix);
        let start_px = above + current.offset_in_item.0;
        let moved = start_px + distance.0;
        let new_px = if moved > 0 { moved } else { 0 };
        let (k, start) = if new_px > start_px {
            seek_height(&self.items, current.item_ix, new_px, false)
        } else {
            seek_height(&self.items, 0, new_px, false)
        };
        proof {
            if !(new_px > start_px) {
                lemma_found_item_starts_above(self@.items, new_px as int);
            }
        }
        let scroll_top = ListOffset { item_ix: k, offset_in_item: Pixels(new_px - start) };
        self.set_scroll_top(scroll_top);
    }

    /// Scrolls to `scroll_top`.
    pub fn scroll_to(&mut self, scroll_top: ListOffset)
        requires
            old(self)@.wf(),
            list_offset_ok(scroll_top.offset_in_item.0 as int),
        ensures
            final(self)@.wf(),
            final(self)@ == old(self)@.scroll_to_spec(scroll_top),
    {
        let n = self.items.len();
        let target = if scroll_top.item_ix >= n {
            ListOffset { item_ix: n, offset_in_item: Pixels(0) }
        } else {
            scroll_top
        };
        if target.item_ix < n {
            self.stop_following();
        }
        self.set_scroll_top(target);
    }

    /// Scrolls so that item `ix` shows completely.
    pub fn scroll_to_reveal_item(&mut self, ix: usize)
        requires
            old(self)@.wf(),
            ix < usize::MAX,
        ensures
            final(self)@.wf(),
            final(self)@ == old(self)@.reveal_item_spec(ix),
    {
        let st0 = self.logical_scroll_top();
        let height: i64 = match self.last_layout_bounds {
            Some(b) => b.size.height.0,
            None => 0,
        };
        let pad = match self.last_padding {
            Some(p) => p,
            None => Edges { top: Pixels(0), right: Pixels(0), bottom: Pixels(0), left: Pixels(0) },
        };
        let st = if ix <= st0.item_ix {
            ListOffset { item_ix: ix, offset_in_item: Pixels(0) }
        } else {
            let bottom = prefix_height_exec(&self.items, ix + 1) + pad.top.0;
            let raw = bottom - height + pad.bottom.0;
            let goal = if raw > 0 { raw } else { 0 };
            let (k, start) = seek_height(&self.items, 0, goal, true);
            proof {
                lemma_found_item_starts_above(self@.items, goal as int);
            }
            if k >= st0.item_ix {
                ListOffset { item_ix: k, offset_in_item: Pixels(goal - start) }
            } else {
                st0
            }
        };
        self.set_scroll_top(st);
    }

    /// The bounds of item `ix` in window coordinates, when it was measured and
    /// is not above the scroll position.
    pub fn bounds_for_item(&self, ix: usize) -> (r: Option<Bounds>)
        requires
            self@.wf(),
        ensures
            r == self@.bounds_for_item_spec(ix),
            (r matches Some(ib) ==> ib.loose_wf()),
    {
        let b = self.viewport_bounds();
        let st = self.logical_scroll_top();
        if ix < st.item_ix || ix >= self.items.len() {
            return None;
        }
        match self.items[ix] {
            ListItem::Measured { size, .. } => {
                proof {
                    assert(item_ok(self@.items[ix as int]));
                }
                let scroll_px = prefix_height_exec(&self.items, st.item_ix) + st.offset_in_item.0;
                let above = prefix_height_exec(&self.items, ix);
                let top = b.origin.y.0 + above - scroll_px;
                Some(
                    Bounds {
                        origin: Point { x: b.origin.x, y: Pixels(top) },
                        size: Size { width: b.size.width, height: size.height },
                    },
                )
            },
            ListItem::Unmeasured { .. } => None,
        }
    }

    /// Whether item `ix` lies wholly above the viewport; unknown before a
    /// layout and for items without bounds.
    pub fn item_is_above_viewport(&self, ix: usize) -> (r: Option<bool>)
        requires
            self@.wf(),
        ensures
            r == (match self@.last_layout_bounds {
                None => None,
                Some(vb) => if ix < self@.logical_scroll_top_spec().item_ix {
                    Some(true)
                } else {
                    match self@.bounds_for_item_spec(ix) {
                        Some(ib) => Some(ib.bottom_spec() <= vb.top_spec()),
                        None => None,
                    }
                },
            }),
    {
        let vb = match self.last_layout_bounds {
            Some(b) => b,
            None => {
                return None;
            },
        };
        let st = self.logical_scroll_top();
        if ix < st.item_ix {
            return Some(true);
        }
        match self.bounds_for_item(ix) {
            Some(ib) => Some(ib.bottom() <= vb.origin.y.0),
            None => None,
        }
    }

    /// Whether item `ix` lies wholly below the viewport; unknown before a
    /// layout and for items without bounds.
    pub fn item_is_below_viewport(&self, ix: usize) -> (r: Option<bool>)
        requires
            self@.wf(),
        ensures
            r == (match self@.last_layout_bounds {
                None => None,
                Some(vb) => if ix < self@.logical_scroll_top_spec().item_ix {
                    Some(false)
                } else {
                    match self@.bounds_for_item_spec(ix) {
                        Some(ib) => Some(ib.top_spec() >= vb.bottom_spec()),
                        None => None,
                    }
                },
            }),
    {
        let vb = match self.last_layout_bounds {
            Some(b) => b,
            None => {
                return None;
            },
        };
        let st = self.logical_scroll_top();
        if ix < st.item_ix {
            return Some(false);
        }
        match self.bounds_for_item(ix) {
            Some(ib) => Some(ib.origin.y.0 >= vb.bottom()),
            None => None,
        }
    }

    /// Whether the list is scrolled to its end; `None` before a layout, while
    /// an item's height is unknown, or when the list cannot scroll.
    pub fn is_scrolled_to_end(&self) -> (r: Option<bool>)
        requires
            self@.wf(),
        ensures
            r == self@.is_scrolled_to_end_spec(),
    {
        let b = match self.last_layout_bounds {
            Some(b) => b,
            None => {
                return None;
            },
        };
        if any_unknown_height(&self.items) {
            return None;
        }
        let pad = match self.last_padding {
            Some(p) => p,
            None => Edges { top: Pixels(0), right: Pixels(0), bottom: Pixels(0), left: Pixels(0) },
        };
        let total = prefix_height_exec(&self.items, self.items.len());
        let d = total + pad.top.0 + pad.bottom.0 - b.size.height.0;
        let max = if d > 0 { d } else { 0 };
        if max <= 0 {
            return None;
        }
        let st = self.logical_scroll_top();
        let px = prefix_height_exec(&self.items, st.item_ix) + st.offset_in_item.0;
        Some(px >= max)
    }

    /// Sets the scroll position from the scrollbar thumb at `point` (whose `y`
    /// is minus the content position).
    pub fn set_offset_from_scrollbar(&mut self, point: Point)
        requires
            old(self)@.wf(),
            coord_ok(point.y.0 as int),
        ensures
            final(self)@.wf(),
            final(self)@ == old(self)@.offset_from_scrollbar_spec(point.y.0 as int),
    {
        let b = match self.last_layout_bounds {
            Some(b) => b,
            None => {
                return;
            },
        };
        let pad = match self.last_padding {
            Some(p) => p,
            None => Edges { top: Pixels(0), right: Pixels(0), bottom: Pixels(0), left: Pixels(0) },
        };
        let content = match self.scrollbar_drag_start_height {
            Some(h) => h.0,
            None => prefix_height_exec(&self.items, self.items.len()),
        };
        let d = content + pad.top.0 + pad.bottom.0 - b.size.height.0;
        let max = if d > 0 { d } else { 0 };
        let neg = -point.y.0;
        let clamped_low = if neg > 0 { neg } else { 0 };
        let new_top = if clamped_low < max { clamped_low } else { max };
        let end_floor = if max - 1 > 0 { max - 1 } else { 0 };
        let dragged_to_end = max > 0 && new_top >= end_floor;
        let tail = match self.follow_state {
            FollowState::Tail { .. } => true,
            FollowState::Normal => false,
        };
        if dragged_to_end && tail {
            let n = self.items.len();
            self.follow_state = FollowState::Tail { is_following: true };
            self.pending_scroll = None;
            self.logical_scroll_top = Some(ListOffset { item_ix: n, offset_in_item: Pixels(0) });
            return;
        }
        self.stop_following();
        let bottom_aligned = match self.alignment {
            ListAlignment::Bottom => true,
            ListAlignment::Top => false,
        };
        if bottom_aligned && new_top == max {
            self.pending_scroll = None;
            self.logical_scroll_top = None;
        } else {
            let (k, start) = seek_height(&self.items, 0, new_top, false);
            proof {
                lemma_found_item_starts_above(self@.items, new_top as int);
            }
            self.set_scroll_top(ListOffset { item_ix: k, offset_in_item: Pixels(new_top - start) });
        }
    }

    /// A wheel turn of `delta` pixels over the list, whose last layout was
    /// `height` tall and scrolled to `scroll_top`.
    pub fn scroll(&mut self, scroll_top: &ListOffset, height: Pixels, delta: Point) -> (r: ScrollOutcome)
        requires
            old(self)@.wf(),
            list_offset_ok(scroll_top.offset_in_item.0 as int),
            coord_ok(height.0 as int),
            coord_ok(delta.y.0 as int),
        ensures
            final(self)@.wf(),
            final(self)@ == old(self)@.wheel_spec(*scroll_top, height.0 as int, delta.y.0 as int),
            r.notify == !old(self)@.reset,
            (r.event is Some) == (!old(self)@.reset && old(self)@.scroll_handler is Some),
            (r.event matches Some(e) ==> {
                &&& e.visible_range.start == scroll_top.item_ix
                &&& e.visible_range.end == old(self)@.last_visible(*scroll_top, height.0 as int) + 1
                &&& e.count == old(self)@.items.len()
                &&& e.is_scrolled == final(self)@.logical_scroll_top is Some
                &&& e.is_following_tail == (final(self)@.follow_state == FollowState::Tail {
                    is_following: true,
                })
            }),
    {
        if self.reset {
            return ScrollOutcome { notify: false, event: None };
        }
        let pad = match self.last_padding {
            Some(p) => p,
            None => Edges { top: Pixels(0), right: Pixels(0), bottom: Pixels(0), left: Pixels(0) },
        };
        let total = prefix_height_exec(&self.items, self.items.len());
        let d = total + pad.top.0 + pad.bottom.0 - height.0;
        let max = if d > 0 { d } else { 0 };
        let from = if scroll_top.item_ix <= self.items.len() { scroll_top.item_ix } else { self.items.len() };
        let start_px = prefix_height_exec(&self.items, scroll_top.item_ix) + scroll_top.offset_in_item.0;
        let raw = start_px - delta.y.0;
        let moved = if raw > 0 { raw } else { 0 };
        let new_top = if moved < max { moved } else { max };
        // The visible range is taken from the layout's position, before the turn.
        let (last, _) = seek_height(&self.items, from, start_px + height.0, true);
        let bottom_aligned = match self.alignment {
            ListAlignment::Bottom => true,
            ListAlignment::Top => false,
        };
        if bottom_aligned && new_top == max {
            self.pending_scroll = None;
            self.logical_scroll_top = None;
        } else {
            let (k, start) = seek_height(&self.items, 0, new_top, false);
            proof {
                lemma_found_item_starts_above(self@.items, new_top as int);
            }
            self.set_scroll_top(ListOffset { item_ix: k, offset_in_item: Pixels(new_top - start) });
        }
        if delta.y.0 > 0 {
            self.stop_following();
        }
        let event = match self.scroll_handler {
            Some(_) => Some(
                ListScrollEvent {
                    visible_range: Range { start: scroll_top.item_ix, end: last + 1 },
                    count: self.items.len(),
                    is_scrolled: self.logical_scroll_top.is_some(),
                    is_following_tail: self.follow_state.is_following(),
                },
            ),
            None => None,
        };
        ScrollOutcome { notify: true, event }
    }

    /// Replaces the items of `old_range` by fresh items whose focus handles are
    /// `focus_handles`; a focused item stays rendered while scrolled out of view.
    pub fn splice_focusable(&mut self, old_range: Range<usize>, focus_handles: Vec<Option<FocusId>>)
        requires
            old(self)@.wf(),
            old_range.start <= old_range.end,
            ({
                let (s, e) = clamp_run(old(self)@.items.len(), old_range.start, old_range.end);
                s + focus_handles.len() + (old(self)@.items.len() - e) < usize::MAX
            }),
        ensures
            final(self)@.wf(),
            final(self)@ == old(self)@.splice_spec(old_range.start, old_range.end, focus_handles@),
    {
        let ghost old_items = self.items@;
        let n = self.items.len();
        let s = if old_range.start < n { old_range.start } else { n };
        let e0 = if old_range.end < n { old_range.end } else { n };
        let e = if e0 < s { s } else { e0 };
        let ghost mid = focus_handles@.map_values(|h: Option<FocusId>| fresh_item(h));
        let mut items: Vec<ListItem> = Vec::new();
        let mut i: usize = 0;
        while i < s
            invariant
                i <= s <= n,
                n == old_items.len(),
                self.items@ == old_items,
                items@ == old_items.subrange(0, i as int),
            decreases s - i,
        {
            items.push(self.items[i]);
            i = i + 1;
            assert(items@ =~= old_items.subrange(0, i as int));
        }
        let mut j: usize = 0;
        while j < focus_handles.len()
            invariant
                j <= focus_handles.len(),
                s <= n,
                n == old_items.len(),
                s + focus_handles.len() + (n - e) < usize::MAX,
                mid == focus_handles@.map_values(|h: Option<FocusId>| fresh_item(h)),
                items@ == old_items.subrange(0, s as int) + mid.subrange(0, j as int),
            decreases focus_handles.len() - j,
        {
            items.push(ListItem::Unmeasured { size_hint: None, focus_handle: focus_handles[j] });
            j = j + 1;
            assert(items@ =~= old_items.subrange(0, s as int) + mid.subrange(0, j as int));
        }
        assert(mid.subrange(0, mid.len() as int) =~= mid);
        let mut k: usize = e;
        while k < n
            invariant
                s <= e <= k <= n,
                n == old_items.len(),
                self.items@ == old_items,
                s + focus_handles.len() + (n - e) < usize::MAX,
                items@ == old_items.subrange(0, s as int) + mid + old_items.subrange(
                    e as int,
                    k as int,
                ),
            decreases n - k,
        {
            items.push(self.items[k]);
            k = k + 1;
            assert(items@ =~= old_items.subrange(0, s as int) + mid + old_items.subrange(
                e as int,
                k as int,
            ));
        }
        proof {
            let pre = old_items.subrange(0, s as int);
            let suf = old_items.subrange(e as int, n as int);
            assert forall|x: int| 0 <= x < mid.len() implies item_height(#[trigger] mid[x]) == 0 by {
                assert(mid[x] == fresh_item(focus_handles@[x]));
            }
            lemma_fresh_items_height(mid, mid.len());
            lemma_total_concat(pre, mid);
            lemma_total_concat(pre + mid, suf);
            lemma_prefix_is_total_of_run(old_items, s as nat);
            lemma_suffix_total(old_items, e as nat);
            lemma_prefix_bounds(old_items, s as nat, e as nat);
            assert forall|x: int| 0 <= x < items@.len() implies item_ok(#[trigger] items@[x]) by {
                if x < s {
                    assert(items@[x] == old_items[x]);
                } else if x < s + mid.len() {
                    assert(items@[x] == mid[x - s]);
                    assert(mid[x - s] == fresh_item(focus_handles@[x - s]));
                } else {
                    assert(items@[x] == old_items[x - s - mid.len() + e]);
                }
            }
        }
        let new_top = match self.logical_scroll_top {
            Some(o) => Some(
                if old_range.start <= o.item_ix && o.item_ix < old_range.end {
                    ListOffset { item_ix: old_range.start, offset_in_item: Pixels(0) }
                } else if old_range.end <= o.item_ix {
                    ListOffset {
                        item_ix: o.item_ix - (old_range.end - old_range.start) + focus_handles.len(),
                        offset_in_item: o.offset_in_item,
                    }
                } else {
                    o
                },
            ),
            None => None,
        };
        self.items = items;
        self.logical_scroll_top = new_top;
    }

    /// Replaces the items of `old_range` by `count` fresh items.
    pub fn splice(&mut self, old_range: Range<usize>, count: usize)
        requires
            old(self)@.wf(),
            old_range.start <= old_range.end,
            ({
                let (s, e) = clamp_run(old(self)@.items.len(), old_range.start, old_range.end);
                s + count + (old(self)@.items.len() - e) < usize::MAX
            }),
        ensures
            final(self)@.wf(),
            final(self)@ == old(self)@.splice_spec(
                old_range.start,
                old_range.end,
                Seq::new(count as nat, |i: int| None::<FocusId>),
            ),
    {
        let mut handles: Vec<Option<FocusId>> = Vec::new();
        let mut i: usize = 0;
        while i < count
            invariant
                i <= count,
                handles@ == Seq::new(i as nat, |x: int| None::<FocusId>),
            decreases count - i,
        {
            handles.push(None);
            i = i + 1;
            assert(handles@ =~= Seq::new(i as nat, |x: int| None::<FocusId>));
        }
        self.splice_focusable(old_range, handles);
    }

    fn invalidate(it: ListItem) -> (r: ListItem)
        ensures
            r == invalidated(it),
    {
        match it {
            ListItem::Measured { size, focus_handle } => ListItem::Unmeasured {
                size_hint: Some(size),
                focus_handle,
            },
            ListItem::Unmeasured { size_hint, focus_handle } => ListItem::Unmeasured {
                size_hint,
                focus_handle,
            },
        }
    }

    fn remeasure_pending(&self, range: &Range<usize>, proportional: bool) -> (r: Option<PendingScroll>)
        requires
            self@.wf(),
        ensures
            r == self@.remeasure_spec(range.start, range.end, proportional).pending_scroll,
            (r matches Some(p) ==> pending_ok(p)),
    {
        match self.logical_scroll_top {
            Some(st) => if range.start <= st.item_ix && st.item_ix < range.end {
                if !proportional {
                    Some(PendingScroll::Absolute { item_ix: st.item_ix, offset: st.offset_in_item })
                } else if st.item_ix < self.items.len() {
                    match self.items[st.item_ix] {
                        ListItem::Measured { size, .. } => {
                            let (num, den) = fraction(st.offset_in_item.0, size.height.0);
                            Some(
                                PendingScroll::Proportional {
                                    item_ix: st.item_ix,
                                    numerator: num,
                                    denominator: den,
                                },
                            )
                        },
                        ListItem::Unmeasured { .. } => self.pending_scroll,
                    }
                } else {
                    self.pending_scroll
                }
            } else {
                self.pending_scroll
            },
            None => self.pending_scroll,
        }
    }

    fn invalidated_items(items: &Vec<ListItem>, s: usize, e: usize) -> (r: Vec<ListItem>)
        requires
            s <= e <= items.len(),
            items_ok(items@),
            total_height(items@) <= COORD_LIMIT,
        ensures
            r@ == items@.subrange(0, s as int) + items@.subrange(s as int, e as int).map_values(
                |it: ListItem| invalidated(it),
            ) + items@.subrange(e as int, items@.len() as int),
            items_ok(r@),
            total_height(r@) == total_height(items@),
    {
        let n = items.len();
        let ghost old_items = items@;
        let ghost mid = old_items.subrange(s as int, e as int).map_values(|it: ListItem| invalidated(it));
        let mut out: Vec<ListItem> = Vec::new();
        let mut i: usize = 0;
        while i < n
            invariant
                i <= n,
                s <= e <= n,
                n == old_items.len(),
                items@ == old_items,
                mid == old_items.subrange(s as int, e as int).map_values(|it: ListItem| invalidated(it)),
                i <= s ==> out@ == old_items.subrange(0, i as int),
                s < i <= e ==> out@ == old_items.subrange(0, s as int) + mid.subrange(0, i - s),
                e < i ==> out@ == old_items.subrange(0, s as int) + mid + old_items.subrange(
                    e as int,
                    i as int,
                ),
            decreases n - i,
        {
            let it = items[i];
            if i >= s && i < e {
                out.push(Self::invalidate(it));
            } else {
                out.push(it);
            }
            i = i + 1;
            proof {
                if i <= s {
                    assert(out@ =~= old_items.subrange(0, i as int));
                } else if i <= e {
                    assert(mid[i - 1 - s] == invalidated(old_items[i - 1]));
                    assert(out@ =~= old_items.subrange(0, s as int) + mid.subrange(0, i - s));
                } else {
                    if i - 1 == e {
                        assert(mid.subrange(0, e - s) =~= mid);
                    }
                    assert(out@ =~= old_items.subrange(0, s as int) + mid + old_items.subrange(
                        e as int,
                        i as int,
                    ));
                }
            }
        }
        proof {
            if n <= s {
                assert(old_items.subrange(0, s as int) + mid + old_items.subrange(e as int, n as int)
                    =~= old_items.subrange(0, n as int));
            } else if n <= e {
                assert(mid.subrange(0, n - s) =~= mid);
                assert(old_items.subrange(e as int, n as int) =~= Seq::<ListItem>::empty());
            }
            let new_items = old_items.subrange(0, s as int) + mid + old_items.subrange(e as int, n as int);
            assert(out@ =~= new_items);
            assert forall|x: int| 0 <= x < n implies item_height(#[trigger] new_items[x])
                == item_height(old_items[x]) && item_ok(new_items[x]) by {
                assert(item_ok(old_items[x]));
                if s <= x < e {
                    assert(new_items[x] == mid[x - s]);
                    assert(mid[x - s] == invalidated(old_items[x]));
                } else {
                    assert(new_items[x] == old_items[x]);
                }
            }
            lemma_same_heights(new_items, old_items);
        }
        out
    }

    fn remeasure_with_anchor(&mut self, range: Range<usize>, proportional: bool)
        requires
            old(self)@.wf(),
        ensures
            final(self)@.wf(),
            final(self)@ == old(self)@.remeasure_spec(range.start, range.end, proportional),
    {
        let pending = self.remeasure_pending(&range, proportional);
        let n = self.items.len();
        let s = if range.start < n { range.start } else { n };
        let e0 = if range.end < n { range.end } else { n };
        let e = if e0 < s { s } else { e0 };
        let items = Self::invalidated_items(&self.items, s, e);
        let mut m = self.measuring_behavior;
        m.reset();
        self.items = items;
        self.pending_scroll = pending;
        self.measuring_behavior = m;
    }

    /// Marks every item to be measured again, keeping the scroll position
    /// proportionally within the top item: for changes that resize all items,
    /// such as a new font size.
    pub fn remeasure(&mut self)
        requires
            old(self)@.wf(),
        ensures
            final(self)@.wf(),
            final(self)@ == old(self)@.remeasure_spec(0, old(self)@.items.len() as usize, true),
    {
        let n = self.items.len();
        self.remeasure_with_anchor(Range { start: 0, end: n }, true);
    }

    /// Marks the items of `range` to be measured again, keeping the scroll
    /// offset into the top item: for items whose content changed in place.
    pub fn remeasure_items(&mut self, range: Range<usize>)
        requires
            old(self)@.wf(),
        ensures
            final(self)@.wf(),
            final(self)@ == old(self)@.remeasure_spec(range.start, range.end, false),
    {
        self.remeasure_with_anchor(range, false);
    }

    fn apply_uniform_item_height(&mut self, height: Pixels)
        requires
            old(self)@.wf(),
            0 <= height.0 <= COORD_LIMIT,
            total_height(uniform_items(old(self)@.items, height)) <= COORD_LIMIT,
        ensures
            final(self)@.wf(),
            final(self)@ == (ListStateView { items: uniform_items(old(self)@.items, height), ..old(self)@ }),
    {
        let ghost old_items = self.items@;
        let mut items: Vec<ListItem> = Vec::new();
        let mut i: usize = 0;
        while i < self.items.len()
            invariant
                i <= self.items.len(),
                self.items@ == old_items,
                items@ == old_items.subrange(0, i as int).map_values(
                    |it: ListItem| with_uniform_hint(it, height),
                ),
            decreases self.items.len() - i,
        {
            let it = match self.items[i] {
                ListItem::Measured { size, focus_handle } => ListItem::Unmeasured {
                    size_hint: Some(size),
                    focus_handle,
                },
                ListItem::Unmeasured { size_hint, focus_handle } => ListItem::Unmeasured {
                    size_hint: Some(
                        match size_hint {
                            Some(s) => s,
                            None => Size { width: Pixels(0), height },
                        },
                    ),
                    focus_handle,
                },
            };
            items.push(it);
            i = i + 1;
            assert(items@ =~= old_items.subrange(0, i as int).map_values(
                |it: ListItem| with_uniform_hint(it, height),
            ));
        }
        proof {
            assert(old_items.subrange(0, old_items.len() as int) =~= old_items);
            let u = uniform_items(old_items, height);
            assert forall|x: int| 0 <= x < u.len() implies item_ok(#[trigger] u[x]) by {
                assert(item_ok(old_items[x]));
                assert(u[x] == with_uniform_hint(old_items[x], height));
            }
        }
        self.items = items;
    }

    /// Hints every unmeasured item without a hint to be `height` tall, so that
    /// the scrollbar has about the right size from the first frame; rendered
    /// items replace the hints with their heights.
    pub fn with_uniform_item_height(self, height: Pixels) -> (r: ListState)
        requires
            self@.wf(),
            0 <= height.0 <= COORD_LIMIT,
            total_height(uniform_items(self@.items, height)) <= COORD_LIMIT,
        ensures
            r@.wf(),
            r@ == (ListStateView { items: uniform_items(self@.items, height), ..self@ }),
    {
        let mut this = self;
        this.apply_uniform_item_height(height);
        this
    }

    /// Resets the list to `element_count` fresh items; wheel turns are dropped
    /// until the next layout.
    pub fn reset(&mut self, element_count: usize)
        requires
            old(self)@.wf(),
            element_count < usize::MAX,
        ensures
            final(self)@.wf(),
            final(self)@ == (ListStateView {
                reset: true,
                measuring_behavior: measuring_reset(old(self)@.measuring_behavior),
                logical_scroll_top: None,
                pending_scroll: None,
                scrollbar_drag_start_height: None,
                items: Seq::new(element_count as nat, |i: int| fresh_item(None)),
                ..old(self)@
            }),
    {
        let old_count = self.items.len();
        self.reset = true;
        let mut m = self.measuring_behavior;
        m.reset();
        self.measuring_behavior = m;
        self.logical_scroll_top = None;
        self.pending_scroll = None;
        self.scrollbar_drag_start_height = None;
        let ghost before = self@;
        self.splice(Range { start: 0, end: old_count }, element_count);
        proof {
            let handles = Seq::new(element_count as nat, |i: int| None::<FocusId>);
            assert(before.items.subrange(0, 0) + handles.map_values(
                |h: Option<FocusId>| fresh_item(h),
            ) + before.items.subrange(old_count as int, old_count as int) =~= Seq::new(
                element_count as nat,
                |i: int| fresh_item(None),
            ));
        }
    }

    /// Resets the list to `element_count` items hinted to be `height` tall.
    pub fn reset_with_uniform_height(&mut self, element_count: usize, height: Pixels)
        requires
            old(self)@.wf(),
            element_count < usize::MAX,
            0 <= height.0 <= COORD_LIMIT,
            element_count * height.0 <= COORD_LIMIT,
        ensures
            final(self)@.wf(),
            final(self)@ == (ListStateView {
                reset: true,
                measuring_behavior: measuring_reset(old(self)@.measuring_behavior),
                logical_scroll_top: None,
                pending_scroll: None,
                scrollbar_drag_start_height: None,
                items: Seq::new(
                    element_count as nat,
                    |i: int|
                        ListItem::Unmeasured {
                            size_hint: Some(Size { width: Pixels(0), height }),
                            focus_handle: None,
                        },
                ),
                ..old(self)@
            }),
    {
        self.reset(element_count);
        proof {
            let fresh = Seq::new(element_count as nat, |i: int| fresh_item(None));
            let u = uniform_items(fresh, height);
            assert(u =~= Seq::new(
                element_count as nat,
                |i: int|
                    ListItem::Unmeasured {
                        size_hint: Some(Size { width: Pixels(0), height }),
                        focus_handle: None,
                    },
            ));
            assert forall|i: int| 0 <= i < u.len() implies item_height(#[trigger] u[i]) == height.0 by {
                assert(u[i] == with_uniform_hint(fresh[i], height));
            }
            lemma_uniform_run_height(u, height.0 as int, u.len());
        }
        self.apply_uniform_item_height(height);
    }

    /// The start of a layout.
    fn layout_start(&mut self, avail: i64, top: i64, sizes: &Vec<Size>) -> (r: (ListOffset, i64))
        requires
            old(self)@.wf(),
            sizes_ok(sizes@),
            sizes@.len() == old(self)@.items.len(),
            coord_ok(avail as int),
            coord_ok(top as int),
        ensures
            (r.0, r.1 as int, final(self)@) == layout_start_spec(old(self)@, avail as int, top as int, sizes@),
            list_offset_ok(r.1 as int),
            r.0.item_ix <= old(self)@.items.len(),
            list_offset_ok(r.0.offset_in_item.0 as int),
            (r.1 as int != r.0.offset_in_item.0 ==> r.1 <= COORD_LIMIT),
            final(self)@.wf(),
    {
        let n = self.items.len();
        let following = self.follow_state.is_following();
        let st0 = if following {
            ListOffset { item_ix: n, offset_in_item: Pixels(0) }
        } else {
            self.logical_scroll_top()
        };
        if following {
            self.logical_scroll_top = Some(st0);
        }
        let a = st0.item_ix;
        let o = st0.offset_in_item.0;
        let limit = avail + self.overdraw.0;
        let first = a < n && top - o < limit;
        let render0 = first && (top - o < avail || match self.items[a] {
            ListItem::Unmeasured { .. } => true,
            ListItem::Measured { .. } => false,
        });
        let mut o2 = o;
        if render0 {
            let p = self.pending_scroll;
            self.pending_scroll = None;
            proof {
                assert(sizes@[a as int].wf());
            }
            let adj = apply_pending(p, a, sizes[a].height.0);
            match adj {
                Some(x) => {
                    o2 = x;
                    self.logical_scroll_top = Some(ListOffset { item_ix: a, offset_in_item: Pixels(x) });
                },
                None => {},
            }
        }
        (st0, o2)
    }

    fn layout_passes(
        &self,
        st0: ListOffset,
        o2: i64,
        avail: i64,
        padding: &Edges,
        sizes: &Vec<Size>,
        focused: &Vec<FocusId>,
    ) -> (r: Passes)
        requires
            self@.wf(),
            padding.wf(),
            coord_ok(avail as int),
            sizes_ok(sizes@),
            sizes@.len() == self@.items.len(),
            total_height(self@.items) + size_prefix(sizes@, sizes@.len()) <= COORD_LIMIT,
            st0.item_ix <= self@.items.len(),
            list_offset_ok(st0.offset_in_item.0 as int),
            list_offset_ok(o2 as int),
            o2 as int != st0.offset_in_item.0 ==> o2 <= COORD_LIMIT,
        ensures
            passes_view(&r) == layout_passes_spec(self@, st0, o2 as int, avail as int, *padding, sizes@, focused@),
            passes_ok(self@.items, sizes@, st0.item_ix as nat, self@.alignment, passes_view(&r)),
    {
        let a = st0.item_ix;
        let o = st0.offset_in_item.0;
        let top = padding.top.0;
        let limit = avail + self.overdraw.0;
        let fwd = forward_pass(&self.items, sizes, a, top, o, o2, avail, limit, focused);
        let total_r = fwd.rendered + padding.bottom.0;
        let fill = total_r - o2 < avail;
        let top_aligned = match self.alignment {
            ListAlignment::Top => true,
            ListAlignment::Bottom => false,
        };
        let bwd = if fill {
            scan_backward(&self.items, sizes, a, total_r, avail, focused)
        } else {
            ScanOut {
                end: a,
                rendered: total_r,
                layouts: Vec::new(),
                measured: Vec::new(),
                max_width: 0,
                focused_rendered: false,
            }
        };
        let st2 = if fill {
            let raw = bwd.rendered - avail;
            ListOffset {
                item_ix: bwd.end,
                offset_in_item: Pixels(if top_aligned { if raw > 0 { raw } else { 0 } } else { raw }),
            }
        } else {
            ListOffset { item_ix: a, offset_in_item: Pixels(o2) }
        };
        let (c, lead) = scan_leading(&self.items, sizes, bwd.end, st2.offset_in_item.0, self.overdraw.0);
        Passes { fwd, fill, bwd, scroll_top: st2, lead_start: c, lead }
    }

    fn layout_finish(
        &mut self,
        p: Passes,
        avail: i64,
        padding: &Edges,
        sizes: &Vec<Size>,
        focused: &Vec<FocusId>,
        Ghost(a): Ghost<nat>,
    ) -> (r: LayoutItemsResponse)
        requires
            old(self)@.wf(),
            padding.wf(),
            coord_ok(avail as int),
            sizes_ok(sizes@),
            sizes@.len() == old(self)@.items.len(),
            total_height(old(self)@.items) + size_prefix(sizes@, sizes@.len()) <= COORD_LIMIT,
            passes_ok(old(self)@.items, sizes@, a, old(self)@.alignment, passes_view(&p)),
        ensures
            final(self)@.wf(),
            final(self)@.items.len() == old(self)@.items.len(),
            (final(self)@, Self::layout_view_spec(r)) == layout_finish_spec(
                old(self)@,
                passes_view(&p),
                avail as int,
                *padding,
                sizes@,
                focused@,
            ),
    {
        let ghost pv = passes_view(&p);
        let n = self.items.len();
        let Passes { fwd, fill, bwd, scroll_top: st2, lead_start: c, lead } = p;
        let top_aligned = match self.alignment {
            ListAlignment::Top => true,
            ListAlignment::Bottom => false,
        };
        if fill {
            if top_aligned {
                self.logical_scroll_top = Some(st2);
            } else {
                self.logical_scroll_top = None;
            }
        }
        let ScanOut {
            end: fwd_end,
            rendered: _,
            layouts: mut fwd_layouts,
            measured: mut fwd_measured,
            max_width: fwd_max,
            focused_rendered: fwd_focused,
        } = fwd;
        let ScanOut {
            end: bwd_end,
            rendered: _,
            layouts: bwd_layouts,
            measured: mut bwd_measured,
            max_width: _,
            focused_rendered: bwd_focused,
        } = bwd;
        let ghost old_items = self.items@;
        let ghost lead_v = lead@;
        let ghost bwd_v = bwd_measured@;
        let ghost fwd_v = fwd_measured@;
        let mut items2: Vec<ListItem> = Vec::new();
        let mut i: usize = 0;
        while i < c
            invariant
                i <= c <= n,
                n == old_items.len(),
                self.items@ == old_items,
                items2@ == old_items.subrange(0, i as int),
            decreases c - i,
        {
            items2.push(self.items[i]);
            i = i + 1;
            assert(items2@ =~= old_items.subrange(0, i as int));
        }
        let mut lead_mut = lead;
        items2.append(&mut lead_mut);
        items2.append(&mut bwd_measured);
        items2.append(&mut fwd_measured);
        let ghost mid = items2@;
        let mut k: usize = fwd_end;
        while k < n
            invariant
                fwd_end <= k <= n,
                n == old_items.len(),
                self.items@ == old_items,
                items2@ == mid + old_items.subrange(fwd_end as int, k as int),
            decreases n - k,
        {
            items2.push(self.items[k]);
            k = k + 1;
            assert(items2@ =~= mid + old_items.subrange(fwd_end as int, k as int));
        }
        proof {
            assert(mid =~= old_items.subrange(0, c as int) + lead_v + bwd_v + fwd_v);
            lemma_layout_items_ok(old_items, sizes@, c as nat, lead_v, bwd_end as nat, bwd_v, a, fwd_v, fwd_end as nat);
        }
        self.items = items2;
        if self.follow_state.has_stopped_following() {
            let total = prefix_height_exec(&self.items, n);
            let above = prefix_height_exec(&self.items, st2.item_ix);
            if above + st2.offset_in_item.0 + avail >= total + padding.top.0 + padding.bottom.0 - 1 {
                let mut f = self.follow_state;
                f.start_following();
                self.follow_state = f;
            }
        }
        let mut layouts = bwd_layouts;
        layouts.append(&mut fwd_layouts);
        if !(fwd_focused || bwd_focused) {
            match first_focused_exec(&self.items, focused) {
                Some(ix) => {
                    layouts.push(ItemLayout { index: ix, size: sizes[ix] });
                },
                None => {},
            }
        }
        let r = LayoutItemsResponse { max_item_width: Pixels(fwd_max), scroll_top: st2, item_layouts: layouts };
        proof {
            let (fv, lv) = layout_finish_spec(old(self)@, pv, avail as int, *padding, sizes@, focused@);
            assert(lv.layouts == r.item_layouts@);
            assert(lv == Self::layout_view_spec(r));
            assert(fv.items == self@.items);
            assert(fv.logical_scroll_top == self@.logical_scroll_top);
            assert(fv.follow_state == self@.follow_state);
            assert(fv == self@);
        }
        r
    }

    /// Lays the items out in a viewport `available_height` tall with
    /// `padding` around the content, where item `i` renders at `sizes[i]` and
    /// the focus lies within the handles `focused`; see [`layout_spec`].
    pub fn layout_items(
        &mut self,
        available_height: Pixels,
        padding: &Edges,
        sizes: &Vec<Size>,
        focused: &Vec<FocusId>,
    ) -> (r: LayoutItemsResponse)
        requires
            old(self)@.wf(),
            padding.wf(),
            coord_ok(available_height.0 as int),
            sizes_ok(sizes@),
            sizes@.len() == old(self)@.items.len(),
            total_height(old(self)@.items) + size_prefix(sizes@, sizes@.len()) <= COORD_LIMIT,
        ensures
            final(self)@.wf(),
            final(self)@.items.len() == old(self)@.items.len(),
            (final(self)@, Self::layout_view_spec(r)) == layout_spec(
                old(self)@,
                available_height.0 as int,
                *padding,
                sizes@,
                focused@,
            ),
    {
        let avail = available_height.0;
        let (st0, o2) = self.layout_start(avail, padding.top.0, sizes);
        let p = self.layout_passes(st0, o2, avail, padding, sizes, focused);
        self.layout_finish(p, avail, padding, sizes, focused, Ghost(st0.item_ix as nat))
    }

    pub open spec fn layout_view_spec(r: LayoutItemsResponse) -> LayoutView {
        LayoutView {
            max_item_width: r.max_item_width.0 as int,
            scroll_top: r.scroll_top,
            layouts: r.item_layouts@,
        }
    }

    fn drop_measurements(&mut self)
        requires
            old(self)@.wf(),
        ensures
            final(self)@.wf(),
            final(self)@ == (ListStateView {
                items: unmeasured_items(old(self)@.items),
                measuring_behavior: measuring_reset(old(self)@.measuring_behavior),
                ..old(self)@
            }),
            total_height(final(self)@.items) == 0,
    {
        let ghost old_items = self.items@;
        let mut items: Vec<ListItem> = Vec::new();
        let mut i: usize = 0;
        while i < self.items.len()
            invariant
                i <= self.items.len(),
                self.items@ == old_items,
                items@ == old_items.subrange(0, i as int).map_values(
                    |it: ListItem| fresh_item(it.focus_handle_spec()),
                ),
            decreases self.items.len() - i,
        {
            let h = self.items[i].focus_handle();
            items.push(ListItem::Unmeasured { size_hint: None, focus_handle: h });
            i = i + 1;
            assert(items@ =~= old_items.subrange(0, i as int).map_values(
                |it: ListItem| fresh_item(it.focus_handle_spec()),
            ));
        }
        proof {
            assert(old_items.subrange(0, old_items.len() as int) =~= old_items);
            assert forall|k: int| 0 <= k < items@.len() implies item_height(#[trigger] items@[k]) == 0 by {
                assert(items@[k] == fresh_item(old_items[k].focus_handle_spec()));
            }
            lemma_fresh_items_height(items@, items@.len());
        }
        let mut m = self.measuring_behavior;
        m.reset();
        self.items = items;
        self.measuring_behavior = m;
    }

    fn measure_all_items(&mut self, sizes: &Vec<Size>)
        requires
            old(self)@.wf(),
            sizes_ok(sizes@),
            sizes@.len() == old(self)@.items.len(),
            total_height(old(self)@.items) + size_prefix(sizes@, sizes@.len()) <= COORD_LIMIT,
        ensures
            final(self)@.wf(),
            final(self)@ == (ListStateView {
                items: measured_all(old(self)@.items, sizes@),
                measuring_behavior: ListMeasuringBehavior::Measure(true),
                ..old(self)@
            }),
            total_height(final(self)@.items) <= total_height(old(self)@.items) + size_prefix(
                sizes@,
                sizes@.len(),
            ),
    {
        let ghost old_items = self.items@;
        let mut items: Vec<ListItem> = Vec::new();
        let mut i: usize = 0;
        while i < self.items.len()
            invariant
                i <= self.items.len(),
                self.items@ == old_items,
                sizes@.len() == old_items.len(),
                items@ == measured_all(old_items, sizes@).subrange(0, i as int),
            decreases self.items.len() - i,
        {
            let it = self.items[i];
            let size = match it {
                ListItem::Measured { size, .. } => size,
                ListItem::Unmeasured { .. } => sizes[i],
            };
            items.push(ListItem::Measured { size, focus_handle: it.focus_handle() });
            i = i + 1;
            assert(items@ =~= measured_all(old_items, sizes@).subrange(0, i as int));
        }
        proof {
            let m = measured_all(old_items, sizes@);
            assert(m.subrange(0, m.len() as int) =~= m);
            assert forall|k: int| 0 <= k < m.len() implies item_ok(#[trigger] m[k]) && item_height(m[k])
                <= item_height(old_items[k]) + sizes@[k].height.0 by {
                assert(item_ok(old_items[k]));
                assert(sizes@[k].wf());
            }
            lemma_bounded_heights(m, old_items, sizes@, m.len());
        }
        self.items = items;
        self.measuring_behavior = ListMeasuringBehavior::Measure(true);
    }

    /// The painting pass of the list in `bounds` with `padding` around its
    /// content, where item `i` renders at `sizes[i]` and the focus lies within
    /// the handles `focused`; see [`prepaint_spec`].
    pub fn prepaint(
        &mut self,
        bounds: Bounds,
        padding: Edges,
        sizes: &Vec<Size>,
        focused: &Vec<FocusId>,
    ) -> (r: LayoutItemsResponse)
        requires
            old(self)@.wf(),
            bounds.wf(),
            padding.wf(),
            sizes_ok(sizes@),
            sizes@.len() == old(self)@.items.len(),
            total_height(old(self)@.items) + 2 * size_prefix(sizes@, sizes@.len()) <= COORD_LIMIT,
        ensures
            final(self)@.wf(),
            final(self)@.items.len() == old(self)@.items.len(),
            (final(self)@, Self::layout_view_spec(r)) == prepaint_spec(
                old(self)@,
                bounds,
                padding,
                sizes@,
                focused@,
            ),
    {
        proof {
            lemma_size_prefix_nonneg(sizes@, sizes@.len());
        }
        self.reset = false;
        let width_changed = match self.last_layout_bounds {
            Some(b) => b.size.width.0 != bounds.size.width.0,
            None => true,
        };
        let ghost t0 = total_height(self@.items);
        proof {
            lemma_prefix_nonneg(self@.items, self@.items.len());
        }
        if width_changed {
            self.drop_measurements();
        }
        assert(total_height(self@.items) <= t0);
        let measure = match self.measuring_behavior {
            ListMeasuringBehavior::Measure(has_measured) => !has_measured,
            ListMeasuringBehavior::Visible => false,
        };
        if measure {
            self.measure_all_items(sizes);
        }
        assert(total_height(self@.items) <= t0 + size_prefix(sizes@, sizes@.len()));
        let mut r = self.layout_items(bounds.size.height, &padding, sizes, focused);
        if bounds.size.height.0 <= padding.top.0 + padding.bottom.0 {
            r.item_layouts = Vec::new();
        }
        self.last_layout_bounds = Some(bounds);
        self.last_padding = Some(padding);
        r
    }

    /// Where the list scrolls when the `k`-th item placed by `layout` asks,
    /// while being painted in `bounds` with `padding`, for `request` to be
    /// visible; item `i` renders at `sizes[i]`. The list keeps the result as
    /// its scroll position and is laid out again.
    pub fn autoscroll_request(
        &self,
        layout: &LayoutItemsResponse,
        k: usize,
        request: Bounds,
        bounds: Bounds,
        padding: Edges,
        sizes: &Vec<Size>,
    ) -> (r: Option<ListOffset>)
        requires
            self@.wf(),
            sizes_ok(sizes@),
            sizes@.len() == self@.items.len(),
            bounds.wf(),
            padding.wf(),
            request.wf(),
            k < layout.item_layouts@.len(),
            forall|i: int|
                0 <= i < layout.item_layouts@.len() ==> (#[trigger] layout.item_layouts@[i]).index
                    < self@.items.len() && layout.item_layouts@[i].size == sizes@[layout.item_layouts@[i].index as int],
            list_offset_ok(layout.scroll_top.offset_in_item.0 as int),
            placed_top(layout.item_layouts@, k as nat, 0) <= COORD_LIMIT,
        ensures
            r == autoscroll_spec(
                self@.items,
                sizes@,
                layout.item_layouts@,
                layout.scroll_top.offset_in_item.0 as int,
                k as nat,
                bounds,
                padding,
                request,
            ),
    {
        let layouts = &layout.item_layouts;
        let start = bounds.origin.y.0 + padding.top.0 - layout.scroll_top.offset_in_item.0;
        let mut origin = start;
        let mut i: usize = 0;
        proof {
            lemma_placed_top_shift(layouts@, k as nat, start as int, sizes@);
            lemma_placed_top_mono(layouts@, 0, k as nat, start as int, sizes@);
        }
        while i < k
            invariant
                i <= k < layouts@.len(),
                origin == placed_top(layouts@, i as nat, start as int),
                start <= origin <= placed_top(layouts@, k as nat, start as int),
                placed_top(layouts@, k as nat, start as int) == start + placed_top(layouts@, k as nat, 0),
                placed_top(layouts@, k as nat, 0) <= COORD_LIMIT,
                -6 * COORD_LIMIT <= start <= 6 * COORD_LIMIT,
                forall|x: int|
                    0 <= x < layouts@.len() ==> (#[trigger] layouts@[x]).index < sizes@.len()
                        && layouts@[x].size == sizes@[layouts@[x].index as int],
                sizes_ok(sizes@),
            decreases k - i,
        {
            proof {
                assert(sizes@[layouts@[i as int].index as int].wf());
                lemma_placed_top_mono(layouts@, (i + 1) as nat, k as nat, start as int, sizes@);
            }
            origin = origin + layouts[i].size.height.0;
            i = i + 1;
        }
        let item = layouts[k];
        let ghost items = self@.items;
        if request.origin.y.0 < bounds.origin.y.0 {
            let mut ix = item.index;
            let mut offset = request.origin.y.0 - origin;
            let ghost off0 = offset;
            while offset < 0
                invariant_except_break
                    ix <= item.index < items.len(),
                    sizes@.len() == items.len(),
                    sizes_ok(sizes@),
                    items_ok(items),
                    self@.items == items,
                    off0 <= offset,
                    -8 * COORD_LIMIT <= off0 <= 8 * COORD_LIMIT,
                    walk_up_top(items, sizes@, item.index as nat, off0 as int) == walk_up_top(
                        items,
                        sizes@,
                        ix as nat,
                        offset as int,
                    ),
                ensures
                    walk_up_top(items, sizes@, item.index as nat, off0 as int) == (ix as nat, offset as int),
                decreases ix,
            {
                if ix == 0 {
                    offset = 0;
                    break;
                }
                ix = ix - 1;
                proof {
                    assert(item_ok(items[ix as int]));
                    assert(sizes@[ix as int].wf());
                }
                let h = match self.items[ix] {
                    ListItem::Measured { size, .. } => size.height.0,
                    ListItem::Unmeasured { .. } => sizes[ix].height.0,
                };
                offset = offset + h;
            }
            Some(ListOffset { item_ix: ix, offset_in_item: Pixels(offset) })
        } else if request.origin.y.0 + request.size.height.0 > bounds.origin.y.0 + bounds.size.height.0 {
            let mut ix = item.index;
            let mut height = bounds.size.height.0 - padding.top.0 - padding.bottom.0 - (
            request.origin.y.0 + request.size.height.0 - origin);
            let ghost h0 = height;
            while height > 0 && ix > 0
                invariant
                    ix <= item.index < items.len(),
                    sizes@.len() == items.len(),
                    sizes_ok(sizes@),
                    items_ok(items),
                    self@.items == items,
                    -16 * COORD_LIMIT <= h0 <= 16 * COORD_LIMIT,
                    height <= h0,
                    height > -COORD_LIMIT || height == h0,
                    walk_up_bottom(items, sizes@, item.index as nat, h0 as int) == walk_up_bottom(
                        items,
                        sizes@,
                        ix as nat,
                        height as int,
                    ),
                decreases ix,
            {
                ix = ix - 1;
                proof {
                    assert(item_ok(items[ix as int]));
                    assert(sizes@[ix as int].wf());
                }
                let h = match self.items[ix] {
                    ListItem::Measured { size, .. } => size.height.0,
                    ListItem::Unmeasured { .. } => sizes[ix].height.0,
                };
                height = height - h;
            }
            Some(ListOffset { item_ix: ix, offset_in_item: Pixels(if height < 0 { -height } else { 0 }) })
        } else {
            None
        }
    }

    /// Keeps the scroll position that an autoscroll asked for; the list is then
    /// laid out again.
    pub fn apply_autoscroll(&mut self, target: ListOffset)
        requires
            old(self)@.wf(),
            target.item_ix <= old(self)@.items.len(),
            list_offset_ok(target.offset_in_item.0 as int),
        ensures
            final(self)@.wf(),
            final(self)@ == (ListStateView { logical_scroll_top: Some(target), ..old(self)@ }),
    {
        self.logical_scroll_top = Some(target);
    }

    /// The height of the items as known so far.
    pub fn content_height(&self) -> (r: Pixels)
        requires
            self@.wf(),
        ensures
            r.0 == total_height(self@.items),
    {
        Pixels(prefix_height_exec(&self.items, self.items.len()))
    }

    /// The height a list that sizes itself from its items lays them out in
    /// before it knows its bounds: the height of the last layout, or the
    /// overdraw at the first.
    pub fn inferred_available_height(&self) -> (r: Pixels)
        ensures
            r == (match self@.last_layout_bounds {
                Some(b) => b.size.height,
                None => self@.overdraw,
            }),
    {
        match self.last_layout_bounds {
            Some(b) => b.size.height,
            None => self.overdraw,
        }
    }
}

/// Scrolling by a distance moves the content position by that distance,
/// stopping at the start of the content.
pub proof fn lemma_scroll_by_moves_content(v: ListStateView, distance: int)
    requires
        v.wf(),
        distance != 0,
        coord_ok(v.scroll_top_px(v.logical_scroll_top_spec()) + distance),
    ensures
        ({
            let w = v.scroll_by_spec(distance);
            w.scroll_top_px(w.logical_scroll_top_spec()) == max0(
                v.scroll_top_px(v.logical_scroll_top_spec()) + distance,
            )
        }),
{
    let cur = v.logical_scroll_top_spec();
    let start_px = v.scroll_top_px(cur);
    let new_px = max0(start_px + distance);
    lemma_first_end_after(v.items, cur.item_ix as nat, new_px);
    lemma_first_end_after(v.items, 0, new_px);
    let k = if new_px > start_px {
        first_end_after(v.items, cur.item_ix as nat, new_px)
    } else {
        first_end_after(v.items, 0, new_px)
    };
    lemma_prefix_bounds(v.items, k, v.items.len());
    let st = ListOffset {
        item_ix: k as usize,
        offset_in_item: Pixels((new_px - prefix_height(v.items, k)) as i64),
    };
    let w = v.scroll_by_spec(distance);
    assert(w.logical_scroll_top == Some(st));
    assert(st.item_ix as nat == k);
}

proof fn lemma_scroll_by_wf(v: ListStateView, distance: int)
    requires
        v.wf(),
        distance != 0,
        coord_ok(v.scroll_top_px(v.logical_scroll_top_spec()) + distance),
    ensures
        v.scroll_by_spec(distance).wf(),
{
    let cur = v.logical_scroll_top_spec();
    let start_px = v.scroll_top_px(cur);
    let new_px = max0(start_px + distance);
    lemma_first_end_after(v.items, cur.item_ix as nat, new_px);
    lemma_first_end_after(v.items, 0, new_px);
    let k = if new_px > start_px {
        first_end_after(v.items, cur.item_ix as nat, new_px)
    } else {
        first_end_after(v.items, 0, new_px)
    };
    lemma_prefix_bounds(v.items, k, v.items.len());
    let follow = if distance < 0 {
        stopped(v.follow_state)
    } else {
        v.follow_state
    };
    let v1 = ListStateView { follow_state: follow, ..v };
    let st = ListOffset {
        item_ix: k as usize,
        offset_in_item: Pixels((new_px - prefix_height(v.items, k)) as i64),
    };
    let p = v1.rebase_pending(st);
    if p is Some {
        let it = v.items[st.item_ix as int];
        assert(item_ok(it));
    }
}

/// Scrolling down by a distance and back up by it returns to the same content
/// position.
pub proof fn lemma_scroll_by_round_trip(v: ListStateView, distance: int)
    requires
        v.wf(),
        distance != 0,
        coord_ok(v.scroll_top_px(v.logical_scroll_top_spec())),
        coord_ok(v.scroll_top_px(v.logical_scroll_top_spec()) + distance),
        v.scroll_top_px(v.logical_scroll_top_spec()) + distance >= 0,
        v.scroll_top_px(v.logical_scroll_top_spec()) >= 0,
    ensures
        ({
            let w = v.scroll_by_spec(distance).scroll_by_spec(-distance);
            w.scroll_top_px(w.logical_scroll_top_spec()) == v.scroll_top_px(
                v.logical_scroll_top_spec(),
            )
        }),
{
    lemma_scroll_by_moves_content(v, distance);
    let u = v.scroll_by_spec(distance);
    assert(u.items == v.items);
    lemma_scroll_by_wf(v, distance);
    lemma_scroll_by_moves_content(u, -distance);
}

/// Scrolling to a position within the list makes it the scroll position.
pub proof fn lemma_scroll_to_reads_back(v: ListStateView, scroll_top: ListOffset)
    requires
        scroll_top.item_ix < v.items.len(),
    ensures
        v.scroll_to_spec(scroll_top).logical_scroll_top_spec() == scroll_top,
{
}

/// Replacing items before or after the scroll position keeps the list
/// scrolled to the same item, at the same offset.
pub proof fn lemma_splice_keeps_scroll_item(
    v: ListStateView,
    start: usize,
    end: usize,
    handles: Seq<Option<FocusId>>,
)
    requires
        start <= end <= v.items.len(),
        start + handles.len() + (v.items.len() - end) < usize::MAX,
        v.logical_scroll_top matches Some(o) && o.item_ix < v.items.len() && (o.item_ix < start
            || end <= o.item_ix),
    ensures
        ({
            let o = v.logical_scroll_top->0;
            let w = v.splice_spec(start, end, handles);
            let p = w.logical_scroll_top->0;
            &&& w.logical_scroll_top is Some
            &&& p.offset_in_item == o.offset_in_item
            &&& p.item_ix < w.items.len()
            &&& w.items[p.item_ix as int] == v.items[o.item_ix as int]
        }),
{
    let o = v.logical_scroll_top->0;
    let w = v.splice_spec(start, end, handles);
    let mid = handles.map_values(|h: Option<FocusId>| fresh_item(h));
    let pre = v.items.subrange(0, start as int);
    let suf = v.items.subrange(end as int, v.items.len() as int);
    assert(w.items == pre + mid + suf);
    assert(mid.len() == handles.len());
    assert(pre.len() == start);
    assert(w.items.len() == start + handles.len() + (v.items.len() - end));
    if o.item_ix < start {
        assert(w.items[o.item_ix as int] == pre[o.item_ix as int]);
    } else {
        let p = (o.item_ix - (end - start) + handles.len()) as int;
        assert(w.items[p] == suf[o.item_ix - end]);
    }
}

/// Marking items to be measured again keeps the number of items, the height
/// of each and the scroll position.
pub proof fn lemma_remeasure_keeps_layout(v: ListStateView, start: usize, end: usize, proportional: bool)
    ensures
        ({
            let w = v.remeasure_spec(start, end, proportional);
            &&& w.items.len() == v.items.len()
            &&& forall|i: int| 0 <= i < v.items.len() ==> item_height(#[trigger] w.items[i]) == item_height(v.items[i])
            &&& w.logical_scroll_top == v.logical_scroll_top
        }),
{
    let (s, e) = clamp_run(v.items.len(), start, end);
    let w = v.remeasure_spec(start, end, proportional);
    let mid = v.items.subrange(s as int, e as int).map_values(|it: ListItem| invalidated(it));
    assert forall|i: int| 0 <= i < v.items.len() implies item_height(#[trigger] w.items[i]) == item_height(v.items[i]) by {
        if s <= i < e {
            assert(w.items[i] == mid[i - s]);
        } else if i < s {
            assert(w.items[i] == v.items[i]);
        } else {
            assert(w.items[i] == v.items[i]);
        }
    }
}

proof fn lemma_bwd_fill_facts(
    items: Seq<ListItem>,
    sizes: Seq<Size>,
    j: nat,
    rendered: int,
    avail: int,
    focused: Seq<FocusId>,
)
    requires
        j <= items.len(),
        sizes.len() == items.len(),
        sizes_ok(sizes),
    ensures
        ({
            let r = bwd_fill(items, sizes, j, rendered, avail, focused);
            &&& r.rendered == rendered || r.rendered < avail + COORD_LIMIT
            &&& r.end <= j
            &&& r.measured.len() == j - r.end
            &&& forall|x: int|
                0 <= x < r.measured.len() ==> item_height(#[trigger] r.measured[x]) == sizes[r.end
                    + x].height.0
            &&& r.rendered == rendered + total_height(r.measured)
            &&& (r.end > 0 ==> r.rendered >= avail)
        }),
    decreases j,
{
    let r = bwd_fill(items, sizes, j, rendered, avail, focused);
    if rendered >= avail || j == 0 {
        assert(r.measured =~= Seq::<ListItem>::empty());
    } else {
        let k = (j - 1) as nat;
        let it = items[k as int];
        let sz = sizes[k as int];
        assert(sz.wf());
        lemma_bwd_fill_facts(items, sizes, k, rendered + sz.height.0, avail, focused);
        let inner = bwd_fill(items, sizes, k, rendered + sz.height.0, avail, focused);
        let last = seq![ListItem::Measured { size: sz, focus_handle: it.focus_handle_spec() }];
        assert(r.measured == inner.measured + last);
        lemma_total_concat(inner.measured, last);
        assert(last.len() == 1);
        assert(prefix_height(last, 1) == prefix_height(last, 0) + item_height(last[0]));
        assert(total_height(last) == sz.height.0);
        assert forall|x: int| 0 <= x < r.measured.len() implies item_height(#[trigger] r.measured[x])
            == sizes[r.end + x].height.0 by {
            if x < inner.measured.len() {
                assert(r.measured[x] == inner.measured[x]);
            } else {
                assert(r.measured[x] == last[0]);
            }
        }
    }
}

proof fn lemma_lead_scan_len(items: Seq<ListItem>, sizes: Seq<Size>, j: nat, leading: int, overdraw: int)
    ensures
        lead_scan(items, sizes, j, leading, overdraw).0 <= j,
        lead_scan(items, sizes, j, leading, overdraw).1.len() == j - lead_scan(
            items,
            sizes,
            j,
            leading,
            overdraw,
        ).0,
    decreases j,
{
    if !(leading >= overdraw || j == 0) {
        let k = (j - 1) as nat;
        let it = items[k as int];
        let size = match it {
            ListItem::Measured { size, .. } => size,
            ListItem::Unmeasured { .. } => sizes[k as int],
        };
        lemma_lead_scan_len(items, sizes, k, leading + size.height.0, overdraw);
    }
}

/// After the list is scrolled to its end, its next layout (without padding)
/// shows the bottom of the last item at the bottom of the viewport, unless the
/// items do not fill the viewport, in which case the list starts at its first
/// item; either way the new position is kept.
pub proof fn lemma_scrolled_to_end_shows_bottom(
    v: ListStateView,
    avail: int,
    sizes: Seq<Size>,
    focused: Seq<FocusId>,
)
    requires
        v.wf(),
        v.alignment == ListAlignment::Top,
        v.logical_scroll_top == Some(
            ListOffset { item_ix: v.items.len() as usize, offset_in_item: Pixels(0) },
        ),
        sizes.len() == v.items.len(),
        sizes_ok(sizes),
        0 <= avail <= COORD_LIMIT,
    ensures
        ({
            let pad = Edges { top: Pixels(0), right: Pixels(0), bottom: Pixels(0), left: Pixels(0) };
            let (w, lay) = layout_spec(v, avail, pad, sizes, focused);
            let st = lay.scroll_top;
            &&& w.logical_scroll_top == Some(st)
            &&& (st.item_ix == 0 || prefix_height(w.items, st.item_ix as nat) + st.offset_in_item.0
                + avail == total_height(w.items))
        }),
{
    let n = v.items.len();
    let pad = Edges { top: Pixels(0), right: Pixels(0), bottom: Pixels(0), left: Pixels(0) };
    let (st0, o2, v1) = layout_start_spec(v, avail, 0, sizes);
    assert(st0 == ListOffset { item_ix: n as usize, offset_in_item: Pixels(0) });
    assert(o2 == 0);
    assert(v1.items == v.items);
    assert(v1.logical_scroll_top == v.logical_scroll_top);
    let p = layout_passes_spec(v1, st0, o2, avail, pad, sizes, focused);
    let fwd = p.fwd;
    assert(fwd.end == n && fwd.rendered == 0 && fwd.measured == Seq::<ListItem>::empty());
    let (w, lay) = layout_finish_spec(v1, p, avail, pad, sizes, focused);
    assert((w, lay) == layout_spec(v, avail, pad, sizes, focused));
    let st = lay.scroll_top;
    lemma_bwd_fill_facts(v.items, sizes, n, 0, avail, focused);
    let bwd = p.bwd;
    lemma_lead_scan_len(v.items, sizes, bwd.end, st.offset_in_item.0 as int, v.overdraw.0 as int);
    let c = p.lead_start;
    let x = v.items.subrange(0, c as int) + p.lead;
    let empty_tail = v.items.subrange(n as int, n as int);
    assert(empty_tail =~= Seq::<ListItem>::empty());
    assert(w.items =~= x + bwd.measured);
    assert(x.len() == bwd.end);
    assert(w.items.subrange(0, bwd.end as int) =~= x);
    lemma_prefix_is_total_of_run(w.items, bwd.end as nat);
    lemma_total_concat(x, bwd.measured);
    if p.fill {
        assert(st.item_ix == bwd.end);
        assert(w.logical_scroll_top == Some(st));
        if bwd.end > 0 {
            assert(bwd.rendered >= avail);
            assert(st.offset_in_item.0 == bwd.rendered - avail);
            assert(total_height(w.items) == total_height(x) + bwd.rendered);
        }
    } else {
        assert(avail == 0);
        assert(bwd.measured =~= Seq::<ListItem>::empty());
        assert(st == ListOffset { item_ix: n as usize, offset_in_item: Pixels(0) });
        assert(w.items.len() == n);
    }
}

/// The size of a list that sizes itself from its items: the known width, else
/// the definite available width, else its widest item; its content height,
/// but no more than a definite available height.
pub fn inferred_list_size(
    content_height: Pixels,
    max_item_width: Pixels,
    known_width: Option<Pixels>,
    available_width: Option<Pixels>,
    available_height: Option<Pixels>,
) -> (r: Size)
    ensures
        r.width == (match known_width {
            Some(w) => w,
            None => match available_width {
                Some(w) => w,
                None => max_item_width,
            },
        }),
        r.height == (match available_height {
            Some(h) => if h.0 < content_height.0 {
                h
            } else {
                content_height
            },
            None => content_height,
        }),
{
    let width = match known_width {
        Some(w) => w,
        None => match available_width {
            Some(w) => w,
            None => max_item_width,
        },
    };
    let height = match available_height {
        Some(h) => if h.0 < content_height.0 { h } else { content_height },
        None => content_height,
    };
    Size { width, height }
}

/// A downward pass stops only at the end of the items or once the content it
/// passed reaches `limit` below the viewport's top: what it passed covers the
/// viewport and the overdraw unless the items ran out.
pub proof fn lemma_fwd_scan_covers(
    items: Seq<ListItem>,
    sizes: Seq<Size>,
    j: nat,
    rendered: int,
    o: int,
    avail: int,
    limit: int,
    focused: Seq<FocusId>,
)
    ensures
        ({
            let r = fwd_scan(items, sizes, j, rendered, o, avail, limit, focused);
            r.end >= items.len() || r.rendered - o >= limit
        }),
    decreases items.len() - j,
{
    if !(j >= items.len() || rendered - o >= limit) {
        let it = items[j as int];
        let sz = laid_size(it, sizes[j as int], rendered - o, avail);
        lemma_fwd_scan_covers(items, sizes, j + 1, rendered + sz.height.0, o, avail, limit, focused);
    }
}

/// The downward pass of a layout covers the viewport and the overdraw below
/// the scroll position unless it ran out of items: it ends at the last item, or
/// the content it passed, measured from the top of the viewport (with the
/// offset into the top item that the pass used), reaches `avail` plus the
/// overdraw.
pub proof fn lemma_layout_covers_viewport(
    v: ListStateView,
    st0: ListOffset,
    o2: int,
    avail: int,
    pad: Edges,
    sizes: Seq<Size>,
    focused: Seq<FocusId>,
)
    ensures
        ({
            let p = layout_passes_spec(v, st0, o2, avail, pad, sizes, focused);
            let a = st0.item_ix as nat;
            let o = st0.offset_in_item.0 as int;
            let limit = avail + v.overdraw.0;
            let used = if a >= v.items.len() || pad.top.0 - o >= limit { o } else { o2 };
            p.fwd.end >= v.items.len() || p.fwd.rendered - used >= limit
        }),
{
    let a = st0.item_ix as nat;
    let o = st0.offset_in_item.0 as int;
    let limit = avail + v.overdraw.0;
    let top = pad.top.0 as int;
    if a >= v.items.len() || top - o >= limit {
        lemma_fwd_scan_covers(v.items, sizes, a, top, o, avail, limit, focused);
    } else {
        let it = v.items[a as int];
        let sz = laid_size(it, sizes[a as int], top - o, avail);
        lemma_fwd_scan_covers(v.items, sizes, a + 1, top + sz.height.0, o2, avail, limit, focused);
    }
}

/// Whether the placed items of a layout are items of the list, each at the
/// size it renders at.
pub open spec fn layouts_match(layouts: Seq<ItemLayout>, n: nat, sizes: Seq<Size>) -> bool {
    forall|x: int|
        0 <= x < layouts.len() ==> (#[trigger] layouts[x]).index < n && layouts[x].size
            == sizes[layouts[x].index as int]
}

/// Whether an autoscroll request of placed item `k` for `request` can be
/// honored within the list's pixel range.
pub open spec fn request_in_range(
    v: ListStateView,
    first: LayoutView,
    k: nat,
    request: Bounds,
    sizes: Seq<Size>,
) -> bool {
    &&& request.wf()
    &&& k < first.layouts.len()
    &&& layouts_match(first.layouts, v.items.len(), sizes)
    &&& list_offset_ok(first.scroll_top.offset_in_item.0 as int)
    &&& placed_top(first.layouts, k, 0) <= COORD_LIMIT
}

/// Walking the scroll position up never moves below the item it starts from.
proof fn lemma_walk_up_top_ix(items: Seq<ListItem>, sizes: Seq<Size>, j: nat, offset: int)
    ensures
        walk_up_top(items, sizes, j, offset).0 <= j,
    decreases j,
{
    if offset < 0 && j > 0 {
        lemma_walk_up_top_ix(items, sizes, (j - 1) as nat, offset + known_height(items, sizes, (j - 1) as nat));
    }
}

proof fn lemma_walk_up_bottom_ix(items: Seq<ListItem>, sizes: Seq<Size>, j: nat, height: int)
    ensures
        walk_up_bottom(items, sizes, j, height).0 <= j,
    decreases j,
{
    if height > 0 && j > 0 {
        lemma_walk_up_bottom_ix(items, sizes, (j - 1) as nat, height - known_height(items, sizes, (j - 1) as nat));
    }
}

/// An autoscroll target names an item no later than the one that asked.
proof fn lemma_walk_up_ix(
    items: Seq<ListItem>,
    sizes: Seq<Size>,
    layouts: Seq<ItemLayout>,
    scroll_offset: int,
    k: nat,
    bounds: Bounds,
    pad: Edges,
    request: Bounds,
)
    requires
        k < layouts.len(),
        layouts[k as int].index < items.len(),
    ensures
        autoscroll_spec(items, sizes, layouts, scroll_offset, k, bounds, pad, request) matches Some(t)
            ==> t.item_ix <= layouts[k as int].index,
{
    let item = layouts[k as int];
    let origin = placed_top(layouts, k, bounds.origin.y.0 + pad.top.0 - scroll_offset);
    lemma_walk_up_top_ix(items, sizes, item.index as nat, request.top_spec() - origin);
    let height = bounds.size.height.0 - pad.top.0 - pad.bottom.0 - (request.bottom_spec() - origin);
    lemma_walk_up_bottom_ix(items, sizes, item.index as nat, height);
}

/// `v` clamped into the range of a stored offset into an item.
pub open spec fn clamp_list_offset(v: int) -> int {
    if v > LIST_OFFSET_LIMIT {
        LIST_OFFSET_LIMIT as int
    } else if v < -LIST_OFFSET_LIMIT {
        -LIST_OFFSET_LIMIT
    } else {
        v
    }
}

/// Where the list scrolls for the autoscroll request of a frame: to the
/// position the request asks for, its offset into the item clamped into the
/// stored range, when there is a request within range and the list has to
/// scroll for it.
pub open spec fn frame_target(
    v: ListStateView,
    first: LayoutView,
    request: Option<(usize, Bounds)>,
    bounds: Bounds,
    padding: Edges,
    sizes: Seq<Size>,
) -> Option<ListOffset> {
    match request {
        Some((k, req)) => if request_in_range(v, first, k as nat, req, sizes) {
            match autoscroll_spec(v.items, sizes, first.layouts, first.scroll_top.offset_in_item.0 as int,
                k as nat, bounds, padding, req) {
                Some(t) => Some(ListOffset {
                    item_ix: t.item_ix,
                    offset_in_item: Pixels(clamp_list_offset(t.offset_in_item.0 as int) as i64),
                }),
                None => None,
            }
        } else {
            None
        },
        None => None,
    }
}

impl ListState {
    /// Ends a frame's paint of the list after its layout `first`: `request`
    /// tells which placed item (by its place among the placed items), while it
    /// was painted, asked for which bounds to be visible. When the list has to
    /// scroll for it, it scrolls there and is laid out once more, and that
    /// layout is the frame's (requests made during it are not honored);
    /// otherwise `first` is. A request whose bounds leave the storable
    /// coordinates, or that names no item placed by `first`, is not honored; a
    /// scroll position beyond the stored offset range is clamped into it.
    pub fn finish_frame(
        &mut self,
        first: LayoutItemsResponse,
        request: Option<(usize, Bounds)>,
        bounds: Bounds,
        padding: Edges,
        sizes: &Vec<Size>,
        focused: &Vec<FocusId>,
    ) -> (r: LayoutItemsResponse)
        requires
            old(self)@.wf(),
            bounds.wf(),
            padding.wf(),
            sizes_ok(sizes@),
            sizes@.len() == old(self)@.items.len(),
            total_height(old(self)@.items) + 2 * size_prefix(sizes@, sizes@.len()) <= COORD_LIMIT,
        ensures
            final(self)@.wf(),
            match frame_target(old(self)@, Self::layout_view_spec(first), request, bounds, padding, sizes@) {
                Some(t) => (final(self)@, Self::layout_view_spec(r)) == prepaint_spec(
                    ListStateView { logical_scroll_top: Some(t), ..old(self)@ },
                    bounds,
                    padding,
                    sizes@,
                    focused@,
                ),
                None => final(self)@ == old(self)@ && r == first,
            },
    {
        let (k, req) = match request {
            Some(p) => p,
            None => { return first; },
        };
        if !self.request_in_range_exec(&first, k, req, sizes) {
            return first;
        }
        let target = self.autoscroll_request(&first, k, req, bounds, padding, sizes);
        match target {
            Some(t) => {
                proof {
                    let item = first.item_layouts@[k as int];
                    assert(item.index < self@.items.len());
                    lemma_walk_up_ix(self@.items, sizes@, first.item_layouts@, first.scroll_top.offset_in_item.0 as int,
                        k as nat, bounds, padding, req);
                }
                let off = t.offset_in_item.0;
                let clamped = if off > LIST_OFFSET_LIMIT {
                    LIST_OFFSET_LIMIT
                } else if off < -LIST_OFFSET_LIMIT {
                    -LIST_OFFSET_LIMIT
                } else {
                    off
                };
                self.apply_autoscroll(ListOffset { item_ix: t.item_ix, offset_in_item: Pixels(clamped) });
                self.prepaint(bounds, padding, sizes, focused)
            },
            None => first,
        }
    }

    fn request_in_range_exec(&self, first: &LayoutItemsResponse, k: usize, req: Bounds, sizes: &Vec<Size>) -> (r: bool)
        requires
            self@.wf(),
            sizes_ok(sizes@),
            sizes@.len() == self@.items.len(),
        ensures
            r == request_in_range(self@, Self::layout_view_spec(*first), k as nat, req, sizes@),
    {
        let coord = |v: i64| -> (b: bool)
            ensures
                b == coord_ok(v as int),
            { -COORD_LIMIT <= v && v <= COORD_LIMIT };
        let req_ok = coord(req.origin.x.0) && coord(req.origin.y.0) && coord(req.size.width.0)
            && coord(req.size.height.0);
        if !req_ok || k >= first.item_layouts.len() {
            return false;
        }
        let off = first.scroll_top.offset_in_item.0;
        if !(-LIST_OFFSET_LIMIT <= off && off <= LIST_OFFSET_LIMIT) {
            return false;
        }
        let n = self.items.len();
        let layouts = &first.item_layouts;
        let mut i: usize = 0;
        while i < layouts.len()
            invariant
                i <= layouts@.len(),
                layouts@ == first.item_layouts@,
                n == self@.items.len(),
                sizes@.len() == n,
                forall|x: int|
                    0 <= x < i ==> (#[trigger] layouts@[x]).index < n && layouts@[x].size
                        == sizes@[layouts@[x].index as int],
            decreases layouts@.len() - i,
        {
            let l = layouts[i];
            if l.index >= n || l.size != sizes[l.index] {
                assert(!layouts_match(layouts@, n as nat, sizes@)) by {
                    assert(layouts@[i as int] == l);
                }
                return false;
            }
            i = i + 1;
        }
        assert(layouts_match(layouts@, n as nat, sizes@));
        let mut top: i64 = 0;
        let mut j: usize = 0;
        while j < k
            invariant
                j <= k < layouts@.len(),
                layouts@ == first.item_layouts@,
                n == self@.items.len(),
                top == placed_top(layouts@, j as nat, 0),
                0 <= top <= COORD_LIMIT,
                layouts_match(layouts@, n as nat, sizes@),
                sizes_ok(sizes@),
                sizes@.len() == n,
            decreases k - j,
        {
            let h = layouts[j].size.height.0;
            proof {
                assert(sizes@[layouts@[j as int].index as int].wf());
            }
            if h > COORD_LIMIT - top {
                proof {
                    lemma_placed_top_mono(layouts@, (j + 1) as nat, k as nat, 0, sizes@);
                }
                return false;
            }
            top = top + h;
            j = j + 1;
        }
        true
    }
}

/// Revealing item `ix` shows it: an item at or above the scroll position
/// becomes the top item with its top edge at the viewport's top; an item below
/// it ends up with its bottom edge (with the padding) at or above the
/// viewport's bottom: either the scroll position stays, or the item's bottom
/// edge is brought exactly to the viewport's bottom (never above the content's
/// start). The items are not changed.
pub proof fn lemma_reveal_item_shows_it(v: ListStateView, ix: usize)
    requires
        v.wf(),
    ensures
        ({
            let st0 = v.logical_scroll_top_spec();
            let w = v.reveal_item_spec(ix);
            let st = w.logical_scroll_top_spec();
            let height = v.viewport().size.height.0 as int;
            let pad = v.padding();
            &&& w.items == v.items
            &&& ix <= st0.item_ix ==> st.item_ix == ix && w.scroll_top_px(st) == prefix_height(v.items, ix as nat)
            &&& ix > st0.item_ix && st0.offset_in_item.0 >= 0 ==> w.scroll_top_px(st) >= prefix_height(
                v.items,
                (ix + 1) as nat,
            ) + pad.top.0 + pad.bottom.0 - height
            &&& ix > st0.item_ix ==> (st == st0 || w.scroll_top_px(st) == max0(
                prefix_height(v.items, (ix + 1) as nat) + pad.top.0 + pad.bottom.0 - height,
            ))
        }),
{
    let st0 = v.logical_scroll_top_spec();
    let items = v.items;
    let height = v.viewport().size.height.0 as int;
    let pad = v.padding();
    if ix > st0.item_ix {
        let bottom = prefix_height(items, (ix + 1) as nat) + pad.top.0;
        let goal = max0(bottom - height + pad.bottom.0);
        let k = first_end_reaching(items, 0, goal);
        lemma_first_end_reaching(items, 0, goal);
        lemma_prefix_bounds(items, (ix + 1) as nat, (ix + 1) as nat);
        if k >= st0.item_ix {
            lemma_found_item_starts_above(items, goal);
            lemma_prefix_bounds(items, k, k);
        } else {
            lemma_prefix_bounds(items, (k + 1) as nat, st0.item_ix as nat);
        }
    }
}

} // verus!
