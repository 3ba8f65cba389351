//! The list's modes and per-item records: following the tail, alignment, sizing
//! and measuring behaviors, scroll offsets and measured items.
use vstd::prelude::*;
use std::ops::Range;
use crate::geometry::{Pixels, Size};

verus! {

/// Whether the list follows new content at its end.
#[derive(Clone, Copy, Debug, PartialEq, Eq, Structural)]
pub enum FollowMode {
    /// No automatic following; the default.
    Normal,
    /// Once scrolled to the bottom, the list follows the tail.
    Tail,
}

/// The list's following state.
#[derive(Clone, Copy, Debug, PartialEq, Eq, Structural)]
pub enum FollowState {
    Normal,
    Tail { is_following: bool },
}

impl FollowState {
    /// Whether the list is snapping to its end at every layout.
    pub fn is_following(&self) -> (r: bool)
        ensures
            r == (*self == FollowState::Tail { is_following: true }),
    {
        match self {
            FollowState::Tail { is_following } => *is_following,
            FollowState::Normal => false,
        }
    }

    /// Whether the list follows the tail in principle but the user scrolled away.
    pub fn has_stopped_following(&self) -> (r: bool)
        ensures
            r == (*self == FollowState::Tail { is_following: false }),
    {
        match self {
            FollowState::Tail { is_following } => !*is_following,
            FollowState::Normal => false,
        }
    }

    /// Resumes following the tail; a list in normal mode is left alone.
    pub fn start_following(&mut self)
        ensures
            *final(self) == (match *old(self) {
                FollowState::Tail { .. } => FollowState::Tail { is_following: true },
                FollowState::Normal => FollowState::Normal,
            }),
    {
        if let FollowState::Tail { is_following: false } = *self {
            *self = FollowState::Tail { is_following: true };
        }
    }

    /// Stops following the tail, as when the user scrolls away; a list in normal
    /// mode is left alone.
    pub fn stop_following(&mut self)
        ensures
            *final(self) == (match *old(self) {
                FollowState::Tail { .. } => FollowState::Tail { is_following: false },
                FollowState::Normal => FollowState::Normal,
            }),
    {
        if let FollowState::Tail { is_following: true } = *self {
            *self = FollowState::Tail { is_following: false };
        }
    }
}

/// Stopping and then resuming restores a following list; neither changes a list
/// in normal mode.
pub proof fn lemma_stop_then_start_follow(s: FollowState)
    ensures
        (match s {
            FollowState::Tail { .. } => FollowState::Tail { is_following: true },
            FollowState::Normal => FollowState::Normal,
        }) == (match (match s {
            FollowState::Tail { .. } => FollowState::Tail { is_following: false },
            FollowState::Normal => FollowState::Normal,
        }) {
            FollowState::Tail { .. } => FollowState::Tail { is_following: true },
            FollowState::Normal => FollowState::Normal,
        }),
{
}

/// Whether the list scrolls top to bottom or, like a chat log, bottom to top.
#[derive(Clone, Copy, Debug, PartialEq, Eq, Structural)]
pub enum ListAlignment {
    Top,
    Bottom,
}

/// How the list sizes itself during layout.
#[derive(Clone, Copy, Debug, PartialEq, Eq, Structural)]
pub enum ListSizingBehavior {
    /// From the sizes of its items.
    Infer,
    /// Without a fixed size; the default.
    Auto,
}

/// Which items the list measures during layout.
#[derive(Clone, Copy, Debug, PartialEq, Eq, Structural)]
pub enum ListMeasuringBehavior {
    /// All items, once; the flag says whether that was done.
    Measure(bool),
    /// Only the visible items; the default.
    Visible,
}

impl ListMeasuringBehavior {
    /// Asks for all items to be measured again, when all are measured.
    pub fn reset(&mut self)
        ensures
            *final(self) == (match *old(self) {
                ListMeasuringBehavior::Measure(_) => ListMeasuringBehavior::Measure(false),
                ListMeasuringBehavior::Visible => ListMeasuringBehavior::Visible,
            }),
    {
        match self {
            ListMeasuringBehavior::Measure(has_measured) => {
                *has_measured = false;
            },
            ListMeasuringBehavior::Visible => {},
        }
    }
}

/// How wide the items may be.
#[derive(Clone, Copy, Debug, PartialEq, Eq, Structural)]
pub enum ListHorizontalSizingBehavior {
    /// No wider than the list; the default.
    FitList,
    /// Wider than the list when an item is.
    Unconstrained,
}

/// A position in a list: an item and how far below its top.
#[derive(Clone, Copy, Debug, PartialEq, Eq, Structural)]
pub struct ListOffset {
    pub item_ix: usize,
    pub offset_in_item: Pixels,
}

/// A scroll event in terms of the list's items.
#[derive(Debug)]
pub struct ListScrollEvent {
    /// The items visible after the scroll.
    pub visible_range: Range<usize>,
    /// How many items are visible.
    pub count: usize,
    /// Whether the list is scrolled.
    pub is_scrolled: bool,
    /// Whether the list follows its tail.
    pub is_following_tail: bool,
}

/// A focus handle that the host registered, by its identifier.
#[derive(Clone, Copy, Debug, PartialEq, Eq, Structural)]
pub struct FocusId(pub u64);

/// An item of the list: measured, or not yet with an optional size hint.
#[derive(Clone, Copy, Debug, PartialEq, Eq, Structural)]
pub enum ListItem {
    Unmeasured { size_hint: Option<Size>, focus_handle: Option<FocusId> },
    Measured { size: Size, focus_handle: Option<FocusId> },
}

impl ListItem {
    /// The measured size, if the item was measured.
    pub fn size(&self) -> (r: Option<Size>)
        ensures
            r == (match *self {
                ListItem::Measured { size, .. } => Some(size),
                ListItem::Unmeasured { .. } => None,
            }),
    {
        match self {
            ListItem::Measured { size, .. } => Some(*size),
            ListItem::Unmeasured { .. } => None,
        }
    }

    /// The best known size: the measured one, else the hint.
    pub fn size_hint(&self) -> (r: Option<Size>)
        ensures
            r == (match *self {
                ListItem::Measured { size, .. } => Some(size),
                ListItem::Unmeasured { size_hint, .. } => size_hint,
            }),
    {
        match self {
            ListItem::Measured { size, .. } => Some(*size),
            ListItem::Unmeasured { size_hint, .. } => *size_hint,
        }
    }

    /// The item's focus handle, if it has one.
    pub fn focus_handle(&self) -> (r: Option<FocusId>)
        ensures
            r == (match *self {
                ListItem::Measured { focus_handle, .. } => focus_handle,
                ListItem::Unmeasured { focus_handle, .. } => focus_handle,
            }),
    {
        match self {
            ListItem::Measured { focus_handle, .. } => *focus_handle,
            ListItem::Unmeasured { focus_handle, .. } => *focus_handle,
        }
    }

    /// Whether the item's focus handle is among the handles that contain the
    /// focused element.
    pub fn contains_focused(&self, focused_within: &Vec<FocusId>) -> (r: bool)
        ensures
            r == (match self.focus_handle_spec() {
                Some(h) => focused_within@.contains(h),
                None => false,
            }),
    {
        match self.focus_handle() {
            Some(h) => {
                let mut i: usize = 0;
                while i < focused_within.len()
                    invariant
                        0 <= i <= focused_within@.len(),
                        self.focus_handle_spec() == Some(h),
                        forall|k: int| 0 <= k < i ==> focused_within@[k] != h,
                    decreases focused_within@.len() - i,
                {
                    if focused_within[i] == h {
                        assert(focused_within@[i as int] == h);
                        return true;
                    }
                    i = i + 1;
                }
                false
            },
            None => false,
        }
    }

    pub open spec fn focus_handle_spec(&self) -> Option<FocusId> {
        match *self {
            ListItem::Measured { focus_handle, .. } => focus_handle,
            ListItem::Unmeasured { focus_handle, .. } => focus_handle,
        }
    }
}

} // verus!
