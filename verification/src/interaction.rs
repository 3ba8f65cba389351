//! Per-element interaction records and scroll anchors.
use vstd::prelude::*;
use crate::geometry::{Point, Pixels};
use crate::tooltip::DispatchPhase;
use crate::scroll_handle::{ScrollHandle, ScrollHandleView, point_offset_ok, OFFSET_LIMIT};

verus! {

/// Whether an element, or the group that holds it, is pressed.
#[derive(Clone, Copy, Debug, PartialEq, Eq, Structural)]
pub struct ElementClickedState {
    /// The element's group is pressed.
    pub group: bool,
    /// The element itself is pressed.
    pub element: bool,
}

impl ElementClickedState {
    /// Neither pressed.
    pub fn new() -> (r: ElementClickedState)
        ensures
            !r.group && !r.element,
    {
        ElementClickedState { group: false, element: false }
    }

    /// Whether the element or its group is pressed.
    pub fn is_clicked(&self) -> (r: bool)
        ensures
            r == (self.group || self.element),
    {
        self.group || self.element
    }

    /// A mouse button is released: in the capture phase a pressed state is
    /// cleared; returns whether it was, in which case the window redraws.
    pub fn on_mouse_up(&mut self, phase: DispatchPhase) -> (refresh: bool)
        ensures
            refresh == (phase == DispatchPhase::Capture && old(self).is_clicked_spec()),
            *final(self) == (if refresh { ElementClickedState { group: false, element: false } } else { *old(self) }),
    {
        let capture = match phase {
            DispatchPhase::Capture => true,
            DispatchPhase::Bubble => false,
        };
        if capture && self.is_clicked() {
            *self = ElementClickedState::new();
            true
        } else {
            false
        }
    }

    /// A mouse button goes down: in the bubble phase, unless a handler prevented
    /// the default, the state records which of the element and its active group
    /// the pointer is over, when it is over either; returns whether it did.
    pub fn on_mouse_down(
        &mut self,
        phase: DispatchPhase,
        default_prevented: bool,
        group_hovered: bool,
        element_hovered: bool,
    ) -> (refresh: bool)
        ensures
            refresh == (phase == DispatchPhase::Bubble && !default_prevented && (group_hovered
                || element_hovered)),
            *final(self) == (if refresh {
                ElementClickedState { group: group_hovered, element: element_hovered }
            } else {
                *old(self)
            }),
    {
        let bubble = match phase {
            DispatchPhase::Bubble => true,
            DispatchPhase::Capture => false,
        };
        if bubble && !default_prevented && (group_hovered || element_hovered) {
            *self = ElementClickedState { group: group_hovered, element: element_hovered };
            true
        } else {
            false
        }
    }

    pub open spec fn is_clicked_spec(self) -> bool {
        self.group || self.element
    }
}

/// Whether an element, or the group that holds it, is hovered.
#[derive(Clone, Copy, Debug, PartialEq, Eq, Structural)]
pub struct ElementHoverState {
    /// The element's group is hovered.
    pub group: bool,
    /// The element itself is hovered.
    pub element: bool,
}

impl ElementHoverState {
    /// Neither hovered.
    pub fn new() -> (r: ElementHoverState)
        ensures
            !r.group && !r.element,
    {
        ElementHoverState { group: false, element: false }
    }

    /// A pointer move: in the capture phase the element's hover flag follows
    /// `hovered`; returns whether it changed, in which case the view is notified.
    pub fn track_element(&mut self, phase: DispatchPhase, hovered: bool) -> (changed: bool)
        ensures
            changed == (phase == DispatchPhase::Capture && hovered != old(self).element),
            final(self).group == old(self).group,
            final(self).element == (if changed { hovered } else { old(self).element }),
    {
        let capture = match phase {
            DispatchPhase::Capture => true,
            DispatchPhase::Bubble => false,
        };
        if capture && hovered != self.element {
            self.element = hovered;
            true
        } else {
            false
        }
    }

    /// A pointer move: in the capture phase the group's hover flag follows
    /// `group_hovered`; returns whether it changed.
    pub fn track_group(&mut self, phase: DispatchPhase, group_hovered: bool) -> (changed: bool)
        ensures
            changed == (phase == DispatchPhase::Capture && group_hovered != old(self).group),
            final(self).element == old(self).element,
            final(self).group == (if changed { group_hovered } else { old(self).group }),
    {
        let capture = match phase {
            DispatchPhase::Capture => true,
            DispatchPhase::Bubble => false,
        };
        if capture && group_hovered != self.group {
            self.group = group_hovered;
            true
        } else {
            false
        }
    }
}

/// An element that its scrolling ancestor can be scrolled to, not necessarily a
/// direct child. A request to scroll to it waits for the next frame.
#[derive(Clone, Copy, Debug, PartialEq, Eq, Structural)]
pub struct ScrollAnchor {
    /// Where the element was drawn last, relative to the window's origin less
    /// the element offset.
    pub last_origin: Point,
    /// A scroll to the element was asked for and waits for the next frame.
    pub scroll_requested: bool,
}

impl ScrollAnchor {
    /// An anchor that has not been drawn yet, with no request.
    pub fn for_handle() -> (r: ScrollAnchor)
        ensures
            r.last_origin == (Point { x: Pixels(0), y: Pixels(0) }),
            !r.scroll_requested,
    {
        ScrollAnchor { last_origin: Point { x: Pixels(0), y: Pixels(0) }, scroll_requested: false }
    }

    /// Records where the element was drawn.
    pub fn record_origin(&mut self, origin: Point)
        ensures
            final(self).last_origin == origin,
            final(self).scroll_requested == old(self).scroll_requested,
    {
        self.last_origin = origin;
    }

    /// Asks to scroll to the element in the next frame. Nothing moves now: the
    /// request is kept until `run_next_frame`, which reads the bounds then.
    pub fn scroll_to(&mut self)
        ensures
            *final(self) == (ScrollAnchor { scroll_requested: true, ..*old(self) }),
    {
        self.scroll_requested = true;
    }

    /// Runs at the start of a frame: a pending request scrolls the handle so that
    /// the element's last origin lines up with the scroller's origin (the offset
    /// becomes the scroller's origin less the element's, both as they are now)
    /// and is then done. Without a request nothing changes.
    pub fn run_next_frame(&mut self, handle: &mut ScrollHandle)
        requires
            old(self).last_origin.wf(),
        ensures
            final(self).last_origin == old(self).last_origin,
            !final(self).scroll_requested,
            old(self).scroll_requested ==> final(handle)@ == (ScrollHandleView {
                offset: Point {
                    x: Pixels((old(handle)@.bounds.origin.x.0 - old(self).last_origin.x.0) as i64),
                    y: Pixels((old(handle)@.bounds.origin.y.0 - old(self).last_origin.y.0) as i64),
                },
                ..old(handle)@
            }),
            !old(self).scroll_requested ==> final(handle)@ == old(handle)@,
    {
        if self.scroll_requested {
            let viewport = handle.bounds();
            let target = Point {
                x: Pixels(viewport.origin.x.0 - self.last_origin.x.0),
                y: Pixels(viewport.origin.y.0 - self.last_origin.y.0),
            };
            assert(point_offset_ok(target));
            handle.set_offset(target);
            self.scroll_requested = false;
        }
    }
}

} // verus!
