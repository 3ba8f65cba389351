//! The life cycle of an element's tooltip: waiting to show, visible, waiting to
//! hide. The decisions are made here from what the pointer is over; the host runs
//! the timers, builds the tooltip's view and redraws.
use vstd::prelude::*;

verus! {

/// How long the pointer must rest on an element before its tooltip shows, in
/// milliseconds, unless the element asks for another delay.
pub const DEFAULT_TOOLTIP_SHOW_DELAY_MS: u64 = 500;

/// How long a hoverable tooltip stays after the pointer leaves, in milliseconds.
pub const HOVERABLE_TOOLTIP_HIDE_DELAY_MS: u64 = 500;

/// A tooltip view that the host built, by its handle.
#[derive(Clone, Copy, Debug, PartialEq, Eq, Structural)]
pub struct TooltipView(pub u64);

/// The state of an element's tooltip.
#[derive(Clone, Copy, Debug, PartialEq, Eq, Structural)]
pub enum ActiveTooltip {
    /// The show delay is running.
    WaitingForShow,
    /// The tooltip is shown; the element, or a hoverable tooltip, is hovered.
    Visible { tooltip: TooltipView, is_hoverable: bool },
    /// A hoverable tooltip is shown but not hovered; the hide delay is running.
    WaitingForHide { tooltip: TooltipView },
}

/// The phase of the pointer event being dispatched.
#[derive(Clone, Copy, Debug, PartialEq, Eq, Structural)]
pub enum DispatchPhase {
    Capture,
    Bubble,
}

/// What a pointer move asks of the host.
#[derive(Clone, Copy, Debug, PartialEq, Eq, Structural)]
pub enum MouseMoveAction {
    /// Nothing.
    Idle,
    /// Stop the show delay; the tooltip state is cleared.
    CancelShow,
    /// Start the show delay; the tooltip is now waiting to show.
    ScheduleShow,
    /// Redraw the element's view so that visibility is checked again.
    CheckVisible,
}

/// What a visibility check asks of the host.
#[derive(Clone, Copy, Debug, PartialEq, Eq, Structural)]
pub enum VisibilityAction {
    /// Nothing.
    Idle,
    /// The tooltip is hidden now; redraw the window.
    Hide,
    /// Start the hide delay for this tooltip.
    ScheduleHide(TooltipView),
    /// The hide delay is cancelled; the tooltip is visible and hoverable again.
    CancelHide(TooltipView),
}

/// The action a pointer move leads to, given the tooltip state, whether the
/// element is hovered, the dispatch phase, and whether the shown tooltip itself
/// is hovered.
pub open spec fn mouse_move_spec(
    state: Option<ActiveTooltip>,
    element_hovered: bool,
    phase: DispatchPhase,
    tooltip_hovered: bool,
) -> MouseMoveAction {
    match state {
        None => if element_hovered && phase == DispatchPhase::Bubble {
            MouseMoveAction::ScheduleShow
        } else {
            MouseMoveAction::Idle
        },
        Some(ActiveTooltip::WaitingForShow) => if element_hovered {
            MouseMoveAction::Idle
        } else {
            MouseMoveAction::CancelShow
        },
        Some(ActiveTooltip::Visible { is_hoverable, .. }) => if phase == DispatchPhase::Capture
            && !element_hovered && (!is_hoverable || !tooltip_hovered) {
            MouseMoveAction::CheckVisible
        } else {
            MouseMoveAction::Idle
        },
        Some(ActiveTooltip::WaitingForHide { .. }) => if phase == DispatchPhase::Capture && (
        element_hovered || tooltip_hovered) {
            MouseMoveAction::CheckVisible
        } else {
            MouseMoveAction::Idle
        },
    }
}

/// The state after a pointer move's action.
pub open spec fn mouse_move_next_spec(state: Option<ActiveTooltip>, action: MouseMoveAction) -> Option<ActiveTooltip> {
    match action {
        MouseMoveAction::CancelShow => None,
        MouseMoveAction::ScheduleShow => Some(ActiveTooltip::WaitingForShow),
        _ => state,
    }
}

/// Handles a pointer move over the element: decides the action and updates the
/// state. The hover of the shown tooltip is only consulted for shown tooltips.
pub fn handle_mouse_move(
    state: &mut Option<ActiveTooltip>,
    element_hovered: bool,
    phase: DispatchPhase,
    tooltip_hovered: bool,
) -> (r: MouseMoveAction)
    ensures
        r == mouse_move_spec(*old(state), element_hovered, phase, tooltip_hovered),
        *final(state) == mouse_move_next_spec(*old(state), r),
{
    let action = match *state {
        None => if element_hovered && phase == DispatchPhase::Bubble {
            MouseMoveAction::ScheduleShow
        } else {
            MouseMoveAction::Idle
        },
        Some(ActiveTooltip::WaitingForShow) => if element_hovered {
            MouseMoveAction::Idle
        } else {
            MouseMoveAction::CancelShow
        },
        Some(ActiveTooltip::Visible { is_hoverable, .. }) => if phase == DispatchPhase::Capture
            && !element_hovered && (!is_hoverable || !tooltip_hovered) {
            MouseMoveAction::CheckVisible
        } else {
            MouseMoveAction::Idle
        },
        Some(ActiveTooltip::WaitingForHide { .. }) => if phase == DispatchPhase::Capture && (
        element_hovered || tooltip_hovered) {
            MouseMoveAction::CheckVisible
        } else {
            MouseMoveAction::Idle
        },
    };
    match action {
        MouseMoveAction::CancelShow => {
            *state = None;
        },
        MouseMoveAction::ScheduleShow => {
            *state = Some(ActiveTooltip::WaitingForShow);
        },
        _ => {},
    }
    action
}

/// Handles the end of the show delay: the tooltip that the host built, with
/// whether it is hoverable, becomes visible; when nothing was built the state is
/// cleared. Returns whether the window must be redrawn, which it always must.
pub fn handle_show_delay_elapsed(
    state: &mut Option<ActiveTooltip>,
    built: Option<(TooltipView, bool)>,
) -> (redraw: bool)
    ensures
        redraw,
        *final(state) == (match built {
            Some((tooltip, is_hoverable)) => Some(ActiveTooltip::Visible { tooltip, is_hoverable }),
            None => None,
        }),
{
    *state = match built {
        Some((tooltip, is_hoverable)) => Some(ActiveTooltip::Visible { tooltip, is_hoverable }),
        None => None,
    };
    true
}

/// The action of a visibility check, from the state and whether the element or,
/// for a hoverable tooltip, the tooltip is hovered.
pub open spec fn visibility_spec(state: Option<ActiveTooltip>, tooltip_is_hoverable: bool, is_hovered: bool) -> VisibilityAction {
    match state {
        Some(ActiveTooltip::Visible { tooltip, .. }) => if is_hovered {
            VisibilityAction::Idle
        } else if tooltip_is_hoverable {
            VisibilityAction::ScheduleHide(tooltip)
        } else {
            VisibilityAction::Hide
        },
        Some(ActiveTooltip::WaitingForHide { tooltip }) => if is_hovered {
            VisibilityAction::CancelHide(tooltip)
        } else {
            VisibilityAction::Idle
        },
        _ => VisibilityAction::Idle,
    }
}

/// The state after a visibility check's action.
pub open spec fn visibility_next_spec(state: Option<ActiveTooltip>, action: VisibilityAction) -> Option<ActiveTooltip> {
    match action {
        VisibilityAction::Idle => state,
        VisibilityAction::Hide => None,
        VisibilityAction::ScheduleHide(tooltip) => Some(ActiveTooltip::WaitingForHide { tooltip }),
        VisibilityAction::CancelHide(tooltip) => Some(ActiveTooltip::Visible { tooltip, is_hoverable: true }),
    }
}

/// Checks, while the window is drawn, whether the tooltip is still wanted: the
/// element counts as hovered when it is, or when a hoverable tooltip's bounds hold
/// the pointer. Returns the action and whether a tooltip remains.
pub fn check_visible_and_update(
    state: &mut Option<ActiveTooltip>,
    tooltip_is_hoverable: bool,
    element_hovered: bool,
    pointer_in_tooltip: bool,
) -> (r: (VisibilityAction, bool))
    ensures
        r.0 == visibility_spec(*old(state), tooltip_is_hoverable, element_hovered || (tooltip_is_hoverable && pointer_in_tooltip)),
        *final(state) == visibility_next_spec(*old(state), r.0),
        r.1 == (*final(state) is Some),
{
    let is_hovered = element_hovered || (tooltip_is_hoverable && pointer_in_tooltip);
    let action = match *state {
        Some(ActiveTooltip::Visible { tooltip, .. }) => if is_hovered {
            VisibilityAction::Idle
        } else if tooltip_is_hoverable {
            VisibilityAction::ScheduleHide(tooltip)
        } else {
            VisibilityAction::Hide
        },
        Some(ActiveTooltip::WaitingForHide { tooltip }) => if is_hovered {
            VisibilityAction::CancelHide(tooltip)
        } else {
            VisibilityAction::Idle
        },
        _ => VisibilityAction::Idle,
    };
    match action {
        VisibilityAction::Idle => {},
        VisibilityAction::Hide => {
            clear_active_tooltip(state);
        },
        VisibilityAction::ScheduleHide(tooltip) => {
            *state = Some(ActiveTooltip::WaitingForHide { tooltip });
        },
        VisibilityAction::CancelHide(tooltip) => {
            *state = Some(ActiveTooltip::Visible { tooltip, is_hoverable: true });
        },
    }
    (action, state.is_some())
}

/// Handles the end of the hide delay: the tooltip is dropped. Returns whether a
/// tooltip was dropped, in which case the window must be redrawn.
pub fn handle_hide_delay_elapsed(state: &mut Option<ActiveTooltip>) -> (redraw: bool)
    ensures
        *final(state) is None,
        redraw == (*old(state) is Some),
{
    let had = state.is_some();
    *state = None;
    had
}

/// Clears the tooltip. Returns whether the window must be redrawn: when a
/// tooltip was shown, not when it was only waiting to show.
pub fn clear_active_tooltip(state: &mut Option<ActiveTooltip>) -> (refresh: bool)
    ensures
        *final(state) is None,
        refresh == (*old(state) matches Some(t) && !(t is WaitingForShow)),
{
    let refresh = match *state {
        None => false,
        Some(ActiveTooltip::WaitingForShow) => false,
        Some(ActiveTooltip::Visible { .. }) => true,
        Some(ActiveTooltip::WaitingForHide { .. }) => true,
    };
    *state = None;
    refresh
}

/// Clears a shown tooltip that is not hoverable; other states are kept. Returns
/// whether it was cleared, in which case the window must be redrawn.
pub fn clear_active_tooltip_if_not_hoverable(state: &mut Option<ActiveTooltip>) -> (cleared: bool)
    ensures
        cleared == (*old(state) matches Some(ActiveTooltip::Visible { is_hoverable, .. }) && !is_hoverable),
        cleared ==> *final(state) is None,
        !cleared ==> *final(state) == *old(state),
{
    let should_clear = match *state {
        Some(ActiveTooltip::Visible { is_hoverable, .. }) => !is_hoverable,
        _ => false,
    };
    if should_clear {
        *state = None;
    }
    should_clear
}

/// The tooltip to put on the window: the shown one, if any.
pub fn set_tooltip_on_window(state: &Option<ActiveTooltip>) -> (r: Option<TooltipView>)
    ensures
        r == (match *state {
            Some(ActiveTooltip::Visible { tooltip, .. }) => Some(tooltip),
            Some(ActiveTooltip::WaitingForHide { tooltip }) => Some(tooltip),
            _ => None,
        }),
{
    match *state {
        Some(ActiveTooltip::Visible { tooltip, .. }) => Some(tooltip),
        Some(ActiveTooltip::WaitingForHide { tooltip }) => Some(tooltip),
        _ => None,
    }
}

/// Handles a button press or a wheel turn: unless the pointer is over the shown
/// tooltip, a shown tooltip that is not hoverable is cleared. Returns whether it
/// was, in which case the window must be redrawn.
pub fn handle_press_or_wheel(state: &mut Option<ActiveTooltip>, tooltip_hovered: bool) -> (cleared: bool)
    ensures
        cleared == (!tooltip_hovered && (*old(state) matches Some(ActiveTooltip::Visible { is_hoverable, .. }) && !is_hoverable)),
        cleared ==> *final(state) is None,
        !cleared ==> *final(state) == *old(state),
{
    if !tooltip_hovered {
        clear_active_tooltip_if_not_hoverable(state)
    } else {
        false
    }
}

/// The show delay: the element's own, or the default.
pub fn show_delay_ms(custom: Option<u64>) -> (r: u64)
    ensures
        r == (match custom {
            Some(d) => d,
            None => DEFAULT_TOOLTIP_SHOW_DELAY_MS,
        }),
{
    match custom {
        Some(d) => d,
        None => DEFAULT_TOOLTIP_SHOW_DELAY_MS,
    }
}

/// A pointer that rests on the element schedules the tooltip only once: while it
/// waits to show, further moves over the element change nothing.
pub proof fn lemma_show_scheduled_once(phase: DispatchPhase, tooltip_hovered: bool)
    ensures
        mouse_move_spec(
            mouse_move_next_spec(None, mouse_move_spec(None, true, DispatchPhase::Bubble, tooltip_hovered)),
            true,
            phase,
            tooltip_hovered,
        ) == MouseMoveAction::Idle,
{
}

/// Leaving the element before the tooltip shows cancels it: the state is cleared.
pub proof fn lemma_leave_cancels_show(phase: DispatchPhase, tooltip_hovered: bool)
    ensures
        mouse_move_next_spec(
            Some(ActiveTooltip::WaitingForShow),
            mouse_move_spec(Some(ActiveTooltip::WaitingForShow), false, phase, tooltip_hovered),
        ) is None,
{
}

/// A hoverable tooltip that is left and then hovered again before the hide delay
/// ends is visible again, with the same view.
pub proof fn lemma_hide_then_hover_restores(tooltip: TooltipView)
    ensures
        ({
            let s0 = Some(ActiveTooltip::Visible { tooltip, is_hoverable: true });
            let s1 = visibility_next_spec(s0, visibility_spec(s0, true, false));
            let s2 = visibility_next_spec(s1, visibility_spec(s1, true, true));
            s1 == Some(ActiveTooltip::WaitingForHide { tooltip }) && s2 == s0
        }),
{
}

/// A tooltip that is not hoverable disappears at the first check after the pointer
/// leaves the element.
pub proof fn lemma_plain_tooltip_hides_when_left(tooltip: TooltipView)
    ensures
        visibility_next_spec(
            Some(ActiveTooltip::Visible { tooltip, is_hoverable: false }),
            visibility_spec(Some(ActiveTooltip::Visible { tooltip, is_hoverable: false }), false, false),
        ) is None,
{
}

} // verus!
