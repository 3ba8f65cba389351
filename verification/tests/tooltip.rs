use rgpui::tooltip::{ActiveTooltip, DispatchPhase, MouseMoveAction, TooltipView, VisibilityAction, check_visible_and_update, clear_active_tooltip, clear_active_tooltip_if_not_hoverable, handle_hide_delay_elapsed, handle_mouse_move, handle_press_or_wheel, handle_show_delay_elapsed, set_tooltip_on_window, show_delay_ms};

#[test]
fn tooltip_shows_after_delay_and_hides_when_left() {
    let mut state: Option<ActiveTooltip> = None;
    assert_eq!(handle_mouse_move(&mut state, true, DispatchPhase::Capture, false), MouseMoveAction::Idle);
    assert_eq!(handle_mouse_move(&mut state, true, DispatchPhase::Bubble, false), MouseMoveAction::ScheduleShow);
    assert_eq!(state, Some(ActiveTooltip::WaitingForShow));
    assert_eq!(handle_mouse_move(&mut state, true, DispatchPhase::Bubble, false), MouseMoveAction::Idle);
    assert!(handle_show_delay_elapsed(&mut state, Some((TooltipView(1), false))));
    assert_eq!(set_tooltip_on_window(&state), Some(TooltipView(1)));
    assert_eq!(handle_mouse_move(&mut state, false, DispatchPhase::Capture, false), MouseMoveAction::CheckVisible);
    let (action, remains) = check_visible_and_update(&mut state, false, false, false);
    assert_eq!(action, VisibilityAction::Hide);
    assert!(!remains);
    assert_eq!(state, None);
}

#[test]
fn tooltip_waiting_for_show_is_cancelled_when_left() {
    let mut state = Some(ActiveTooltip::WaitingForShow);
    assert_eq!(handle_mouse_move(&mut state, false, DispatchPhase::Bubble, false), MouseMoveAction::CancelShow);
    assert_eq!(state, None);
    assert_eq!(set_tooltip_on_window(&state), None);
}

#[test]
fn hoverable_tooltip_waits_to_hide_and_recovers() {
    let mut state = Some(ActiveTooltip::Visible { tooltip: TooltipView(4), is_hoverable: true });
    let (a, remains) = check_visible_and_update(&mut state, true, false, false);
    assert_eq!(a, VisibilityAction::ScheduleHide(TooltipView(4)));
    assert!(remains);
    let (a, _) = check_visible_and_update(&mut state, true, false, true);
    assert_eq!(a, VisibilityAction::CancelHide(TooltipView(4)));
    assert_eq!(state, Some(ActiveTooltip::Visible { tooltip: TooltipView(4), is_hoverable: true }));
    check_visible_and_update(&mut state, true, false, false);
    assert!(handle_hide_delay_elapsed(&mut state));
    assert!(!handle_hide_delay_elapsed(&mut state));
}

#[test]
fn press_clears_only_plain_tooltips() {
    let mut state = Some(ActiveTooltip::Visible { tooltip: TooltipView(1), is_hoverable: false });
    assert!(!handle_press_or_wheel(&mut state, true));
    assert!(state.is_some());
    assert!(handle_press_or_wheel(&mut state, false));
    assert!(state.is_none());
    let mut state = Some(ActiveTooltip::Visible { tooltip: TooltipView(1), is_hoverable: true });
    assert!(!clear_active_tooltip_if_not_hoverable(&mut state));
    assert!(clear_active_tooltip(&mut state));
    let mut waiting = Some(ActiveTooltip::WaitingForShow);
    assert!(!clear_active_tooltip(&mut waiting));
    assert_eq!(show_delay_ms(None), 500);
    assert_eq!(show_delay_ms(Some(75)), 75);
}

/// The element owning the tooltip sits under the pointer at (10, 10) and spans
/// up to (50, 50); the host's timer fires after `show_delay_ms` of hovering.
fn hover_owner(state: &mut Option<ActiveTooltip>) {
    assert_eq!(
        handle_mouse_move(state, true, DispatchPhase::Bubble, false),
        MouseMoveAction::ScheduleShow
    );
}

#[test]
fn tooltip_respects_custom_show_delay() {
    let default_delay = show_delay_ms(None);
    let extra_delay = 1000;
    let delay = show_delay_ms(Some(default_delay + extra_delay));
    let mut state = None;
    hover_owner(&mut state);
    // After the default delay the custom one has not run out: still waiting.
    let elapsed = default_delay;
    assert!(elapsed < delay);
    assert!(matches!(state, Some(ActiveTooltip::WaitingForShow)));
    // After the extra delay it has, and the tooltip shows.
    let elapsed = elapsed + extra_delay;
    assert!(elapsed >= delay);
    handle_show_delay_elapsed(&mut state, Some((TooltipView(1), false)));
    assert!(matches!(state, Some(ActiveTooltip::Visible { .. })));
}

#[test]
fn tooltip_hides_after_mouse_leaves_origin() {
    let mut state = None;
    hover_owner(&mut state);
    assert_eq!(show_delay_ms(None), 500);
    handle_show_delay_elapsed(&mut state, Some((TooltipView(1), false)));
    assert!(matches!(state, Some(ActiveTooltip::Visible { .. })));
    // The pointer moves to (75, 75), outside the owner.
    let (x, y) = (75, 75);
    let owner_hovered = x < 50 && y < 50;
    assert_eq!(
        handle_mouse_move(&mut state, owner_hovered, DispatchPhase::Capture, false),
        MouseMoveAction::CheckVisible
    );
    check_visible_and_update(&mut state, false, owner_hovered, false);
    assert!(state.is_none());
}
