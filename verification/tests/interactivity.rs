use rgpui::geometry::{point, px, AxisOverflow, Overflow, Point};
use rgpui::interaction::{ElementClickedState, ElementHoverState};
use rgpui::interactivity::{
    apply_wheel_turn, drop_on_release, focus_on_press, layout_setup, DropOutcome, PressFocus, should_insert_hitbox, wheel_scroll_delta, ClickKind, HitboxUses, HoverListenerState,
    InteractiveElementState, KeyboardActivation, KeyboardButton, MouseButton, MouseDown, PressTracker,
};
use rgpui::kbd::Keystroke;
use rgpui::list::FocusId;
use rgpui::style_state::{
    compute_style_layers, ActiveDrag, FocusFacts, GroupDragTarget, InteractionRecords, StyleLayer,
    StyleSlots,
};
use rgpui::tooltip::DispatchPhase;

/// Two focusable, clickable elements "a" and "b" in one window. Key events go
/// to the focused element only, as its key handlers are registered only while
/// it is focused; every focus change starts a new focus generation.
struct ActivationWindow {
    states: [KeyboardActivation; 2],
    focused: usize,
    focus_generation: u64,
    clicks: Vec<&'static str>,
}

const A: usize = 0;
const B: usize = 1;

impl ActivationWindow {
    fn new() -> Self {
        ActivationWindow {
            states: [KeyboardActivation::new(), KeyboardActivation::new()],
            focused: A,
            focus_generation: 0,
            clicks: Vec::new(),
        }
    }

    fn focus(&mut self, element: usize) {
        self.focused = element;
        self.focus_generation += 1;
    }

    fn key_down(&mut self, key: &str) {
        let keystroke = Keystroke::parse(key).unwrap();
        let generation = self.focus_generation;
        self.states[self.focused].key_down(&keystroke, generation, DispatchPhase::Bubble, false);
    }

    fn key_up(&mut self, key: &str) {
        let keystroke = Keystroke::parse(key).unwrap();
        let generation = self.focus_generation;
        if self.states[self.focused]
            .key_up(&keystroke, generation, DispatchPhase::Bubble, false)
            .is_some()
        {
            self.clicks.push(if self.focused == A { "a" } else { "b" });
        }
    }
}

#[test]
fn keyboard_activation_fires_click_on_same_element() {
    let mut w = ActivationWindow::new();
    w.focus(A);
    w.key_down("enter");
    w.key_up("enter");
    assert_eq!(w.clicks, vec!["a"]);
}

#[test]
fn keyboard_activation_does_not_leak_across_focus_change() {
    let mut w = ActivationWindow::new();
    w.focus(A);
    w.key_down("enter");
    w.focus(B);
    w.key_up("enter");
    assert!(w.clicks.is_empty(), "clicks: {:?}", w.clicks);
}

#[test]
fn keyboard_activation_does_not_leak_when_focus_returns() {
    let mut w = ActivationWindow::new();
    w.focus(A);
    w.key_down("enter");
    w.focus(B);
    w.focus(A);
    w.key_up("enter");
    assert!(w.clicks.is_empty(), "clicks: {:?}", w.clicks);
}

#[test]
fn keyboard_activation_cleared_by_intervening_key_release() {
    let mut w = ActivationWindow::new();
    w.focus(A);
    w.key_down("escape");
    w.key_down("space");
    w.key_up("escape");
    w.key_up("space");
    assert!(w.clicks.is_empty(), "clicks: {:?}", w.clicks);
}

#[test]
fn keyboard_activation_does_not_distinguish_space_and_enter() {
    let mut w = ActivationWindow::new();
    w.focus(A);
    w.key_down("space");
    w.key_up("enter");
    assert_eq!(w.clicks, vec!["a"]);
}

#[test]
fn keyboard_activation_cleared_by_intervening_keydown() {
    let mut w = ActivationWindow::new();
    w.focus(A);
    w.key_down("enter");
    w.key_down("a");
    w.key_up("enter");
    assert!(w.clicks.is_empty(), "clicks: {:?}", w.clicks);
}

#[test]
fn keyboard_activation_ignores_modified_keys() {
    let mut w = ActivationWindow::new();
    w.focus(A);
    w.key_down("cmd-enter");
    w.key_up("cmd-enter");
    assert!(w.clicks.is_empty(), "clicks: {:?}", w.clicks);
}

#[test]
fn keyboard_activation_reports_the_released_key_and_skips_capture_phase() {
    let mut state = KeyboardActivation::new();
    let space = Keystroke::parse("space").unwrap();
    let enter = Keystroke::parse("enter").unwrap();
    state.key_down(&enter, 7, DispatchPhase::Capture, false);
    assert_eq!(state.pending, None);
    state.key_down(&enter, 7, DispatchPhase::Bubble, false);
    assert_eq!(state.pending, Some(7));
    assert_eq!(state.key_up(&space, 7, DispatchPhase::Bubble, true), None);
    assert_eq!(state.pending, Some(7));
    assert_eq!(state.key_up(&space, 7, DispatchPhase::Bubble, false), Some(KeyboardButton::Space));
    assert_eq!(state.key_up(&space, 7, DispatchPhase::Bubble, false), None);
}

fn down(button: MouseButton, x: i64, y: i64) -> MouseDown {
    MouseDown { button, position: point(px(x), px(y)) }
}

#[test]
fn press_released_over_element_is_a_click() {
    let mut t = PressTracker::new();
    t.mouse_down(down(MouseButton::Left, 10, 10), DispatchPhase::Capture, true, false);
    assert_eq!(t.pending, None);
    t.mouse_down(down(MouseButton::Left, 10, 10), DispatchPhase::Bubble, true, false);
    assert!(t.pending.is_some());
    assert_eq!(t.mouse_up(DispatchPhase::Capture, true), None);
    assert_eq!(t.pending, None);
    assert_eq!(t.mouse_up(DispatchPhase::Bubble, true), Some(ClickKind::Primary));
    assert_eq!(t.mouse_up(DispatchPhase::Bubble, true), None);
}

#[test]
fn press_released_elsewhere_is_no_click() {
    let mut t = PressTracker::new();
    t.mouse_down(down(MouseButton::Left, 10, 10), DispatchPhase::Bubble, true, false);
    assert_eq!(t.mouse_up(DispatchPhase::Capture, false), None);
    assert_eq!(t.pending, None);
    assert_eq!(t.mouse_up(DispatchPhase::Bubble, false), None);
}

#[test]
fn right_button_needs_aux_listeners() {
    let mut t = PressTracker::new();
    t.mouse_down(down(MouseButton::Right, 1, 1), DispatchPhase::Bubble, true, false);
    assert_eq!(t.pending, None);
    t.mouse_down(down(MouseButton::Right, 1, 1), DispatchPhase::Bubble, true, true);
    t.mouse_up(DispatchPhase::Capture, true);
    assert_eq!(t.mouse_up(DispatchPhase::Bubble, true), Some(ClickKind::Auxiliary));
}

#[test]
fn drag_starts_beyond_threshold_and_cancels_click() {
    let mut t = PressTracker::new();
    t.mouse_down(down(MouseButton::Left, 10, 10), DispatchPhase::Bubble, true, false);
    // Two pixels along one axis is not beyond the threshold.
    assert!(!t.mouse_move(point(px(12), px(10)), DispatchPhase::Bubble, false, true));
    // Without a drag listener nothing is dragged.
    assert!(!t.mouse_move(point(px(20), px(20)), DispatchPhase::Bubble, false, false));
    // Nor while another drag is active, nor in the capture phase.
    assert!(!t.mouse_move(point(px(20), px(20)), DispatchPhase::Bubble, true, true));
    assert!(!t.mouse_move(point(px(20), px(20)), DispatchPhase::Capture, false, true));
    // Two pixels along both axes is.
    assert!(t.mouse_move(point(px(12), px(12)), DispatchPhase::Bubble, false, true));
    assert_eq!(t.pending, None);
    t.mouse_up(DispatchPhase::Capture, true);
    assert_eq!(t.mouse_up(DispatchPhase::Bubble, true), None);
}

#[test]
fn hover_listener_ignores_pointer_while_pressed() {
    let mut t = PressTracker::new();
    let mut listener = HoverListenerState::new();
    assert!(listener.update(t.hover_listener_hovered(false, true)));
    assert!(listener.was_hovered);
    t.mouse_down(down(MouseButton::Left, 10, 10), DispatchPhase::Bubble, true, false);
    assert!(!t.hover_listener_hovered(false, true));
    assert!(!t.hover_listener_hovered(true, true));
    assert!(!listener.update(true));
}

#[test]
fn clicked_and_hover_states_follow_the_pointer() {
    let mut clicked = ElementClickedState::new();
    assert!(!clicked.on_mouse_down(DispatchPhase::Bubble, true, true, true));
    assert!(clicked.on_mouse_down(DispatchPhase::Bubble, false, false, true));
    assert_eq!(clicked, ElementClickedState { group: false, element: true });
    assert!(!clicked.on_mouse_up(DispatchPhase::Bubble));
    assert!(clicked.on_mouse_up(DispatchPhase::Capture));
    assert!(!clicked.is_clicked());

    let mut hover = ElementHoverState::new();
    assert!(!hover.track_element(DispatchPhase::Bubble, true));
    assert!(hover.track_element(DispatchPhase::Capture, true));
    assert!(!hover.track_element(DispatchPhase::Capture, true));
    assert!(hover.track_group(DispatchPhase::Capture, true));
    assert_eq!(hover, ElementHoverState { group: true, element: true });
}

fn overflow(x: Overflow, y: Overflow) -> AxisOverflow {
    AxisOverflow { x, y }
}

#[test]
fn wheel_turn_routes_to_scrolling_axes() {
    let both = overflow(Overflow::Scroll, Overflow::Scroll);
    let vertical = overflow(Overflow::Visible, Overflow::Scroll);
    let d = |x: i64, y: i64| point(px(x), px(y));
    // A vertical-only scroller takes a horizontal turn unless restricted.
    assert_eq!(wheel_scroll_delta(vertical, true, false, d(5, 0)), d(0, 5));
    assert_eq!(wheel_scroll_delta(vertical, true, true, d(5, 0)), d(0, 0));
    // Both axes scroll: each takes its own component.
    assert_eq!(wheel_scroll_delta(both, true, false, d(3, -4)), d(3, -4));
    // Without concurrent scrolling the larger component wins; a tie goes vertical.
    assert_eq!(wheel_scroll_delta(both, false, false, d(3, -4)), d(0, -4));
    assert_eq!(wheel_scroll_delta(both, false, false, d(-6, 4)), d(-6, 0));
    assert_eq!(wheel_scroll_delta(both, false, false, d(4, 4)), d(0, 4));

    let mut offset: Point = point(px(0), px(-10));
    assert!(apply_wheel_turn(&mut offset, vertical, true, false, d(0, -5)));
    assert_eq!(offset, point(px(0), px(-15)));
    assert!(!apply_wheel_turn(&mut offset, overflow(Overflow::Hidden, Overflow::Hidden), true, false, d(1, 1)));
    assert_eq!(offset, point(px(0), px(-15)));
}

fn all_slots() -> StyleSlots {
    StyleSlots {
        in_focus: true,
        focus: true,
        focus_visible: true,
        group_hover: true,
        hover: true,
        group_active: true,
        active: true,
    }
}

fn focused(keyboard: bool) -> FocusFacts {
    FocusFacts { has_handle: true, within_focused: true, is_focused: true, last_input_was_keyboard: keyboard }
}

#[test]
fn style_layers_follow_focus_hover_and_press() {
    let records = InteractionRecords {
        hover: Some(ElementHoverState { group: true, element: false }),
        clicked: Some(ElementClickedState { group: false, element: true }),
    };
    let r = compute_style_layers(all_slots(), focused(true), None, Some(true), Some(records), &None);
    assert_eq!(
        r.layers,
        vec![
            StyleLayer::Base,
            StyleLayer::InFocus,
            StyleLayer::Focus,
            StyleLayer::FocusVisible,
            StyleLayer::GroupHover,
            StyleLayer::Hover,
            StyleLayer::Active,
        ]
    );
    assert!(!r.drag_cursor);

    // Without a hitbox the hover record decides; focus-visible needs keyboard input.
    let r = compute_style_layers(all_slots(), focused(false), Some(false), None, Some(records), &None);
    assert_eq!(
        r.layers,
        vec![StyleLayer::Base, StyleLayer::InFocus, StyleLayer::Focus, StyleLayer::Active]
    );

    // No focus handle, no records: only the base style.
    let no_focus = FocusFacts { has_handle: false, ..focused(true) };
    let r = compute_style_layers(all_slots(), no_focus, Some(true), Some(true), None, &None);
    assert_eq!(r.layers, vec![StyleLayer::Base, StyleLayer::GroupHover, StyleLayer::Hover]);
}

#[test]
fn style_layers_during_drag_skip_hover_and_add_drag_over() {
    let drag = Some(ActiveDrag {
        can_drop: true,
        group_targets: vec![
            GroupDragTarget { type_matches: true, group_hovered: Some(true) },
            GroupDragTarget { type_matches: false, group_hovered: Some(true) },
            GroupDragTarget { type_matches: true, group_hovered: None },
        ],
        drag_over_matches: vec![false, true],
    });
    let records = InteractionRecords { hover: None, clicked: None };
    let no_focus = FocusFacts { has_handle: false, ..focused(true) };
    let r = compute_style_layers(all_slots(), no_focus, Some(true), Some(true), Some(records), &drag);
    assert_eq!(
        r.layers,
        vec![StyleLayer::Base, StyleLayer::GroupDragOver(0), StyleLayer::DragOver(1)]
    );
    assert!(r.drag_cursor);

    // A drop predicate that refuses the value keeps the drag-over styles off.
    let refused = Some(ActiveDrag { can_drop: false, group_targets: vec![], drag_over_matches: vec![true] });
    let r = compute_style_layers(all_slots(), no_focus, Some(true), Some(true), None, &refused);
    assert_eq!(r.layers, vec![StyleLayer::Base]);
    assert!(r.drag_cursor);

    // Without a hitbox the drag is not seen at all, but hover styles still wait.
    let r = compute_style_layers(all_slots(), no_focus, Some(true), None, None, &refused);
    assert_eq!(r.layers, vec![StyleLayer::Base]);
    assert!(!r.drag_cursor);
}

fn no_uses() -> HitboxUses {
    HitboxUses {
        special_behavior: false,
        window_control: false,
        mouse_cursor: false,
        group: false,
        scroll_offset: false,
        tracked_focus: false,
        hover_style: false,
        group_hover_style: false,
        hover_listener: false,
        mouse_up_listeners: 0,
        mouse_pressure_listeners: 0,
        mouse_down_listeners: 0,
        mouse_move_listeners: 0,
        mouse_exit_listeners: 0,
        click_listeners: 0,
        aux_click_listeners: 0,
        scroll_wheel_listeners: 0,
        pinch_listeners: false,
        drag_listener: false,
        drop_listeners: 0,
        tooltip: false,
        inspector_picking: false,
    }
}

#[test]
fn hitbox_only_when_something_reacts_to_the_pointer() {
    assert!(!should_insert_hitbox(&no_uses()));
    assert!(should_insert_hitbox(&HitboxUses { click_listeners: 1, ..no_uses() }));
    assert!(should_insert_hitbox(&HitboxUses { tooltip: true, ..no_uses() }));
    assert!(should_insert_hitbox(&HitboxUses { inspector_picking: true, ..no_uses() }));
    assert!(should_insert_hitbox(&HitboxUses { drop_listeners: 2, ..no_uses() }));
}

#[test]
fn interactive_element_state_starts_empty() {
    let s = InteractiveElementState::default();
    assert_eq!(s, InteractiveElementState::new());
    assert!(s.focus.is_none() && s.pending_mouse_down.is_none() && s.active_tooltip.is_none());
}

#[test]
fn layout_setup_clears_presses_during_drag_and_keeps_focus() {
    let press = MouseDown { button: MouseButton::Left, position: point(px(1), px(1)) };
    let mut state = Some(InteractiveElementState {
        pending_mouse_down: Some(PressTracker { pending: Some(press), captured: None }),
        clicked_state: Some(ElementClickedState { group: true, element: true }),
        ..InteractiveElementState::new()
    });
    let r = layout_setup(&mut state, true, true, None, FocusId(7), false, Some(2), None, true);
    let s = state.unwrap();
    assert_eq!(s.pending_mouse_down.unwrap().pending, None);
    assert_eq!(s.clicked_state, Some(ElementClickedState { group: false, element: false }));
    assert_eq!(s.focus, Some(FocusId(7)));
    assert_eq!(r.tracked_focus, Some(FocusId(7)));
    assert_eq!(r.focus_tab, Some((false, Some(2))));
    assert_eq!(r.scroll_offset, Some(point(px(0), px(0))));

    // The next layout keeps the handle kept in the state.
    let mut state = Some(s);
    let r = layout_setup(&mut state, false, true, None, FocusId(9), true, None, None, false);
    assert_eq!(r.tracked_focus, Some(FocusId(7)));
    assert_eq!(r.scroll_offset, None);

    // A tracked focus handle and scroll handle win over the state.
    let r = layout_setup(&mut state, false, true, Some(FocusId(3)), FocusId(9), true, None, Some(point(px(0), px(-5))), true);
    assert_eq!(r.tracked_focus, Some(FocusId(3)));
    assert_eq!(r.focus_tab, None);
    assert_eq!(r.scroll_offset, Some(point(px(0), px(-5))));

    // Without state nothing is kept.
    let mut none: Option<InteractiveElementState> = None;
    let r = layout_setup(&mut none, true, true, None, FocusId(1), true, None, None, true);
    assert_eq!(r.tracked_focus, None);
    assert_eq!(r.scroll_offset, None);
    assert!(none.is_none());
}

#[test]
fn press_focuses_tracked_element_once() {
    let r = focus_on_press(Some(FocusId(5)), DispatchPhase::Bubble, true, false);
    assert_eq!(r, PressFocus { focus: Some(FocusId(5)), prevent_default: true });
    let none = PressFocus { focus: None, prevent_default: false };
    assert_eq!(focus_on_press(Some(FocusId(5)), DispatchPhase::Bubble, true, true), none);
    assert_eq!(focus_on_press(Some(FocusId(5)), DispatchPhase::Capture, true, false), none);
    assert_eq!(focus_on_press(None, DispatchPhase::Bubble, true, false), none);
}

#[test]
fn drop_goes_to_the_listener_of_the_dragged_type() {
    let types = vec![10u64, 20, 30];
    assert_eq!(
        drop_on_release(DispatchPhase::Bubble, true, Some(20), &types, true),
        DropOutcome { listener: Some(1), drag_taken: true, accepted: true }
    );
    assert_eq!(
        drop_on_release(DispatchPhase::Bubble, true, Some(20), &types, false),
        DropOutcome { listener: None, drag_taken: true, accepted: false }
    );
    let nothing = DropOutcome { listener: None, drag_taken: false, accepted: false };
    assert_eq!(drop_on_release(DispatchPhase::Bubble, true, Some(40), &types, true), nothing);
    assert_eq!(drop_on_release(DispatchPhase::Bubble, false, Some(20), &types, true), nothing);
    assert_eq!(drop_on_release(DispatchPhase::Capture, true, Some(20), &types, true), nothing);
    assert_eq!(drop_on_release(DispatchPhase::Bubble, true, None, &types, true), nothing);
}
