use rgpui::anchored::{anchored, AnchoredFitMode, AnchoredPositionMode};
use rgpui::auto_scroll::{AutoScroll, TimerAction};
use rgpui::dom::{dom_background, BackgroundFill, BackgroundTag, DomBackground, DomGradientKind};
use rgpui::element::{ElementId, Hsla};
use rgpui::geometry::{point, px, size, Anchor, Axis, AxisOverflow, Bounds, Edges, Overflow};
use rgpui::interaction::{ElementClickedState, ScrollAnchor};
use rgpui::interactivity::{paint_plan, CursorChoice};
use rgpui::list::{FollowState, FocusId, ListItem, ListMeasuringBehavior};
use rgpui::scroll_handle::ScrollHandle;
use rgpui::scrollable_mask::{ScrollableMask, WheelOutcome};

fn window() -> rgpui::geometry::Size {
    size(px(800), px(600))
}

#[test]
fn anchored_position_without_scroll() {
    let a = anchored().position(point(px(100), px(200)));
    let bounds = Bounds::new(point(px(0), px(0)), size(px(0), px(0)));
    let off = a.fit(size(px(300), px(100)), bounds, window(), px(0));
    assert_eq!(off, point(px(100), px(200)));
}

#[test]
fn anchored_switches_corner_to_fit() {
    let a = anchored().position(point(px(700), px(550)));
    let bounds = Bounds::new(point(px(0), px(0)), size(px(0), px(0)));
    let off = a.fit(size(px(300), px(100)), bounds, window(), px(0));
    assert_eq!(off, point(px(400), px(450)));
}

#[test]
fn anchored_snaps_to_window() {
    let a = anchored().position(point(px(500), px(300))).snap_to_window();
    let bounds = Bounds::new(point(px(0), px(0)), size(px(0), px(0)));
    let off = a.fit(size(px(400), px(200)), bounds, window(), px(0));
    assert_eq!(off, point(px(400), px(300)));
    let m = anchored().position(point(px(500), px(300))).snap_to_window_with_margin(Edges::all(px(10)));
    let off = m.fit(size(px(400), px(200)), bounds, window(), px(0));
    assert_eq!(off, point(px(390), px(300)));
    assert_eq!(m.fit_mode, AnchoredFitMode::SnapToWindowWithMargin(Edges::all(px(10))));
}

#[test]
fn anchored_local_mode_and_offset() {
    let a = anchored()
        .position_mode(AnchoredPositionMode::Local)
        .position(point(px(10), px(20)))
        .offset(point(px(5), px(5)))
        .anchor(Anchor::BottomRight);
    let bounds = Bounds::new(point(px(300), px(300)), size(px(50), px(50)));
    let (pos, placed) = a.position_mode.get_position_and_bounds(a.anchor_position, a.anchor, size(px(100), px(40)), bounds, a.offset);
    assert_eq!(pos, point(px(10), px(20)));
    assert_eq!(placed.origin, point(px(215), px(285)));
    assert_eq!(Anchor::TopLeft.other_side_along(Axis::Horizontal), Anchor::TopRight);
}

#[test]
fn auto_scroll_ramps_with_distance() {
    let bounds = Bounds::new(point(px(0), px(0)), size(px(100), px(400)));
    assert_eq!(AutoScroll::compute_delta(px(200), bounds), None);
    assert_eq!(AutoScroll::compute_delta(px(385), bounds), Some(px(12)));
    assert_eq!(AutoScroll::compute_delta(px(432), bounds), Some(px(38)));
    assert_eq!(AutoScroll::compute_delta(px(1000), bounds), Some(px(64)));
    assert_eq!(AutoScroll::compute_delta(px(-80), bounds), Some(px(-64)));
    let mut s = AutoScroll::new();
    assert!(!s.is_active());
    assert_eq!(s.set(Some(px(12))), TimerAction::Start);
    assert_eq!(s.set(Some(px(20))), TimerAction::Keep);
    assert_eq!(s.tick(), Some(px(20)));
    assert_eq!(s.delta(), Some(px(20)));
    assert_eq!(s.set(None), TimerAction::Stop);
    assert!(!s.is_active());
    s.stop();
    assert_eq!(s, AutoScroll::new());
}

fn scrolled_handle(max_y: i64) -> ScrollHandle {
    let mut h = ScrollHandle::new();
    let bounds = Bounds::new(point(px(0), px(0)), size(px(100), px(40)));
    h.clamp_to_layout(bounds, AxisOverflow { x: Overflow::Scroll, y: Overflow::Scroll }, size(px(300), px(40 + max_y)), Edges::all(px(0)));
    h
}

#[test]
fn vertical_mask_consumes_and_bubbles_at_edge() {
    let mask = ScrollableMask::new(Axis::Vertical, ElementId::name("m"));
    let mut h = scrolled_handle(260);
    assert_eq!(mask.handle_wheel(&mut h, true, point(px(0), px(-10))), WheelOutcome::Consume(point(px(0), px(-10))));
    assert_eq!(h.offset().y, px(-10));
    h.set_offset(point(px(0), px(-260)));
    assert_eq!(mask.handle_wheel(&mut h, true, point(px(0), px(-10))), WheelOutcome::Bubble);
    assert_eq!(mask.handle_wheel(&mut h, false, point(px(0), px(10))), WheelOutcome::Ignored);
    let mut flat = scrolled_handle(0);
    assert_eq!(mask.handle_wheel(&mut flat, true, point(px(0), px(-10))), WheelOutcome::Bubble);
    assert_eq!(mask.handle_wheel(&mut h, true, point(px(40), px(-10))), WheelOutcome::Bubble);
    assert_eq!(mask.axis_suffix(), "vertical");
}

#[test]
fn horizontal_mask_moves_without_clamping() {
    let mask = ScrollableMask::new(Axis::Horizontal, ElementId::name("m")).debug();
    assert!(mask.debug);
    let mut h = scrolled_handle(0);
    assert_eq!(mask.handle_wheel(&mut h, true, point(px(-40), px(10))), WheelOutcome::Consume(point(px(-40), px(0))));
    assert_eq!(mask.handle_wheel(&mut h, true, point(px(0), px(10))), WheelOutcome::Bubble);
    assert_eq!(h.offset(), point(px(-40), px(0)));
    assert_eq!(mask.axis_suffix(), "horizontal");
}

#[test]
fn scroll_anchor_aligns_origin() {
    let mut h = scrolled_handle(100);
    let mut a = ScrollAnchor::for_handle();
    a.record_origin(point(px(0), px(70)));
    let before = h.offset();
    a.scroll_to();
    assert_eq!(h.offset(), before);
    assert!(a.scroll_requested);
    a.record_origin(point(px(0), px(70)));
    a.run_next_frame(&mut h);
    assert_eq!(h.offset(), point(px(0), px(-70)));
    assert!(!a.scroll_requested);
    a.run_next_frame(&mut h);
    assert_eq!(h.offset(), point(px(0), px(-70)));
    assert!(ElementClickedState { group: true, element: false }.is_clicked());
    assert!(!ElementClickedState::new().is_clicked());
}

#[test]
fn follow_state_transitions() {
    let mut s = FollowState::Tail { is_following: true };
    assert!(s.is_following());
    s.stop_following();
    assert!(s.has_stopped_following());
    s.start_following();
    assert!(s.is_following());
    let mut n = FollowState::Normal;
    n.start_following();
    assert_eq!(n, FollowState::Normal);
    let mut m = ListMeasuringBehavior::Measure(true);
    m.reset();
    assert_eq!(m, ListMeasuringBehavior::Measure(false));
    let item = ListItem::Unmeasured { size_hint: Some(size(px(0), px(20))), focus_handle: Some(FocusId(3)) };
    assert_eq!(item.size(), None);
    assert_eq!(item.size_hint(), Some(size(px(0), px(20))));
    assert!(item.contains_focused(&vec![FocusId(1), FocusId(3)]));
    assert!(!item.contains_focused(&vec![FocusId(1)]));
}

/// The menu of the anchored scene: a 200 x 300 box pinned at `position` and
/// snapped to an 800 x 600 window, laid out after 2000 pixels of content in a
/// vertical scroller that has been scrolled by `scroll_y`. Returns the menu's
/// bounds in the window.
fn anchored_menu(position: rgpui::geometry::Point, scroll_y: i64) -> Bounds {
    let menu = size(px(200), px(300));
    let laid_out_at = Bounds::new(point(px(0), px(2000 + scroll_y)), size(px(0), px(0)));
    let off = anchored().snap_to_window().position(position).fit(menu, laid_out_at, window(), px(0));
    Bounds::new(point(px(laid_out_at.origin.x.0 + off.x.0), px(laid_out_at.origin.y.0 + off.y.0)), menu)
}

#[test]
fn test_anchored_position_without_scroll() {
    let menu = anchored_menu(point(px(100), px(100)), 0);
    assert_eq!(menu.origin, point(px(100), px(100)));
    assert_eq!(menu.size, size(px(200), px(300)));
}

#[test]
fn test_anchored_position_when_scrolled() {
    // A 1000-pixel wheel turn over the scroller, whose content is 2000 tall in
    // a 600-tall viewport.
    let mut handle = ScrollHandle::new();
    let viewport = Bounds::new(point(px(0), px(0)), window());
    let vertical = AxisOverflow { x: Overflow::Visible, y: Overflow::Scroll };
    handle.clamp_to_layout(viewport, vertical, size(px(800), px(2000)), Edges::all(px(0)));
    let mut offset = handle.offset();
    rgpui::interactivity::apply_wheel_turn(&mut offset, vertical, false, false, point(px(0), px(-1000)));
    handle.set_offset(offset);
    handle.clamp_to_layout(viewport, vertical, size(px(800), px(2000)), Edges::all(px(0)));
    assert_eq!(handle.offset().y, px(-1000));

    let menu = anchored_menu(point(px(100), px(100)), handle.offset().y.0);
    assert_eq!(menu.origin, point(px(100), px(100)));
    assert_eq!(menu.size, size(px(200), px(300)));
}

#[test]
fn test_anchored_snaps_to_window() {
    let menu = anchored_menu(point(px(100), px(500)), 0);
    assert_eq!(menu.origin, point(px(100), px(300)));
    assert_eq!(menu.size, size(px(200), px(300)));
}

#[test]
fn dom_layout_maps_overflow_radius_and_border() {
    let corners = rgpui::geometry::Corners::all(px(4));
    let widths = Edges { top: px(1), right: px(2), bottom: px(0), left: px(1) };
    let color = Some(rgpui::element::Hsla::new(0, 0, 0, 1000));
    let scroll_y = AxisOverflow { x: Overflow::Visible, y: Overflow::Scroll };
    let l = rgpui::dom::dom_layout(false, false, scroll_y, corners, color, widths, true, None).unwrap();
    assert_eq!(l.overflow, rgpui::dom::DomOverflow::Scroll);
    assert_eq!(l.border_radius, Some(px(4)));
    assert_eq!(l.border_width, Some(px(2)));
    assert!(l.carries_scroll_handle);
    let clip = AxisOverflow { x: Overflow::Clip, y: Overflow::Visible };
    let mut uneven = corners;
    uneven.bottom_left = px(0);
    let l = rgpui::dom::dom_layout(false, true, clip, uneven, Some(rgpui::element::Hsla::new(0, 0, 0, 0)), widths, true, None).unwrap();
    assert_eq!(l.overflow, rgpui::dom::DomOverflow::Hidden);
    assert_eq!(l.border_radius, None);
    assert_eq!(l.border_width, None);
    assert!(!l.carries_scroll_handle);
    assert!(l.display_none);
    assert!(rgpui::dom::dom_layout(true, false, clip, corners, None, widths, false, None).is_none());
}

#[test]
fn dom_background_drops_transparent_and_clamps_stops() {
    let red = Hsla::new(0, 1000, 500, 1000);
    let clear = Hsla::new(0, 0, 0, 0);
    let fill = |tag, solid, stop_count| Some(BackgroundFill { tag, solid, stop_count });
    assert_eq!(dom_background(fill(BackgroundTag::Solid, red, 0)), Some(DomBackground::Color(red)));
    assert_eq!(dom_background(fill(BackgroundTag::Solid, clear, 0)), None);
    assert_eq!(
        dom_background(fill(BackgroundTag::RadialGradient, clear, 9)),
        Some(DomBackground::Gradient { kind: DomGradientKind::Radial, stops: 4 })
    );
    assert_eq!(
        dom_background(fill(BackgroundTag::LinearGradient, red, 0)),
        Some(DomBackground::Gradient { kind: DomGradientKind::Linear, stops: 1 })
    );
    assert_eq!(dom_background(fill(BackgroundTag::Checkerboard, red, 3)), Some(DomBackground::Color(red)));
    assert_eq!(dom_background(None), None);
}

#[test]
fn content_size_spans_the_children() {
    let bounds = Bounds::new(point(px(0), px(0)), size(px(50), px(60)));
    assert_eq!(rgpui::scroll_handle::content_size(bounds, &vec![]), size(px(50), px(60)));
    let children = vec![
        Bounds::new(point(px(10), px(5)), size(px(20), px(30))),
        Bounds::new(point(px(-5), px(40)), size(px(10), px(10))),
    ];
    assert_eq!(rgpui::scroll_handle::content_size(bounds, &children), size(px(35), px(45)));
    // The far edges count from no less than zero.
    let above = vec![Bounds::new(point(px(-30), px(-30)), size(px(10), px(10)))];
    assert_eq!(rgpui::scroll_handle::content_size(bounds, &above), size(px(30), px(30)));
}

#[test]
fn paint_plan_follows_hitbox_and_drag() {
    assert!(paint_plan(true, true, Some(1), true, true, false, false, true, true, true).is_none());
    let p = paint_plan(false, true, Some(3), true, true, true, true, true, true, false).unwrap();
    assert_eq!(p.tab_group, Some(3));
    assert_eq!(p.cursor, CursorChoice::DragCursor);
    assert!(p.mouse_listeners && p.group_hitbox && !p.window_control && p.tab_stop);
    let p = paint_plan(false, false, Some(3), false, true, false, false, true, false, false).unwrap();
    assert_eq!(p.tab_group, None);
    assert_eq!(p.cursor, CursorChoice::StyleCursor);
    let p = paint_plan(false, false, None, false, false, false, true, true, true, true).unwrap();
    assert_eq!(p.cursor, CursorChoice::Unset);
    assert!(!p.mouse_listeners && !p.group_hitbox && !p.window_control);
}
