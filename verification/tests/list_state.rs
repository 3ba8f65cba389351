use rgpui::geometry::{point, px, size, Bounds, Edges, Pixels, Point, Size};
use rgpui::list::{FocusId, FollowMode, ListAlignment, ListOffset};
use rgpui::list_state::{ItemLayout, LayoutItemsResponse, ListState};

fn no_padding() -> Edges {
    Edges::all(px(0))
}

/// Paints the list in a window of 100 x `height`, with item `i` rendering at
/// `heights[i]` tall and the full width.
fn draw(state: &mut ListState, height: i64, heights: &[i64]) -> LayoutItemsResponse {
    draw_at_width(state, 100, height, heights)
}

fn draw_at_width(state: &mut ListState, width: i64, height: i64, heights: &[i64]) -> LayoutItemsResponse {
    let bounds = Bounds::new(point(px(0), px(0)), size(px(width), px(height)));
    let sizes: Vec<Size> = heights.iter().map(|h| size(px(width), px(*h))).collect();
    let focused: Vec<FocusId> = Vec::new();
    state.prepaint(bounds, no_padding(), &sizes, &focused)
}

fn uniform(n: usize, h: i64) -> Vec<i64> {
    vec![h; n]
}

/// A wheel turn over the list painted last as `layout`, `height` tall.
fn wheel(state: &mut ListState, layout: &LayoutItemsResponse, height: i64, dy: i64) {
    state.scroll(&layout.scroll_top, px(height), point(px(0), px(dy)));
}

fn offset(ix: usize, px_: i64) -> ListOffset {
    ListOffset { item_ix: ix, offset_in_item: px(px_) }
}

#[test]
fn test_scroll_by_positive_and_negative_distance() {
    let mut state = ListState::new(5, ListAlignment::Top, px(10));
    draw(&mut state, 100, &uniform(5, 20));
    state.scroll_by(px(30));
    assert_eq!(state.logical_scroll_top(), offset(1, 10));
    state.scroll_by(px(-30));
    assert_eq!(state.logical_scroll_top(), offset(0, 0));
    state.scroll_by(px(0));
    assert_eq!(state.logical_scroll_top(), offset(0, 0));
}

#[test]
fn test_item_viewport_queries_return_none_before_layout() {
    let state = ListState::new(5, ListAlignment::Top, px(10)).measure_all();
    assert_eq!(state.item_is_above_viewport(0), None);
    assert_eq!(state.item_is_below_viewport(0), None);
}

fn scrolled_to_item_2(offset_in_item: i64) -> ListState {
    let mut state = ListState::new(5, ListAlignment::Top, px(10)).measure_all();
    state.scroll_to(offset(2, offset_in_item));
    draw(&mut state, 20, &uniform(5, 20));
    state
}

#[test]
fn test_item_viewport_queries_before_logical_scroll_top() {
    let state = scrolled_to_item_2(0);
    assert_eq!(state.item_is_above_viewport(1), Some(true));
    assert_eq!(state.item_is_below_viewport(1), Some(false));
}

#[test]
fn test_item_viewport_queries_measured_item_inside_viewport() {
    let state = scrolled_to_item_2(0);
    assert_eq!(state.item_is_above_viewport(2), Some(false));
    assert_eq!(state.item_is_below_viewport(2), Some(false));
}

#[test]
fn test_item_viewport_queries_measured_item_above_viewport() {
    let state = scrolled_to_item_2(20);
    assert_eq!(state.item_is_above_viewport(2), Some(true));
    assert_eq!(state.item_is_below_viewport(2), Some(false));
}

#[test]
fn test_item_viewport_queries_measured_item_below_viewport() {
    let state = scrolled_to_item_2(0);
    assert_eq!(state.item_is_above_viewport(3), Some(false));
    assert_eq!(state.item_is_below_viewport(3), Some(true));
}

#[test]
fn test_item_viewport_queries_remain_stable_with_zero_height_viewport() {
    let mut state = scrolled_to_item_2(0);
    assert_eq!(state.item_is_above_viewport(3), Some(false));
    assert_eq!(state.item_is_below_viewport(3), Some(true));
    draw(&mut state, 0, &uniform(5, 20));
    assert_eq!(state.item_is_above_viewport(1), Some(true));
    assert_eq!(state.item_is_below_viewport(1), Some(false));
    assert_eq!(state.item_is_above_viewport(3), Some(false));
    assert_eq!(state.item_is_below_viewport(3), Some(true));
}

#[test]
fn test_item_viewport_queries_after_scroll_to_end_before_layout() {
    let mut state = ListState::new(5, ListAlignment::Top, px(10)).measure_all();
    draw(&mut state, 20, &uniform(5, 20));
    state.scroll_to_end();
    assert_eq!(state.logical_scroll_top().item_ix, state.item_count());
    assert_eq!(state.item_is_above_viewport(0), Some(true));
    assert_eq!(state.item_is_below_viewport(0), Some(false));
}

#[test]
fn test_remeasure() {
    let mut state = ListState::new(10, ListAlignment::Top, px(10));
    state.scroll_to(offset(2, 40));
    draw(&mut state, 200, &uniform(10, 100));
    assert_eq!(state.logical_scroll_top(), offset(2, 40));
    // The items shrink to half their height: the position stays at the same
    // fraction of item 2.
    state.remeasure();
    draw(&mut state, 200, &uniform(10, 50));
    assert_eq!(state.logical_scroll_top(), offset(2, 20));
}

fn item_5_at(h: i64) -> Vec<i64> {
    let mut v = uniform(20, 100);
    v[5] = h;
    v
}

#[test]
fn test_remeasure_item_preserves_scroll_offset() {
    let mut state = ListState::new(20, ListAlignment::Top, px(10));
    state.scroll_to(offset(5, 40));
    draw(&mut state, 200, &item_5_at(100));
    state.remeasure_items(5..6);
    draw(&mut state, 200, &item_5_at(200));
    assert_eq!(state.logical_scroll_top(), offset(5, 40));
}

#[test]
fn test_remeasure_then_scroll_does_not_revert_scroll_position() {
    let mut state = ListState::new(20, ListAlignment::Top, px(10));
    state.scroll_to(offset(5, 40));
    let layout = draw(&mut state, 200, &uniform(20, 100));
    state.remeasure_items(5..6);
    wheel(&mut state, &layout, 200, -30);
    assert_eq!(state.logical_scroll_top(), offset(5, 70));
    draw(&mut state, 200, &uniform(20, 100));
    assert_eq!(state.logical_scroll_top(), offset(5, 70));
}

#[test]
fn test_scroll_after_remeasure_clamps_to_shrunk_item_height() {
    let mut state = ListState::new(20, ListAlignment::Top, px(10));
    state.scroll_to(offset(5, 40));
    let layout = draw(&mut state, 200, &item_5_at(100));
    state.remeasure_items(5..6);
    wheel(&mut state, &layout, 200, -30);
    draw(&mut state, 200, &item_5_at(50));
    assert_eq!(state.logical_scroll_top(), offset(5, 50));
}

#[test]
fn test_follow_tail_stays_at_bottom_as_items_grow() {
    let mut state = ListState::new(10, ListAlignment::Top, px(0));
    state.set_follow_mode(FollowMode::Tail);
    draw(&mut state, 200, &uniform(10, 50));
    assert_eq!(state.logical_scroll_top(), offset(6, 0));
    assert!(state.is_following_tail());
    state.remeasure();
    draw(&mut state, 200, &uniform(10, 80));
    assert_eq!(state.logical_scroll_top(), offset(7, 40));
    assert!(state.is_following_tail());
}

#[test]
fn test_follow_tail_disengages_on_user_scroll() {
    let mut state = ListState::new(10, ListAlignment::Top, px(0));
    state.set_follow_mode(FollowMode::Tail);
    let layout = draw(&mut state, 200, &uniform(10, 50));
    assert!(state.is_following_tail());
    wheel(&mut state, &layout, 200, 100);
    assert!(!state.is_following_tail());
}

#[test]
fn test_follow_tail_disengages_on_scrollbar_reposition() {
    let mut state = ListState::new(10, ListAlignment::Top, px(0)).measure_all();
    state.set_follow_mode(FollowMode::Tail);
    draw(&mut state, 200, &uniform(10, 50));
    assert!(state.is_following_tail());
    state.set_offset_from_scrollbar(point(px(0), px(-150)));
    assert_eq!(state.logical_scroll_top(), offset(3, 0));
    assert!(!state.is_following_tail());
    draw(&mut state, 200, &uniform(10, 50));
    assert_eq!(state.logical_scroll_top(), offset(3, 0));
}

#[test]
fn test_scrollbar_drag_with_growing_content() {
    let mut state = ListState::new(10, ListAlignment::Top, px(0)).measure_all();
    let mut heights = uniform(10, 50);
    draw(&mut state, 200, &heights);
    state.scrollbar_drag_started();
    state.set_offset_from_scrollbar(point(px(0), px(-150)));
    let before: Point = state.scroll_px_offset_for_scrollbar();
    assert_eq!(state.logical_scroll_top(), offset(3, 0));
    heights[9] = 550;
    state.remeasure_items(9..10);
    draw(&mut state, 200, &heights);
    assert_eq!(state.max_offset_for_scrollbar().y, px(300));
    assert_eq!(state.scroll_px_offset_for_scrollbar(), before);
    state.set_offset_from_scrollbar(point(px(0), px(-150)));
    assert_eq!(state.logical_scroll_top(), offset(3, 0));
}

#[test]
fn test_set_follow_tail_snaps_to_bottom() {
    let mut state = ListState::new(10, ListAlignment::Top, px(0));
    state.scroll_to(offset(3, 0));
    draw(&mut state, 200, &uniform(10, 50));
    assert_eq!(state.logical_scroll_top(), offset(3, 0));
    assert!(!state.is_following_tail());
    state.set_follow_mode(FollowMode::Tail);
    draw(&mut state, 200, &uniform(10, 50));
    assert_eq!(state.logical_scroll_top(), offset(6, 0));
    assert!(state.is_following_tail());
}

#[test]
fn test_bottom_aligned_scrollbar_offset_at_end() {
    let mut state = ListState::new(10, ListAlignment::Bottom, px(500));
    draw(&mut state, 100, &uniform(10, 50));
    assert_eq!(state.logical_scroll_top().item_ix, 10);
    let max_offset = state.max_offset_for_scrollbar();
    let scroll_offset = state.scroll_px_offset_for_scrollbar();
    assert_eq!(Pixels(-scroll_offset.y.0), max_offset.y);
}

#[test]
fn test_follow_tail_reengages_when_scrolled_back_to_bottom() {
    let mut state = ListState::new(10, ListAlignment::Top, px(0));
    state.set_follow_mode(FollowMode::Tail);
    let layout = draw(&mut state, 200, &uniform(10, 50));
    assert!(state.is_following_tail());
    wheel(&mut state, &layout, 200, 50);
    assert!(!state.is_following_tail());
    wheel(&mut state, &layout, 200, -10000);
    draw(&mut state, 200, &uniform(10, 50));
    assert!(state.is_following_tail());
}

#[test]
fn test_follow_tail_reengagement_not_fooled_by_unmeasured_items() {
    let mut state = ListState::new(20, ListAlignment::Top, px(1000));
    state.set_follow_mode(FollowMode::Tail);
    let layout = draw(&mut state, 200, &uniform(20, 50));
    assert!(state.is_following_tail());
    wheel(&mut state, &layout, 200, 200);
    assert!(!state.is_following_tail());
    state.remeasure_items(19..20);
    draw(&mut state, 200, &uniform(20, 50));
    assert!(!state.is_following_tail());
}

#[test]
fn test_follow_tail_reengages_after_scrollbar_disengagement() {
    let mut state = ListState::new(10, ListAlignment::Top, px(0)).measure_all();
    state.set_follow_mode(FollowMode::Tail);
    draw(&mut state, 200, &uniform(10, 50));
    assert!(state.is_following_tail());
    state.set_offset_from_scrollbar(point(px(0), px(-150)));
    assert!(!state.is_following_tail());
    state.set_offset_from_scrollbar(point(px(0), px(-300)));
    draw(&mut state, 200, &uniform(10, 50));
    assert!(state.is_following_tail());
}

#[test]
fn test_follow_tail_reengages_after_scrollbar_drag_to_bottom_while_growing() {
    let mut state = ListState::new(10, ListAlignment::Top, px(0)).measure_all();
    state.set_follow_mode(FollowMode::Tail);
    draw(&mut state, 200, &uniform(10, 50));
    assert!(state.is_following_tail());
    state.scrollbar_drag_started();
    state.splice(10..10, 10);
    draw(&mut state, 200, &uniform(20, 50));
    state.set_offset_from_scrollbar(point(px(0), px(-300)));
    state.scrollbar_drag_ended();
    draw(&mut state, 200, &uniform(20, 50));
    assert!(state.is_following_tail());
}

#[test]
fn splice_keeps_the_scroll_position_on_its_item() {
    let mut state = ListState::new(10, ListAlignment::Top, px(0));
    state.scroll_to(offset(6, 5));
    state.splice(0..2, 5);
    assert_eq!(state.logical_scroll_top(), offset(9, 5));
    state.splice(8..10, 0);
    assert_eq!(state.logical_scroll_top(), offset(8, 0));
    assert_eq!(state.item_count(), 11);
}

#[test]
fn uniform_hints_size_the_content_before_layout() {
    let mut state = ListState::new(4, ListAlignment::Top, px(0)).with_uniform_item_height(px(25));
    state.scroll_by(px(60));
    assert_eq!(state.logical_scroll_top(), offset(2, 10));
    assert_eq!(state.scroll_px_offset_for_scrollbar(), point(px(0), px(-60)));
    state.reset_with_uniform_height(2, px(10));
    assert_eq!(state.item_count(), 2);
    assert_eq!(state.logical_scroll_top(), offset(0, 0));
    state.scroll_to_reveal_item(1);
    assert_eq!(state.logical_scroll_top(), offset(1, 10));
}

#[test]
fn layout_places_visible_items_and_reports_bounds() {
    let mut state = ListState::new(5, ListAlignment::Top, px(0));
    let layout = draw(&mut state, 50, &uniform(5, 20));
    let placed: Vec<usize> = layout.item_layouts.iter().map(|l| l.index).collect();
    assert_eq!(placed, vec![0, 1, 2]);
    assert_eq!(layout.max_item_width, px(100));
    assert_eq!(
        state.bounds_for_item(1),
        Some(Bounds::new(point(px(0), px(20)), size(px(100), px(20))))
    );
    assert_eq!(state.bounds_for_item(4), None);
    assert_eq!(state.is_scrolled_to_end(), None);
    state.scroll_to(offset(4, 0));
    draw(&mut state, 50, &uniform(5, 20));
    // The viewport was left partly empty, so the list scrolled up to fill it.
    assert_eq!(state.logical_scroll_top(), offset(2, 10));
    assert_eq!(state.is_scrolled_to_end(), Some(true));
}

#[test]
fn test_reset_after_paint_before_scroll() {
    let mut state = ListState::new(5, ListAlignment::Top, px(10));
    state.scroll_to(offset(0, 0));
    let layout = draw(&mut state, 20, &uniform(5, 10));
    state.reset(5);
    wheel(&mut state, &layout, 20, -500);
    assert_eq!(state.logical_scroll_top().item_ix, 0);
    assert_eq!(state.logical_scroll_top().offset_in_item, px(0));
}

#[test]
fn test_measure_all_after_width_change() {
    let mut state = ListState::new(10, ListAlignment::Top, px(0)).measure_all();
    draw_at_width(&mut state, 100, 200, &uniform(10, 50));
    assert_eq!(state.max_offset_for_scrollbar().y, px(300));
    draw_at_width(&mut state, 200, 200, &uniform(10, 50));
    assert_eq!(state.max_offset_for_scrollbar().y, px(300));
}

#[test]
fn test_autoscroll_above_item_top_renders_items_above() {
    let mut state = ListState::new(5, ListAlignment::Top, px(10));
    state.scroll_to(offset(2, 0));
    let heights = uniform(5, 20);
    let layout = draw(&mut state, 60, &heights);
    // Item 2, placed at the viewport's top, asks for 30px above its own top.
    let k = layout.item_layouts.iter().position(|l| l.index == 2).unwrap();
    let bounds = Bounds::new(point(px(0), px(0)), size(px(100), px(60)));
    let request = Bounds::new(point(px(0), px(-30)), size(px(100), px(35)));
    let sizes: Vec<Size> = heights.iter().map(|h| size(px(100), px(*h))).collect();
    let target = state
        .autoscroll_request(&layout, k, request, bounds, no_padding(), &sizes)
        .unwrap();
    state.apply_autoscroll(target);
    draw(&mut state, 60, &heights);
    let scroll_top = state.logical_scroll_top();
    assert!(scroll_top.offset_in_item.0 >= 0);
    assert_eq!(scroll_top.item_ix, 0);
    assert_eq!(scroll_top.offset_in_item, px(10));
}

#[test]
fn autoscroll_below_the_viewport_brings_the_request_bottom_up() {
    let mut state = ListState::new(5, ListAlignment::Top, px(0));
    let heights = uniform(5, 20);
    let layout = draw(&mut state, 40, &heights);
    let bounds = Bounds::new(point(px(0), px(0)), size(px(100), px(40)));
    let sizes: Vec<Size> = heights.iter().map(|h| size(px(100), px(*h))).collect();
    // Item 1 (top at 20) asks for 30px below its top: 10px past the viewport.
    let k = layout.item_layouts.iter().position(|l| l.index == 1).unwrap();
    let request = Bounds::new(point(px(0), px(20)), size(px(100), px(30)));
    assert_eq!(
        state.autoscroll_request(&layout, k, request, bounds, no_padding(), &sizes),
        Some(offset(0, 10))
    );
    // A request within the viewport asks for nothing.
    let inside = Bounds::new(point(px(0), px(5)), size(px(100), px(10)));
    assert_eq!(state.autoscroll_request(&layout, k, inside, bounds, no_padding(), &sizes), None);
}

#[test]
fn finish_frame_scrolls_once_for_a_request() {
    let mut state = ListState::new(5, ListAlignment::Top, px(10));
    state.scroll_to(offset(2, 0));
    let heights = uniform(5, 20);
    let bounds = Bounds::new(point(px(0), px(0)), size(px(100), px(60)));
    let sizes: Vec<Size> = heights.iter().map(|h| size(px(100), px(*h))).collect();
    let focused: Vec<FocusId> = Vec::new();
    let first = state.prepaint(bounds, no_padding(), &sizes, &focused);
    let k = first.item_layouts.iter().position(|l| l.index == 2).unwrap();
    let request = Bounds::new(point(px(0), px(-30)), size(px(100), px(35)));
    let second = state.finish_frame(first, Some((k, request)), bounds, no_padding(), &sizes, &focused);
    assert_eq!(second.scroll_top, offset(0, 10));
    assert_eq!(state.logical_scroll_top(), offset(0, 10));

    // No request, or one already in view: the first layout stands.
    let first = state.prepaint(bounds, no_padding(), &sizes, &focused);
    let top = first.scroll_top;
    let kept = state.finish_frame(first, None, bounds, no_padding(), &sizes, &focused);
    assert_eq!(kept.scroll_top, top);
    // A placed item that does not exist is not honored.
    let first = state.prepaint(bounds, no_padding(), &sizes, &focused);
    let kept = state.finish_frame(first, Some((99, request)), bounds, no_padding(), &sizes, &focused);
    assert_eq!(kept.scroll_top, top);
}

#[test]
fn finish_frame_clamps_a_far_target_into_the_offset_range() {
    let c: i64 = 1_099_511_627_776;
    let limit: i64 = 4 * c;
    let mut state = ListState::new(1, ListAlignment::Top, px(0));
    let sizes = vec![size(px(100), px(20))];
    let focused: Vec<FocusId> = Vec::new();
    let first = LayoutItemsResponse {
        max_item_width: px(100),
        scroll_top: offset(0, c),
        item_layouts: vec![ItemLayout { index: 0, size: size(px(100), px(20)) }],
    };
    let bounds = Bounds::new(point(px(0), px(-c)), size(px(100), px(0)));
    let padding = Edges { top: px(0), right: px(0), bottom: px(10), left: px(0) };
    // The request's bottom lies 4c + 10 pixels below where the viewport would end.
    let request = Bounds::new(point(px(0), px(c)), size(px(100), px(c)));
    assert_eq!(
        state.autoscroll_request(&first, 0, request, bounds, padding, &sizes),
        Some(offset(0, limit + 10))
    );
    let second = state.finish_frame(first, Some((0, request)), bounds, padding, &sizes, &focused);
    // The list scrolled (to the clamped position, which the layout then brings
    // back to the end of the content) rather than keeping the first layout.
    let mut clamped = ListState::new(1, ListAlignment::Top, px(0));
    clamped.apply_autoscroll(offset(0, limit));
    let expected = clamped.prepaint(bounds, padding, &sizes, &focused);
    assert_eq!(second.scroll_top, expected.scroll_top);
    assert_eq!(second.scroll_top, offset(0, 30));
    assert_eq!(state.logical_scroll_top(), clamped.logical_scroll_top());
}
