use rgpui::geometry::{point, px, size, AxisOverflow, Bounds, Edges, Overflow, Point, Size};
use rgpui::scroll_handle::ScrollHandle;

fn layout(handle: &mut ScrollHandle, bounds: Bounds, overflow: AxisOverflow, content: Size) {
    handle.clamp_to_layout(bounds, overflow, content, Edges::all(px(0)));
}

#[test]
fn scroll_handle_aligns_wide_children_to_left_edge() {
    let mut handle = ScrollHandle::new();
    let bounds = Bounds::new(point(px(0), px(0)), size(px(80), px(20)));
    layout(&mut handle, bounds, AxisOverflow { x: Overflow::Scroll, y: Overflow::Visible }, size(px(225), px(20)));
    handle.set_child_bounds(vec![Bounds::new(point(px(25), px(0)), size(px(200), px(20)))]);
    handle.scroll_to_item(0);

    handle.scroll_to_active_item();

    assert_eq!(handle.offset().x, px(-25));
}

#[test]
fn scroll_handle_aligns_tall_children_to_top_edge() {
    let mut handle = ScrollHandle::new();
    let bounds = Bounds::new(point(px(0), px(0)), size(px(20), px(80)));
    layout(&mut handle, bounds, AxisOverflow { x: Overflow::Visible, y: Overflow::Scroll }, size(px(20), px(225)));
    handle.set_child_bounds(vec![Bounds::new(point(px(0), px(25)), size(px(20), px(200)))]);
    handle.scroll_to_item(0);

    handle.scroll_to_active_item();

    assert_eq!(handle.offset().y, px(-25));
}

fn column(n: i64, h: i64) -> Vec<Bounds> {
    (0..n).map(|i| Bounds::new(point(px(0), px(i * h)), size(px(100), px(h)))).collect()
}

#[test]
fn top_and_bottom_items_follow_offset() {
    let mut handle = ScrollHandle::new();
    let bounds = Bounds::new(point(px(0), px(0)), size(px(100), px(50)));
    layout(&mut handle, bounds, AxisOverflow { x: Overflow::Visible, y: Overflow::Scroll }, size(px(100), px(200)));
    handle.set_child_bounds(column(10, 20));
    assert_eq!(handle.children_count(), 10);
    assert_eq!(handle.top_item(), 0);
    handle.set_offset(point(px(0), px(-45)));
    assert_eq!(handle.top_item(), 2);
    assert_eq!(handle.bottom_item(), 4);
    assert_eq!(handle.logical_scroll_top(), (2, px(-5)));
    assert_eq!(handle.logical_scroll_bottom(), (4, px(5)));
    handle.set_offset(point(px(0), px(-1000)));
    assert_eq!(handle.top_item(), 9);
}

#[test]
fn scroll_to_item_reveals_below_and_keeps_visible_child() {
    let mut handle = ScrollHandle::new();
    let bounds = Bounds::new(point(px(0), px(0)), size(px(100), px(50)));
    layout(&mut handle, bounds, AxisOverflow { x: Overflow::Visible, y: Overflow::Scroll }, size(px(100), px(200)));
    handle.set_child_bounds(column(10, 20));
    handle.scroll_to_item(5);
    handle.scroll_to_active_item();
    assert_eq!(handle.offset(), point(px(0), px(-70)));
    handle.scroll_to_item(4);
    handle.scroll_to_active_item();
    assert_eq!(handle.offset(), point(px(0), px(-70)));
    handle.scroll_to_top_of_item(2);
    handle.scroll_to_active_item();
    assert_eq!(handle.offset(), point(px(0), px(-40)));
    handle.scroll_to_item(30);
    handle.scroll_to_active_item();
    assert_eq!(handle.offset(), point(px(0), px(-40)));
    assert_eq!(handle.bounds_for_item(1), Some(Bounds::new(point(px(0), px(20)), size(px(100), px(20)))));
    assert_eq!(handle.bounds_for_item(10), None);
}

#[test]
fn layout_clamps_offset_and_scrolls_to_bottom() {
    let mut handle = ScrollHandle::new();
    let bounds = Bounds::new(point(px(0), px(0)), size(px(100), px(50)));
    handle.set_offset(point(px(10), px(-500)));
    let off = handle.clamp_to_layout(bounds, AxisOverflow { x: Overflow::Scroll, y: Overflow::Scroll }, size(px(120), px(200)), Edges::all(px(5)));
    assert_eq!(handle.max_offset(), point(px(30), px(160)));
    assert_eq!(off, point(px(0), px(-160)));
    handle.set_offset(Point::zero());
    handle.scroll_to_bottom();
    let off = handle.clamp_to_layout(bounds, AxisOverflow { x: Overflow::Scroll, y: Overflow::Scroll }, size(px(120), px(200)), Edges::all(px(5)));
    assert_eq!(off.y, px(-160));
    assert_eq!(handle.bounds(), bounds);
}

#[test]
fn logical_scroll_top_names_the_top_item() {
    let mut handle = ScrollHandle::default();
    let bounds = Bounds::new(point(px(0), px(0)), size(px(100), px(50)));
    layout(&mut handle, bounds, AxisOverflow { x: Overflow::Visible, y: Overflow::Scroll }, size(px(100), px(200)));
    handle.set_child_bounds(column(10, 20));
    for off in [0, -10, -20, -45, -150] {
        handle.set_offset(point(px(0), px(off)));
        assert_eq!(handle.logical_scroll_top().0, handle.top_item());
        assert_eq!(handle.logical_scroll_bottom().0, handle.bottom_item());
    }
}

#[test]
fn prepaint_aligns_top_of_item_then_clamps() {
    let mut handle = ScrollHandle::new();
    let bounds = Bounds::new(point(px(0), px(0)), size(px(100), px(50)));
    let overflow = AxisOverflow { x: Overflow::Visible, y: Overflow::Visible };
    let padding = Edges::all(px(0));
    assert_eq!(handle.prepaint_scroll(bounds, overflow, column(10, 20), padding), point(px(0), px(0)));
    assert_eq!(handle.max_offset(), point(px(0), px(150)));

    handle.scroll_to_top_of_item(3);
    assert_eq!(handle.prepaint_scroll(bounds, overflow, column(10, 20), padding), point(px(0), px(-60)));

    handle.scroll_to_top_of_item(9);
    assert_eq!(handle.prepaint_scroll(bounds, overflow, column(10, 20), padding), point(px(0), px(-150)));

    handle.scroll_to_top_of_item(20);
    assert_eq!(handle.prepaint_scroll(bounds, overflow, column(10, 20), padding), point(px(0), px(-150)));
    handle.set_child_bounds(column(25, 20));
    handle.scroll_to_active_item();
    assert_eq!(handle.offset(), point(px(0), px(-400)));
}
