//! Wheel routing through nested scrollers: a wheel mask takes a turn in the
//! capture phase; a turn it does not consume bubbles to the scrolling elements
//! under the pointer (each moves its own offset) and to an enclosing list.
//! Offsets are clamped back into range when the scene is drawn again.

use rgpui::element::ElementId;
use rgpui::geometry::{point, px, size, Axis, AxisOverflow, Bounds, Edges, Overflow, Point, Size};
use rgpui::interactivity::apply_wheel_turn;
use rgpui::list::{FocusId, ListAlignment, ListOffset};
use rgpui::list_state::{LayoutItemsResponse, ListState};
use rgpui::scroll_handle::ScrollHandle;
use rgpui::scrollable_mask::{ScrollableMask, WheelOutcome};

fn overflow(x: Overflow, y: Overflow) -> AxisOverflow {
    AxisOverflow { x, y }
}

/// Records a layout of a scroller `w` x `h` over content `cw` x `ch`.
fn lay_out(handle: &mut ScrollHandle, w: i64, h: i64, o: AxisOverflow, cw: i64, ch: i64) {
    let bounds = Bounds::new(point(px(0), px(0)), size(px(w), px(h)));
    handle.clamp_to_layout(bounds, o, size(px(cw), px(ch)), Edges::all(px(0)));
}

/// The bubble-phase wheel listener of a scrolling element.
fn element_wheel(handle: &mut ScrollHandle, o: AxisOverflow, delta: Point) {
    let mut offset = handle.offset();
    if apply_wheel_turn(&mut offset, o, false, false, delta) {
        handle.set_offset(offset);
    }
}

/// A horizontal scroll area: a 100 x 40 viewport clipping 300 x 40 content,
/// with a horizontal mask over it.
struct HorizontalArea {
    handle: ScrollHandle,
    mask: ScrollableMask,
}

impl HorizontalArea {
    fn new() -> Self {
        let mut area = HorizontalArea {
            handle: ScrollHandle::new(),
            mask: ScrollableMask::new(Axis::Horizontal, ElementId::name("horizontal-scroll-area")),
        };
        area.draw();
        area
    }

    fn draw(&mut self) {
        lay_out(&mut self.handle, 100, 40, Self::hidden(), 300, 40);
    }

    fn hidden() -> AxisOverflow {
        overflow(Overflow::Hidden, Overflow::Hidden)
    }

    /// A wheel turn over the area; returns whether it goes on bubbling.
    fn wheel(&mut self, occluded: bool, delta: Point) -> bool {
        let outcome = self.mask.handle_wheel(&mut self.handle, !occluded, delta);
        if matches!(outcome, WheelOutcome::Consume(_)) {
            return false;
        }
        if !occluded {
            element_wheel(&mut self.handle, Self::hidden(), delta);
        }
        !occluded
    }
}

/// A 100 x 100 list of ten 40-tall rows whose first row is a horizontal area.
struct ListWithArea {
    area: HorizontalArea,
    list: ListState,
    layout: LayoutItemsResponse,
    occluded: bool,
}

impl ListWithArea {
    fn new(occluded: bool) -> Self {
        let area = HorizontalArea::new();
        let mut list = ListState::new(10, ListAlignment::Top, px(0));
        let layout = paint_list(&mut list, &[40; 10]);
        ListWithArea { area, list, layout, occluded }
    }

    fn draw(&mut self) {
        self.area.draw();
        self.layout = paint_list(&mut self.list, &[40; 10]);
    }

    fn wheel(&mut self, delta: Point) {
        if self.area.wheel(self.occluded, delta) {
            self.list.scroll(&self.layout.scroll_top, px(100), delta);
        }
    }

    fn scroll_top(&self) -> (usize, rgpui::geometry::Pixels) {
        let top: ListOffset = self.list.logical_scroll_top();
        (top.item_ix, top.offset_in_item)
    }
}

fn paint_list(list: &mut ListState, heights: &[i64]) -> LayoutItemsResponse {
    let bounds = Bounds::new(point(px(0), px(0)), size(px(100), px(100)));
    let sizes: Vec<Size> = heights.iter().map(|h| size(px(100), px(*h))).collect();
    let focused: Vec<FocusId> = Vec::new();
    list.prepaint(bounds, Edges::all(px(0)), &sizes, &focused)
}

#[test]
fn horizontal_scroll_area_ignores_vertical_wheel() {
    let mut area = HorizontalArea::new();
    area.wheel(false, point(px(0), px(-40)));
    assert_eq!(area.handle.offset().x, px(0));
}

#[test]
fn horizontal_scroll_area_in_list_keeps_horizontal_dominant_wheel() {
    let mut scene = ListWithArea::new(false);
    scene.wheel(point(px(-40), px(-10)));
    assert_eq!(scene.area.handle.offset().x, px(-40));
    assert_eq!(scene.scroll_top(), (0, px(0)));
}

#[test]
fn horizontal_scroll_area_in_list_bubbles_vertical_dominant_wheel() {
    let mut scene = ListWithArea::new(false);
    scene.wheel(point(px(-10), px(-40)));
    assert_eq!(scene.area.handle.offset().x, px(0));
    assert_ne!(scene.scroll_top(), (0, px(0)));
}

#[test]
fn horizontal_scroll_area_covers_viewport_after_scrolled() {
    let mut scene = ListWithArea::new(false);
    scene.area.handle.set_offset(point(px(-150), px(0)));
    scene.draw();
    scene.wheel(point(px(-40), px(-10)));
    assert_eq!(scene.area.handle.offset().x, px(-190));
    assert_eq!(scene.scroll_top(), (0, px(0)));
}

#[test]
fn horizontal_scroll_area_traps_wheel_at_edge() {
    let mut scene = ListWithArea::new(false);
    scene.area.handle.set_offset(point(px(-200), px(0)));
    scene.draw();
    scene.wheel(point(px(-40), px(-10)));
    assert_eq!(scene.scroll_top(), (0, px(0)));
}

#[test]
fn horizontal_scroll_area_ignores_wheel_when_occluded() {
    let mut scene = ListWithArea::new(true);
    scene.wheel(point(px(-40), px(-10)));
    assert_eq!(scene.area.handle.offset().x, px(0));
}

#[test]
fn horizontal_scroll_area_uses_horizontal_wheel() {
    let mut area = HorizontalArea::new();
    area.wheel(false, point(px(-40), px(0)));
    assert_eq!(area.handle.offset().x, px(-40));
}

/// A 100 x 100 vertical scroller holding a 60-tall vertical scroller (with a
/// vertical mask) over `inner_content` pixels, then 400 pixels more.
struct NestedVertical {
    outer: ScrollHandle,
    inner: ScrollHandle,
    mask: ScrollableMask,
    inner_content: i64,
}

impl NestedVertical {
    fn new(inner_content: i64) -> Self {
        let mut scene = NestedVertical {
            outer: ScrollHandle::new(),
            inner: ScrollHandle::new(),
            mask: ScrollableMask::new(Axis::Vertical, ElementId::name("inner")),
            inner_content,
        };
        scene.draw();
        scene
    }

    fn vertical() -> AxisOverflow {
        overflow(Overflow::Visible, Overflow::Scroll)
    }

    fn draw(&mut self) {
        lay_out(&mut self.outer, 100, 100, Self::vertical(), 100, 460);
        lay_out(&mut self.inner, 100, 60, Self::vertical(), 100, self.inner_content);
    }

    fn wheel(&mut self, delta: Point) {
        let outcome = self.mask.handle_wheel(&mut self.inner, true, delta);
        if matches!(outcome, WheelOutcome::Consume(_)) {
            return;
        }
        element_wheel(&mut self.inner, Self::vertical(), delta);
        element_wheel(&mut self.outer, Self::vertical(), delta);
    }
}

#[test]
fn vertical_mask_consumes_wheel_when_scrollable() {
    let mut scene = NestedVertical::new(300);
    scene.wheel(point(px(0), px(-40)));
    assert_eq!(scene.inner.offset().y, px(-40));
    assert_eq!(scene.outer.offset().y, px(0));
}

#[test]
fn vertical_mask_hands_off_to_parent_at_edge() {
    let mut scene = NestedVertical::new(300);
    scene.inner.set_offset(point(px(0), px(-240)));
    scene.draw();
    scene.wheel(point(px(0), px(-40)));
    assert_eq!(scene.outer.offset().y, px(-40));
    scene.draw();
    assert_eq!(scene.inner.offset().y, px(-240));
}

#[test]
fn vertical_mask_bubbles_when_no_overflow() {
    let mut scene = NestedVertical::new(40);
    scene.wheel(point(px(0), px(-40)));
    assert_eq!(scene.outer.offset().y, px(-40));
    scene.draw();
    assert_eq!(scene.inner.offset().y, px(0));
}

#[test]
fn vertical_mask_ignores_transient_overscroll() {
    let mut scene = NestedVertical::new(300);
    scene.inner.set_offset(point(px(0), px(-240)));
    scene.draw();
    for _ in 0..2 {
        scene.wheel(point(px(0), px(-40)));
    }
    assert_eq!(scene.outer.offset().y, px(-80));
    scene.draw();
    assert_eq!(scene.inner.offset().y, px(-240));
}

#[test]
fn vertical_mask_in_list_consumes_wheel_when_scrollable() {
    let mut inner = ScrollHandle::new();
    lay_out(&mut inner, 100, 60, NestedVertical::vertical(), 100, 300);
    let mask = ScrollableMask::new(Axis::Vertical, ElementId::name("inner"));
    let mut list = ListState::new(10, ListAlignment::Top, px(0));
    let mut heights = [40; 10];
    heights[0] = 60;
    let layout = paint_list(&mut list, &heights);

    let delta = point(px(0), px(-40));
    let outcome = mask.handle_wheel(&mut inner, true, delta);
    if !matches!(outcome, WheelOutcome::Consume(_)) {
        list.scroll(&layout.scroll_top, px(100), delta);
    }

    assert_eq!(inner.offset().y, px(-40));
    let top = list.logical_scroll_top();
    assert_eq!((top.item_ix, top.offset_in_item), (0, px(0)));
}
