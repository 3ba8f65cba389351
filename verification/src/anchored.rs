//! Anchored placement: a box pinned by one of its corners to a position, kept
//! inside the window by switching the pinned corner or by snapping to the edges.
use vstd::prelude::*;
use crate::geometry::{Anchor, Axis, Bounds, Edges, Pixels, Point, Size, COORD_LIMIT, coord_ok};

verus! {

/// How an anchored box is kept inside the window.
#[derive(Clone, Copy, Debug, PartialEq, Eq, Structural)]
pub enum AnchoredFitMode {
    /// Snap to the window's edges.
    SnapToWindow,
    /// Snap to the window's edges, keeping the given margins.
    SnapToWindowWithMargin(Edges),
    /// Pin the opposite corner where that fits; the default.
    SwitchAnchor,
}

/// What an anchored box's position is relative to.
#[derive(Clone, Copy, Debug, PartialEq, Eq, Structural)]
pub enum AnchoredPositionMode {
    /// The window.
    Window,
    /// The parent element.
    Local,
}

/// The position the box is pinned to, and the box that results, before fitting.
#[verifier::opaque]
pub open spec fn position_and_bounds_spec(
    mode: AnchoredPositionMode,
    anchor_position: Option<Point>,
    anchor: Anchor,
    size: Size,
    bounds: Bounds,
    offset: Option<Point>,
) -> (Point, Bounds) {
    let off = match offset {
        Some(o) => o,
        None => Point { x: Pixels(0), y: Pixels(0) },
    };
    match mode {
        AnchoredPositionMode::Window => {
            let pos = match anchor_position {
                Some(p) => p,
                None => bounds.origin,
            };
            let at = Point { x: Pixels((pos.x.0 + off.x.0) as i64), y: Pixels((pos.y.0 + off.y.0) as i64) };
            (pos, Bounds::from_anchor_and_size_spec(anchor, at, size))
        },
        AnchoredPositionMode::Local => {
            let pos = match anchor_position {
                Some(p) => p,
                None => Point { x: Pixels(0), y: Pixels(0) },
            };
            let at = Point {
                x: Pixels((bounds.origin.x.0 + pos.x.0 + off.x.0) as i64),
                y: Pixels((bounds.origin.y.0 + pos.y.0 + off.y.0) as i64),
            };
            (pos, Bounds::from_anchor_and_size_spec(anchor, at, size))
        },
    }
}

fn add3(a: i64, b: i64, c: i64) -> (r: i64)
    requires
        coord_ok(a as int),
        coord_ok(b as int),
        coord_ok(c as int),
    ensures
        r == a + b + c,
{
    a + b + c
}

impl AnchoredPositionMode {
    /// The position the box is pinned to, and the box placed there with `anchor`
    /// at that position shifted by `offset`. In window mode a missing position is
    /// the element's own origin; in local mode positions are relative to the
    /// element's origin and a missing one is that origin.
    pub fn get_position_and_bounds(
        &self,
        anchor_position: Option<Point>,
        anchor: Anchor,
        size: Size,
        bounds: Bounds,
        offset: Option<Point>,
    ) -> (r: (Point, Bounds))
        requires
            anchor_position matches Some(p) ==> p.wf(),
            offset matches Some(o) ==> o.wf(),
            size.wf(),
            bounds.wf(),
        ensures
            r == position_and_bounds_spec(*self, anchor_position, anchor, size, bounds, offset),
            r.0.wf(),
            r.1.loose_wf(),
            r.1.size == size,
    {
        proof {
            reveal(position_and_bounds_spec);
        }
        let off = match offset {
            Some(o) => o,
            None => Point { x: Pixels(0), y: Pixels(0) },
        };
        match self {
            AnchoredPositionMode::Window => {
                let pos = match anchor_position {
                    Some(p) => p,
                    None => bounds.origin,
                };
                let at = Point { x: Pixels(pos.x.0 + off.x.0), y: Pixels(pos.y.0 + off.y.0) };
                (pos, Bounds::from_anchor_and_size(anchor, at, size))
            },
            AnchoredPositionMode::Local => {
                let pos = match anchor_position {
                    Some(p) => p,
                    None => Point { x: Pixels(0), y: Pixels(0) },
                };
                let at = Point {
                    x: Pixels(add3(bounds.origin.x.0, pos.x.0, off.x.0)),
                    y: Pixels(add3(bounds.origin.y.0, pos.y.0, off.y.0)),
                };
                (pos, Bounds::from_anchor_and_size(anchor, at, size))
            },
        }
    }
}

/// An anchored box's configuration.
#[derive(Clone, Copy, Debug, PartialEq, Eq, Structural)]
pub struct Anchored {
    pub anchor: Anchor,
    pub fit_mode: AnchoredFitMode,
    pub anchor_position: Option<Point>,
    pub position_mode: AnchoredPositionMode,
    pub offset: Option<Point>,
}

/// An anchored box pinned by its top-left corner where it is laid out, relative
/// to the window, switching corners to stay inside the window.
pub fn anchored() -> (r: Anchored)
    ensures
        r == (Anchored {
            anchor: Anchor::TopLeft,
            fit_mode: AnchoredFitMode::SwitchAnchor,
            anchor_position: None,
            position_mode: AnchoredPositionMode::Window,
            offset: None,
        }),
{
    Anchored {
        anchor: Anchor::TopLeft,
        fit_mode: AnchoredFitMode::SwitchAnchor,
        anchor_position: None,
        position_mode: AnchoredPositionMode::Window,
        offset: None,
    }
}

/// One axis of the snapping step: a span `[start, start + len)` that ends past
/// `limit_end` moves back by the overflow plus `margin_end`; one that then starts
/// before `limit_start` starts at `limit_start + margin_start`.
pub open spec fn snap_axis(start: int, len: int, limit_start: int, limit_end: int, margin_start: int, margin_end: int) -> int {
    let s1 = if start + len > limit_end { start - (start + len - limit_end + margin_end) } else { start };
    if s1 < limit_start { limit_start + margin_start } else { s1 }
}

/// Whether a box overflows the window horizontally.
pub open spec fn overflows_x(b: Bounds, window: Size) -> bool {
    b.left_spec() < 0 || b.right_spec() > window.width.0
}

/// Whether a box overflows the window vertically.
pub open spec fn overflows_y(b: Bounds, window: Size) -> bool {
    b.top_spec() < 0 || b.bottom_spec() > window.height.0
}

/// The box after switching corners: along each axis where the box overflows the
/// window and the box pinned by the opposite corner would not, that one is taken;
/// the vertical check starts from the horizontally switched corner.
#[verifier::opaque]
pub open spec fn switch_anchor_spec(anchor: Anchor, origin: Point, size: Size, desired: Bounds, window: Size) -> Bounds {
    let sx = Bounds::from_anchor_and_size_spec(anchor.other_side_along_spec(Axis::Horizontal), origin, size);
    let take_x = overflows_x(desired, window) && !overflows_x(sx, window);
    let a1 = if take_x { anchor.other_side_along_spec(Axis::Horizontal) } else { anchor };
    let d1 = if take_x { sx } else { desired };
    let sy = Bounds::from_anchor_and_size_spec(a1.other_side_along_spec(Axis::Vertical), origin, size);
    if overflows_y(d1, window) && !overflows_y(sy, window) { sy } else { d1 }
}

/// The margins kept from the window's edges: those of the fit mode (none unless
/// it snaps with margins), each grown by the window's client inset.
pub open spec fn fit_margins_spec(mode: AnchoredFitMode, inset: int) -> (int, int, int, int) {
    match mode {
        AnchoredFitMode::SnapToWindowWithMargin(e) => (e.top.0 + inset, e.right.0 + inset, e.bottom.0 + inset, e.left.0 + inset),
        _ => (inset, inset, inset, inset),
    }
}

/// Where the box's top-left corner ends up, before it is made relative to the
/// element: switched when the mode says so, then snapped along each axis.
pub open spec fn fitted_origin_spec(a: Anchored, children: Size, bounds: Bounds, window: Size, inset: int) -> (int, int) {
    let (origin, desired0) = position_and_bounds_spec(a.position_mode, a.anchor_position, a.anchor, children, bounds, a.offset);
    let desired = if a.fit_mode == AnchoredFitMode::SwitchAnchor {
        switch_anchor_spec(a.anchor, origin, children, desired0, window)
    } else {
        desired0
    };
    let (mt, mr, mb, ml) = fit_margins_spec(a.fit_mode, inset);
    (
        snap_axis(desired.left_spec(), children.width.0 as int, 0, window.width.0 as int, ml, mr),
        snap_axis(desired.top_spec(), children.height.0 as int, 0, window.height.0 as int, mt, mb),
    )
}

fn snap(start: i64, len: i64, limit_end: i64, margin_start: i64, margin_end: i64) -> (r: i64)
    requires
        -8 * COORD_LIMIT <= start <= 8 * COORD_LIMIT,
        coord_ok(len as int),
        coord_ok(limit_end as int),
        -2 * COORD_LIMIT <= margin_start <= 2 * COORD_LIMIT,
        -2 * COORD_LIMIT <= margin_end <= 2 * COORD_LIMIT,
    ensures
        r == snap_axis(start as int, len as int, 0, limit_end as int, margin_start as int, margin_end as int),
{
    let s1 = if start + len > limit_end { start - (start + len - limit_end + margin_end) } else { start };
    if s1 < 0 { margin_start } else { s1 }
}

/// The box after switching corners where that keeps it inside the window.
fn switch_anchor(anchor: Anchor, origin: Point, size: Size, desired: Bounds, window: Size) -> (r: Bounds)
    requires
        origin.wf(),
        size.wf(),
        window.wf(),
        desired.loose_wf(),
        desired.size == size,
    ensures
        r == switch_anchor_spec(anchor, origin, size, desired, window),
        r.loose_wf(),
        r.size == size,
{
    proof {
        reveal(switch_anchor_spec);
    }
    let mut a = anchor;
    let mut d = desired;
    if d.left() < 0 || d.right() > window.width.0 {
        let switched = Bounds::from_anchor_and_size(a.other_side_along(Axis::Horizontal), origin, size);
        if !(switched.left() < 0 || switched.right() > window.width.0) {
            a = a.other_side_along(Axis::Horizontal);
            d = switched;
        }
    }
    if d.top() < 0 || d.bottom() > window.height.0 {
        let switched = Bounds::from_anchor_and_size(a.other_side_along(Axis::Vertical), origin, size);
        if !(switched.top() < 0 || switched.bottom() > window.height.0) {
            d = switched;
        }
    }
    d
}

/// The margins kept from the window's edges (top, right, bottom, left).
fn fit_margins(mode: AnchoredFitMode, inset: i64) -> (r: (i64, i64, i64, i64))
    requires
        coord_ok(inset as int),
        mode matches AnchoredFitMode::SnapToWindowWithMargin(e) ==> e.wf(),
    ensures
        (r.0 as int, r.1 as int, r.2 as int, r.3 as int) == fit_margins_spec(mode, inset as int),
        -2 * COORD_LIMIT <= r.0 <= 2 * COORD_LIMIT,
        -2 * COORD_LIMIT <= r.1 <= 2 * COORD_LIMIT,
        -2 * COORD_LIMIT <= r.2 <= 2 * COORD_LIMIT,
        -2 * COORD_LIMIT <= r.3 <= 2 * COORD_LIMIT,
{
    match mode {
        AnchoredFitMode::SnapToWindowWithMargin(e) => (e.top.0 + inset, e.right.0 + inset, e.bottom.0 + inset, e.left.0 + inset),
        _ => (inset, inset, inset, inset),
    }
}

impl Anchored {
    /// Pins the box by the given corner.
    pub fn anchor(self, anchor: Anchor) -> (r: Anchored)
        ensures
            r == (Anchored { anchor, ..self }),
    {
        Anchored { anchor, ..self }
    }

    /// Pins the box at a position instead of where it is laid out.
    pub fn position(self, anchor: Point) -> (r: Anchored)
        ensures
            r == (Anchored { anchor_position: Some(anchor), ..self }),
    {
        Anchored { anchor_position: Some(anchor), ..self }
    }

    /// Shifts the final position.
    pub fn offset(self, offset: Point) -> (r: Anchored)
        ensures
            r == (Anchored { offset: Some(offset), ..self }),
    {
        Anchored { offset: Some(offset), ..self }
    }

    /// Sets what the position is relative to.
    pub fn position_mode(self, mode: AnchoredPositionMode) -> (r: Anchored)
        ensures
            r == (Anchored { position_mode: mode, ..self }),
    {
        Anchored { position_mode: mode, ..self }
    }

    /// Snaps to the window's edges instead of switching corners.
    pub fn snap_to_window(self) -> (r: Anchored)
        ensures
            r == (Anchored { fit_mode: AnchoredFitMode::SnapToWindow, ..self }),
    {
        Anchored { fit_mode: AnchoredFitMode::SnapToWindow, ..self }
    }

    /// Snaps to the window's edges, keeping margins.
    pub fn snap_to_window_with_margin(self, edges: Edges) -> (r: Anchored)
        ensures
            r == (Anchored { fit_mode: AnchoredFitMode::SnapToWindowWithMargin(edges), ..self }),
    {
        Anchored { fit_mode: AnchoredFitMode::SnapToWindowWithMargin(edges), ..self }
    }

    /// Whether all of the configuration's coordinates are storable.
    pub open spec fn wf(self) -> bool {
        &&& self.anchor_position matches Some(p) ==> p.wf()
        &&& self.offset matches Some(o) ==> o.wf()
        &&& self.fit_mode matches AnchoredFitMode::SnapToWindowWithMargin(e) ==> e.wf()
    }

    /// The offset at which the children are drawn relative to the element's
    /// bounds, given the size of the children's union, the element's bounds, the
    /// window's size and its client inset.
    pub fn fit(&self, children: Size, bounds: Bounds, window: Size, client_inset: Pixels) -> (r: Point)
        requires
            self.wf(),
            children.wf(),
            bounds.wf(),
            window.wf(),
            coord_ok(client_inset.0 as int),
        ensures
            ({
                let (x, y) = fitted_origin_spec(*self, children, bounds, window, client_inset.0 as int);
                r.x.0 == x - bounds.origin.x.0 && r.y.0 == y - bounds.origin.y.0
            }),
    {
        let (origin, desired0) = self.position_mode.get_position_and_bounds(
            self.anchor_position,
            self.anchor,
            children,
            bounds,
            self.offset,
        );
        let desired = if self.fit_mode == AnchoredFitMode::SwitchAnchor {
            switch_anchor(self.anchor, origin, children, desired0, window)
        } else {
            desired0
        };
        let (mt, mr, mb, ml) = fit_margins(self.fit_mode, client_inset.0);
        let x = snap(desired.left(), children.width.0, window.width.0, ml, mr);
        let y = snap(desired.top(), children.height.0, window.height.0, mt, mb);
        Point { x: Pixels(x - bounds.origin.x.0), y: Pixels(y - bounds.origin.y.0) }
    }
}

/// A box that fits in the window with its margins ends up inside them: it starts
/// no earlier than the start margin and ends no later than the window's end less
/// the end margin.
pub proof fn lemma_snap_keeps_fitting_box_inside(start: int, len: int, limit_end: int, margin_start: int, margin_end: int)
    requires
        0 <= len,
        0 <= margin_start,
        0 <= margin_end,
        margin_start + len + margin_end <= limit_end,
    ensures
        margin_start <= snap_axis(start, len, 0, limit_end, margin_start, margin_end)
            || snap_axis(start, len, 0, limit_end, margin_start, margin_end) >= 0,
        snap_axis(start, len, 0, limit_end, margin_start, margin_end) >= 0,
        snap_axis(start, len, 0, limit_end, margin_start, margin_end) + len <= limit_end,
{
}

/// A box that already lies inside the window is not moved by snapping.
pub proof fn lemma_snap_leaves_inside_box(start: int, len: int, limit_end: int, margin_start: int, margin_end: int)
    requires
        0 <= start,
        start + len <= limit_end,
    ensures
        snap_axis(start, len, 0, limit_end, margin_start, margin_end) == start,
{
}

/// Switching corners, per axis: a box pinned at `origin` that overflows the
/// window along an axis (starts before 0 or ends past the window's extent) is
/// pinned by the opposite corner along that axis instead, when the box pinned
/// that way lies within the window along that axis; otherwise it stays where it
/// is along that axis. The size never changes.
pub proof fn lemma_switch_anchor_flips_overflowing_axis(
    anchor: Anchor,
    origin: Point,
    size: Size,
    window: Size,
)
    requires
        origin.wf(),
        size.wf(),
        window.wf(),
    ensures
        ({
            let desired = Bounds::from_anchor_and_size_spec(anchor, origin, size);
            let r = switch_anchor_spec(anchor, origin, size, desired, window);
            let (w, h) = (size.width.0 as int, size.height.0 as int);
            let left = if anchor.is_right() { origin.x.0 - w } else { origin.x.0 as int };
            let other_left = if anchor.is_right() { origin.x.0 as int } else { origin.x.0 - w };
            let top = if anchor.is_bottom() { origin.y.0 - h } else { origin.y.0 as int };
            let other_top = if anchor.is_bottom() { origin.y.0 as int } else { origin.y.0 - h };
            let flip_x = (left < 0 || left + w > window.width.0) && 0 <= other_left && other_left + w
                <= window.width.0;
            let flip_y = (top < 0 || top + h > window.height.0) && 0 <= other_top && other_top + h
                <= window.height.0;
            &&& r.size == size
            &&& r.left_spec() == (if flip_x { other_left } else { left })
            &&& r.top_spec() == (if flip_y { other_top } else { top })
        }),
{
    reveal(switch_anchor_spec);
}

} // verus!
