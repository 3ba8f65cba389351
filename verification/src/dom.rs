//! How an element is presented as a node of the web backend's DOM overlay: the
//! decisions that do not depend on colors or fractional lengths.
use vstd::prelude::*;
use crate::element::Hsla;
use crate::geometry::{AxisOverflow, Corners, Edges, Overflow, Pixels};

verus! {

/// The overflow of a DOM node.
#[derive(Clone, Copy, Debug, PartialEq, Eq, Structural)]
pub enum DomOverflow {
    Visible,
    Hidden,
    /// A natively scrolling container.
    Scroll,
}

/// The kind of an element's background fill.
#[derive(Clone, Copy, Debug, PartialEq, Eq, Structural)]
pub enum BackgroundTag {
    Solid,
    LinearGradient,
    RadialGradient,
    ConicGradient,
    PatternSlash,
    Checkerboard,
}

/// What the DOM decision reads of an element's background fill: its kind, its
/// solid color, and how many gradient stops it holds (the stops' colors and
/// positions, and the angle, are handed on by the host).
#[derive(Clone, Copy, Debug, PartialEq, Eq, Structural)]
pub struct BackgroundFill {
    pub tag: BackgroundTag,
    pub solid: Hsla,
    pub stop_count: u32,
}

/// The kind of a DOM gradient.
#[derive(Clone, Copy, Debug, PartialEq, Eq, Structural)]
pub enum DomGradientKind {
    Linear,
    Radial,
    Conic,
}

/// The background of a DOM node.
#[derive(Clone, Copy, Debug, PartialEq, Eq, Structural)]
pub enum DomBackground {
    /// A solid color.
    Color(Hsla),
    /// A gradient of this kind over the fill's first `stops` stops.
    Gradient { kind: DomGradientKind, stops: u32 },
}

/// The DOM background of a fill: a solid fill gives its color unless it is
/// transparent; a gradient gives a gradient of its kind over its stop count
/// clamped into `1..=4`; a pattern, which CSS cannot draw, falls back to its
/// solid color unless that is transparent; no fill gives none.
pub open spec fn dom_background_spec(fill: Option<BackgroundFill>) -> Option<DomBackground> {
    match fill {
        None => None,
        Some(f) => match f.tag {
            BackgroundTag::LinearGradient | BackgroundTag::RadialGradient | BackgroundTag::ConicGradient =>
                Some(DomBackground::Gradient {
                    kind: match f.tag {
                        BackgroundTag::LinearGradient => DomGradientKind::Linear,
                        BackgroundTag::RadialGradient => DomGradientKind::Radial,
                        _ => DomGradientKind::Conic,
                    },
                    stops: if f.stop_count < 1 { 1 } else if f.stop_count > 4 { 4 } else { f.stop_count },
                }),
            _ => if f.solid.a == 0 { None } else { Some(DomBackground::Color(f.solid)) },
        },
    }
}

/// The DOM background of an element's fill.
pub fn dom_background(fill: Option<BackgroundFill>) -> (r: Option<DomBackground>)
    ensures
        r == dom_background_spec(fill),
{
    match fill {
        None => None,
        Some(f) => match f.tag {
            BackgroundTag::LinearGradient | BackgroundTag::RadialGradient | BackgroundTag::ConicGradient => {
                let kind = match f.tag {
                    BackgroundTag::LinearGradient => DomGradientKind::Linear,
                    BackgroundTag::RadialGradient => DomGradientKind::Radial,
                    _ => DomGradientKind::Conic,
                };
                let stops = if f.stop_count < 1 { 1 } else if f.stop_count > 4 { 4 } else { f.stop_count };
                Some(DomBackground::Gradient { kind, stops })
            },
            _ => if f.solid.a == 0 { None } else { Some(DomBackground::Color(f.solid)) },
        },
    }
}

/// The layout decisions for an element's DOM node.
#[derive(Clone, Copy, Debug, PartialEq, Eq)]
pub struct DomLayout {
    /// The node is not displayed (`display: none`); otherwise it is a block,
    /// since layout was already done and the node is positioned absolutely.
    pub display_none: bool,
    pub overflow: DomOverflow,
    /// The uniform corner radius, when all four corners agree.
    pub border_radius: Option<Pixels>,
    /// The border's width, when there is a visible border.
    pub border_width: Option<Pixels>,
    /// Whether the node carries the element's scroll handle, which keeps the
    /// browser's scroll position and the element's offset in step.
    pub carries_scroll_handle: bool,
    pub background: Option<DomBackground>,
}

/// A scroll on either axis makes a scrolling node; otherwise a clip or a hidden
/// overflow on either axis hides; otherwise the node is visible.
pub open spec fn dom_overflow_spec(o: AxisOverflow) -> DomOverflow {
    if o.x == Overflow::Scroll || o.y == Overflow::Scroll {
        DomOverflow::Scroll
    } else if o.x == Overflow::Clip || o.x == Overflow::Hidden || o.y == Overflow::Clip || o.y == Overflow::Hidden {
        DomOverflow::Hidden
    } else {
        DomOverflow::Visible
    }
}

/// The widest of the four border widths.
pub open spec fn max_edge(w: Edges) -> int {
    let a = if w.top.0 >= w.right.0 { w.top.0 } else { w.right.0 };
    let b = if w.bottom.0 >= w.left.0 { w.bottom.0 } else { w.left.0 };
    if a >= b { a as int } else { b as int }
}

/// The overflow of an element's DOM node.
pub fn dom_overflow(o: AxisOverflow) -> (r: DomOverflow)
    ensures
        r == dom_overflow_spec(o),
{
    match (o.x, o.y) {
        (Overflow::Scroll, _) | (_, Overflow::Scroll) => DomOverflow::Scroll,
        (Overflow::Clip, _) | (Overflow::Hidden, _) | (_, Overflow::Clip) | (_, Overflow::Hidden) => DomOverflow::Hidden,
        _ => DomOverflow::Visible,
    }
}

/// The DOM layout of an element: none for an invisible element; otherwise its
/// display, its overflow, a radius when all corners agree, a border as wide as
/// the widest edge when it has a border color that is not transparent and some
/// edge is wider than zero, its scroll handle only when the node scrolls, and
/// the background its fill gives.
pub fn dom_layout(
    invisible: bool,
    display_none: bool,
    overflow: AxisOverflow,
    radii: Corners<Pixels>,
    border_color: Option<Hsla>,
    border_widths: Edges,
    tracks_scroll_handle: bool,
    background: Option<BackgroundFill>,
) -> (r: Option<DomLayout>)
    ensures
        invisible ==> (r is None),
        !invisible ==> (r matches Some(l) && {
            &&& l.display_none == display_none
            &&& l.overflow == dom_overflow_spec(overflow)
            &&& l.border_radius == (if radii.top_left == radii.top_right && radii.top_right == radii.bottom_right
                && radii.bottom_right == radii.bottom_left { Some(radii.top_left) } else { None })
            &&& l.border_width == (match border_color {
                Some(c) => if max_edge(border_widths) > 0 && c.a != 0 {
                    Some(Pixels(max_edge(border_widths) as i64))
                } else {
                    None
                },
                None => None,
            })
            &&& l.carries_scroll_handle == (tracks_scroll_handle && dom_overflow_spec(overflow) == DomOverflow::Scroll)
            &&& l.background == dom_background_spec(background)
        }),
{
    if invisible {
        return None;
    }
    let ov = dom_overflow(overflow);
    let border_radius = if radii.top_left == radii.top_right && radii.top_right == radii.bottom_right
        && radii.bottom_right == radii.bottom_left {
        Some(radii.top_left)
    } else {
        None
    };
    let w = border_widths;
    let a = if w.top.0 >= w.right.0 { w.top.0 } else { w.right.0 };
    let b = if w.bottom.0 >= w.left.0 { w.bottom.0 } else { w.left.0 };
    let widest = if a >= b { a } else { b };
    let border_width = match border_color {
        Some(c) => if widest > 0 && c.a != 0 { Some(Pixels(widest)) } else { None },
        None => None,
    };
    let scrolls = match ov {
        DomOverflow::Scroll => true,
        _ => false,
    };
    Some(DomLayout {
        display_none,
        overflow: ov,
        border_radius,
        border_width,
        carries_scroll_handle: tracks_scroll_handle && scrolls,
        background: dom_background(background),
    })
}

} // verus!
