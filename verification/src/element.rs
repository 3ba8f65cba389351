//! Values shared by the widgets: element identifiers, sizes, sides, colors and
//! handles of the callbacks that the host application registers.
use vstd::prelude::*;
use crate::geometry::Pixels;

verus! {

/// An element's identifier.
#[derive(Clone, Debug, PartialEq, Eq, Hash)]
pub enum ElementId {
    Name(String),
    Integer(u64),
}

impl ElementId {
    /// An identifier made of a name.
    pub fn name(name: &str) -> (r: ElementId)
        ensures
            r matches ElementId::Name(s) && s@ == name@,
    {
        ElementId::Name(name.to_owned())
    }

    /// An identifier made of a number.
    pub fn integer(v: u64) -> (r: ElementId)
        ensures
            r == ElementId::Integer(v),
    {
        ElementId::Integer(v)
    }
}

/// The size of a widget.
#[derive(Clone, Copy, Debug, PartialEq, Eq, Structural)]
pub enum ElementSize {
    XSmall,
    Small,
    Medium,
    Large,
    /// An explicit size in pixels.
    ElementSize(Pixels),
}

impl ElementSize {
    /// The default size, `Medium`.
    pub fn default_size() -> (r: ElementSize)
        ensures
            r == ElementSize::Medium,
    {
        ElementSize::Medium
    }
}

/// A side of a widget.
#[derive(Clone, Copy, Debug, PartialEq, Eq, Structural)]
pub enum Side {
    Left,
    Right,
}

impl Side {
    /// Whether this is the left side.
    pub fn is_left(&self) -> (r: bool)
        ensures
            r == (*self == Side::Left),
    {
        match self {
            Side::Left => true,
            Side::Right => false,
        }
    }

    /// Whether this is the right side.
    pub fn is_right(&self) -> (r: bool)
        ensures
            r == (*self == Side::Right),
    {
        match self {
            Side::Left => false,
            Side::Right => true,
        }
    }
}

/// A color as hue, saturation, lightness and alpha, each in thousandths of its
/// full range (hue in thousandths of a full turn).
#[derive(Clone, Copy, Debug, PartialEq, Eq, Structural)]
pub struct Hsla {
    pub h: u32,
    pub s: u32,
    pub l: u32,
    pub a: u32,
}

impl Hsla {
    /// Every component within its range.
    pub open spec fn wf(self) -> bool {
        self.h <= 1000 && self.s <= 1000 && self.l <= 1000 && self.a <= 1000
    }

    /// A color from its components, each clamped to at most a thousand.
    pub fn new(h: u32, s: u32, l: u32, a: u32) -> (r: Hsla)
        ensures
            r.wf(),
            r.h == (if h > 1000 { 1000 } else { h }),
            r.s == (if s > 1000 { 1000 } else { s }),
            r.l == (if l > 1000 { 1000 } else { l }),
            r.a == (if a > 1000 { 1000 } else { a }),
    {
        Hsla {
            h: if h > 1000 { 1000 } else { h },
            s: if s > 1000 { 1000 } else { s },
            l: if l > 1000 { 1000 } else { l },
            a: if a > 1000 { 1000 } else { a },
        }
    }
}

/// The handle of a callback that the host application registered; the widgets
/// record which callback to run and with what argument, and the host runs it.
#[derive(Clone, Copy, Debug, PartialEq, Eq, Structural)]
pub struct CallbackId(pub u64);

} // verus!
