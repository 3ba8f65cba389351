//! Badges: a count, a dot or an icon pinned to the corner of an element.
use vstd::prelude::*;
use crate::decimal::{append_decimal, decimal_spec};
use crate::element::{ElementSize, Hsla};
use crate::geometry::Pixels;
use crate::icon::Icon;
use crate::theme::{ColorRecipe, ColorSource, RecipeView, ThemeToken};

verus! {

/// What a badge shows.
#[derive(Clone, Debug)]
pub enum BadgeVariant {
    /// A count; the default.
    Number,
    /// A dot.
    Dot,
    /// An icon.
    Icon(Icon),
}

impl BadgeVariant {
    /// Whether the badge shows an icon.
    pub fn is_icon(&self) -> (r: bool)
        ensures
            r == (*self is Icon),
    {
        match self {
            BadgeVariant::Icon(_) => true,
            _ => false,
        }
    }

    /// Whether the badge shows a count.
    pub fn is_number(&self) -> (r: bool)
        ensures
            r == (*self is Number),
    {
        match self {
            BadgeVariant::Number => true,
            _ => false,
        }
    }
}

/// A badge.
#[derive(Clone, Debug)]
pub struct Badge {
    /// The count shown by a count badge.
    pub count: usize,
    /// The largest count shown as it is; larger counts show as this and a plus.
    pub max: usize,
    pub variant: BadgeVariant,
    /// The background, else the theme's red.
    pub color: Option<Hsla>,
    pub size: ElementSize,
}

/// The text of a count badge: the count, or the largest count followed by a
/// plus when the count exceeds it.
pub open spec fn count_label_spec(count: nat, max: nat) -> Seq<char> {
    if count > max {
        decimal_spec(max).push('+')
    } else {
        decimal_spec(count)
    }
}

impl Badge {
    /// A count badge with no count, showing counts up to 99.
    pub fn new() -> (r: Badge)
        ensures
            r.count == 0,
            r.max == 99,
            r.variant is Number,
            r.color is None,
            r.size == ElementSize::Medium,
    {
        Badge { count: 0, max: 99, variant: BadgeVariant::Number, color: None, size: ElementSize::Medium }
    }

    /// Shows a dot.
    pub fn dot(self) -> (r: Badge)
        ensures
            r.variant is Dot,
            r.count == self.count,
            r.max == self.max,
            r.color == self.color,
            r.size == self.size,
    {
        Badge { variant: BadgeVariant::Dot, ..self }
    }

    /// Sets the count; a count badge with a zero count is hidden.
    pub fn count(self, count: usize) -> (r: Badge)
        ensures
            r.count == count,
            r.max == self.max,
            r.variant == self.variant,
            r.color == self.color,
            r.size == self.size,
    {
        Badge { count, ..self }
    }

    /// Shows an icon.
    pub fn icon(self, icon: Icon) -> (r: Badge)
        ensures
            r.variant == BadgeVariant::Icon(icon),
            r.count == self.count,
            r.max == self.max,
            r.color == self.color,
            r.size == self.size,
    {
        Badge { variant: BadgeVariant::Icon(icon), ..self }
    }

    /// Sets the largest count shown as it is.
    pub fn max(self, max: usize) -> (r: Badge)
        ensures
            r.max == max,
            r.count == self.count,
            r.variant == self.variant,
            r.color == self.color,
            r.size == self.size,
    {
        Badge { max, ..self }
    }

    /// Sets the background color.
    pub fn color(self, color: Hsla) -> (r: Badge)
        ensures
            r.color == Some(color),
            r.count == self.count,
            r.max == self.max,
            r.variant == self.variant,
            r.size == self.size,
    {
        Badge { color: Some(color), ..self }
    }

    /// Sets the size.
    pub fn with_size(self, size: ElementSize) -> (r: Badge)
        ensures
            r.size == size,
            r.count == self.count,
            r.max == self.max,
            r.variant == self.variant,
            r.color == self.color,
    {
        Badge { size, ..self }
    }

    /// Whether the badge shows: a count badge only with a count.
    pub fn is_visible(&self) -> (r: bool)
        ensures
            r == (match self.variant {
                BadgeVariant::Number => self.count > 0,
                _ => true,
            }),
    {
        match self.variant {
            BadgeVariant::Number => self.count > 0,
            _ => true,
        }
    }

    /// The side of an icon badge and the text size: 24 and 14 pixels when
    /// large, 10 and 8 when small or extra small, 16 and 10 otherwise.
    pub fn indicator_sizes(&self) -> (r: (Pixels, Pixels))
        ensures
            r == (match self.size {
                ElementSize::Large => (Pixels(24), Pixels(14)),
                ElementSize::Small | ElementSize::XSmall => (Pixels(10), Pixels(8)),
                _ => (Pixels(16), Pixels(10)),
            }),
    {
        match self.size {
            ElementSize::Large => (Pixels(24), Pixels(14)),
            ElementSize::Small | ElementSize::XSmall => (Pixels(10), Pixels(8)),
            _ => (Pixels(16), Pixels(10)),
        }
    }

    /// The text of a count badge.
    pub fn count_label(&self) -> (r: String)
        ensures
            r@ == count_label_spec(self.count as nat, self.max as nat),
    {
        let mut s = String::new();
        proof {
            reveal_strlit("+");
        }
        if self.count > self.max {
            append_decimal(&mut s, self.max as u64);
            s.append("+");
        } else {
            append_decimal(&mut s, self.count as u64);
        }
        assert(s@ =~= count_label_spec(self.count as nat, self.max as nat));
        s
    }

    /// How far a count badge is offset from the element's top and right
    /// edges, for a label `label_len` characters long: 2 down and one pixel
    /// per character out when large, 4 up and out per character when small
    /// or extra small, 3 otherwise.
    pub fn count_offsets(&self, label_len: usize) -> (r: (Pixels, Pixels))
        requires
            4 * label_len <= i64::MAX,
        ensures
            r.0.0 == (if self.size == ElementSize::Large {
                2
            } else if self.size == ElementSize::Small || self.size == ElementSize::XSmall {
                -4
            } else {
                -3
            }),
            r.1.0 == (if self.size == ElementSize::Large {
                -(label_len as int)
            } else if self.size == ElementSize::Small || self.size == ElementSize::XSmall {
                -4 * label_len
            } else {
                -3 * label_len
            }),
    {
        let n = label_len as i64;
        match self.size {
            ElementSize::Large => (Pixels(2), Pixels(-n)),
            ElementSize::Small | ElementSize::XSmall => (Pixels(-4), Pixels(-4 * n)),
            _ => (Pixels(-3), Pixels(-3 * n)),
        }
    }

    /// The background: the badge's color, else the theme's red.
    pub fn background(&self) -> (r: ColorRecipe)
        ensures
            r@ == (RecipeView {
                source: match self.color {
                    Some(c) => ColorSource::Custom(c),
                    None => ColorSource::Theme(ThemeToken::Red),
                },
                ops: Seq::empty(),
            }),
    {
        match self.color {
            Some(c) => ColorRecipe::plain(ColorSource::Custom(c)),
            None => ColorRecipe::token(ThemeToken::Red),
        }
    }
}

impl Default for Badge {
    fn default() -> (r: Badge)
        ensures
            r.count == 0,
            r.max == 99,
            r.variant is Number,
            r.color is None,
            r.size == ElementSize::Medium,
    {
        Badge::new()
    }
}

} // verus!
