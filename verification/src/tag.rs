//! The tag: a small status marker in an intent's colors, a palette hue or
//! colors of the user's.
use vstd::prelude::*;
use crate::element::{ElementSize, Hsla};
use crate::geometry::AbsoluteLength;
use crate::theme::{
    plain, with_op, token, ColorName, ColorOp, ColorRecipe, ColorSource, Intent, RecipeView,
    ThemeToken,
};

verus! {

/// A tag variant.
#[derive(Clone, Copy, Debug, PartialEq, Eq, Structural)]
pub enum TagVariant {
    Primary,
    /// The default variant.
    Secondary,
    Danger,
    Success,
    Warning,
    Info,
    /// A hue of the palette.
    Color(ColorName),
    /// Colors of the user's.
    Custom { color: Hsla, foreground: Hsla, border: Hsla },
}

impl TagVariant {
    /// The intent of a themed variant.
    pub open spec fn intent_spec(self) -> Option<Intent> {
        match self {
            TagVariant::Primary => Some(Intent::Primary),
            TagVariant::Secondary => Some(Intent::Secondary),
            TagVariant::Danger => Some(Intent::Danger),
            TagVariant::Success => Some(Intent::Success),
            TagVariant::Warning => Some(Intent::Warning),
            TagVariant::Info => Some(Intent::Info),
            _ => None,
        }
    }
}

/// The background of a tag in a dark or light theme.
pub open spec fn tag_bg_spec(v: TagVariant, dark: bool) -> RecipeView {
    match v {
        TagVariant::Color(c) => if dark {
            with_op(token(ThemeToken::Palette(c, 950)), ColorOp::Opacity(50))
        } else {
            token(ThemeToken::Palette(c, 50))
        },
        TagVariant::Custom { color, .. } => plain(ColorSource::Custom(color)),
        _ => token(ThemeToken::Accent(v.intent_spec()->0)),
    }
}

/// The border of a tag in a dark or light theme.
pub open spec fn tag_border_spec(v: TagVariant, dark: bool) -> RecipeView {
    match v {
        TagVariant::Secondary => token(ThemeToken::Border),
        TagVariant::Color(c) => if dark {
            with_op(token(ThemeToken::Palette(c, 800)), ColorOp::Opacity(50))
        } else {
            token(ThemeToken::Palette(c, 200))
        },
        TagVariant::Custom { border, .. } => plain(ColorSource::Custom(border)),
        _ => token(ThemeToken::Accent(v.intent_spec()->0)),
    }
}

/// The text color of a tag, outlined or not, in a dark or light theme.
pub open spec fn tag_fg_spec(v: TagVariant, outline: bool, dark: bool) -> RecipeView {
    match v {
        TagVariant::Secondary => if outline {
            token(ThemeToken::MutedForeground)
        } else {
            token(ThemeToken::SecondaryForeground)
        },
        TagVariant::Color(c) => if dark {
            token(ThemeToken::Palette(c, 300))
        } else {
            token(ThemeToken::Palette(c, 600))
        },
        TagVariant::Custom { foreground, .. } => plain(ColorSource::Custom(foreground)),
        _ => if outline {
            token(ThemeToken::Accent(v.intent_spec()->0))
        } else {
            token(ThemeToken::AccentForeground(v.intent_spec()->0))
        },
    }
}

impl TagVariant {
    /// The default variant, `Secondary`.
    pub fn default_variant() -> (r: TagVariant)
        ensures
            r == TagVariant::Secondary,
    {
        TagVariant::Secondary
    }

    fn intent(&self) -> (r: Intent)
        requires
            self.intent_spec() is Some,
        ensures
            r == self.intent_spec()->0,
    {
        match self {
            TagVariant::Primary => Intent::Primary,
            TagVariant::Secondary => Intent::Secondary,
            TagVariant::Danger => Intent::Danger,
            TagVariant::Success => Intent::Success,
            TagVariant::Warning => Intent::Warning,
            _ => Intent::Info,
        }
    }

    /// The background: the intent's color, a palette hue (shade 950 at half
    /// opacity in a dark theme, shade 50 in a light one), or the user's color.
    pub fn bg(&self, dark: bool) -> (r: ColorRecipe)
        ensures
            r@ == tag_bg_spec(*self, dark),
    {
        match self {
            TagVariant::Color(c) => if dark {
                ColorRecipe::token(ThemeToken::Palette(*c, 950)).with_op(ColorOp::Opacity(50))
            } else {
                ColorRecipe::token(ThemeToken::Palette(*c, 50))
            },
            TagVariant::Custom { color, .. } => ColorRecipe::plain(ColorSource::Custom(*color)),
            _ => ColorRecipe::token(ThemeToken::Accent(self.intent())),
        }
    }

    /// The border: the intent's color (the theme border for secondary), a palette
    /// hue (shade 800 at half opacity in a dark theme, 200 in a light one), or the
    /// user's color.
    pub fn border(&self, dark: bool) -> (r: ColorRecipe)
        ensures
            r@ == tag_border_spec(*self, dark),
    {
        match self {
            TagVariant::Secondary => ColorRecipe::token(ThemeToken::Border),
            TagVariant::Color(c) => if dark {
                ColorRecipe::token(ThemeToken::Palette(*c, 800)).with_op(ColorOp::Opacity(50))
            } else {
                ColorRecipe::token(ThemeToken::Palette(*c, 200))
            },
            TagVariant::Custom { border, .. } => ColorRecipe::plain(ColorSource::Custom(*border)),
            _ => ColorRecipe::token(ThemeToken::Accent(self.intent())),
        }
    }

    /// The text color: on an outlined tag the intent's color (muted for
    /// secondary), otherwise the intent's foreground; a palette hue at shade 300
    /// in a dark theme and 600 in a light one; or the user's color.
    pub fn fg(&self, outline: bool, dark: bool) -> (r: ColorRecipe)
        ensures
            r@ == tag_fg_spec(*self, outline, dark),
    {
        match self {
            TagVariant::Secondary => if outline {
                ColorRecipe::token(ThemeToken::MutedForeground)
            } else {
                ColorRecipe::token(ThemeToken::SecondaryForeground)
            },
            TagVariant::Color(c) => if dark {
                ColorRecipe::token(ThemeToken::Palette(*c, 300))
            } else {
                ColorRecipe::token(ThemeToken::Palette(*c, 600))
            },
            TagVariant::Custom { foreground, .. } => ColorRecipe::plain(ColorSource::Custom(*foreground)),
            _ => if outline {
                ColorRecipe::token(ThemeToken::Accent(self.intent()))
            } else {
                ColorRecipe::token(ThemeToken::AccentForeground(self.intent()))
            },
        }
    }
}

/// A tag.
#[derive(Clone, Copy, Debug, PartialEq, Eq, Structural)]
pub struct Tag {
    pub variant: TagVariant,
    pub outline: bool,
    /// Only `Medium` and `Small` are drawn differently.
    pub size: ElementSize,
    pub rounded: Option<AbsoluteLength>,
}

impl Tag {
    /// A medium secondary tag, filled, with the theme's rounding.
    pub fn new() -> (r: Tag)
        ensures
            r == (Tag { variant: TagVariant::Secondary, outline: false, size: ElementSize::Medium, rounded: None }),
    {
        Tag { variant: TagVariant::Secondary, outline: false, size: ElementSize::Medium, rounded: None }
    }

    /// A new primary tag.
    pub fn primary() -> (r: Tag)
        ensures
            r == (Tag { variant: TagVariant::Primary, ..Tag::new_spec() }),
    {
        Self::new().with_variant(TagVariant::Primary)
    }

    /// A new secondary tag.
    pub fn secondary() -> (r: Tag)
        ensures
            r == (Tag { variant: TagVariant::Secondary, ..Tag::new_spec() }),
    {
        Self::new().with_variant(TagVariant::Secondary)
    }

    /// A new danger tag.
    pub fn danger() -> (r: Tag)
        ensures
            r == (Tag { variant: TagVariant::Danger, ..Tag::new_spec() }),
    {
        Self::new().with_variant(TagVariant::Danger)
    }

    /// A new success tag.
    pub fn success() -> (r: Tag)
        ensures
            r == (Tag { variant: TagVariant::Success, ..Tag::new_spec() }),
    {
        Self::new().with_variant(TagVariant::Success)
    }

    /// A new warning tag.
    pub fn warning() -> (r: Tag)
        ensures
            r == (Tag { variant: TagVariant::Warning, ..Tag::new_spec() }),
    {
        Self::new().with_variant(TagVariant::Warning)
    }

    /// A new info tag.
    pub fn info() -> (r: Tag)
        ensures
            r == (Tag { variant: TagVariant::Info, ..Tag::new_spec() }),
    {
        Self::new().with_variant(TagVariant::Info)
    }

    /// A new tag in the user's colors.
    pub fn custom(color: Hsla, foreground: Hsla, border: Hsla) -> (r: Tag)
        ensures
            r == (Tag { variant: TagVariant::Custom { color, foreground, border }, ..Tag::new_spec() }),
    {
        Self::new().with_variant(TagVariant::Custom { color, foreground, border })
    }

    /// A new tag in a palette hue.
    pub fn color(color: ColorName) -> (r: Tag)
        ensures
            r == (Tag { variant: TagVariant::Color(color), ..Tag::new_spec() }),
    {
        Self::new().with_variant(TagVariant::Color(color))
    }

    /// The value of a new tag.
    pub open spec fn new_spec() -> Tag {
        Tag { variant: TagVariant::Secondary, outline: false, size: ElementSize::Medium, rounded: None }
    }

    /// Sets the variant.
    pub fn with_variant(self, variant: TagVariant) -> (r: Tag)
        ensures
            r == (Tag { variant, ..self }),
    {
        Tag { variant, ..self }
    }

    /// Draws the tag outlined.
    pub fn outline(self) -> (r: Tag)
        ensures
            r == (Tag { outline: true, ..self }),
    {
        Tag { outline: true, ..self }
    }

    /// Sets the corner radius.
    pub fn rounded(self, radius: AbsoluteLength) -> (r: Tag)
        ensures
            r == (Tag { rounded: Some(radius), ..self }),
    {
        Tag { rounded: Some(radius), ..self }
    }

    /// Rounds the corners fully (a radius of one rem).
    pub fn rounded_full(self) -> (r: Tag)
        ensures
            r == (Tag { rounded: Some(AbsoluteLength::Rems(1000)), ..self }),
    {
        Tag { rounded: Some(AbsoluteLength::Rems(1000)), ..self }
    }

    /// Sets the size.
    pub fn with_size(self, size: ElementSize) -> (r: Tag)
        ensures
            r == (Tag { size, ..self }),
    {
        Tag { size, ..self }
    }

    /// The background drawn: transparent white when outlined, the variant's otherwise.
    pub fn background(&self, dark: bool) -> (r: ColorRecipe)
        ensures
            r@ == (if self.outline { token(ThemeToken::TransparentWhite) } else { tag_bg_spec(self.variant, dark) }),
    {
        if self.outline {
            ColorRecipe::token(ThemeToken::TransparentWhite)
        } else {
            self.variant.bg(dark)
        }
    }

    /// Whether the tag is drawn in its compact form (extra small and small sizes),
    /// with half the theme radius and tighter padding.
    pub fn is_compact(&self) -> (r: bool)
        ensures
            r == (self.size == ElementSize::XSmall || self.size == ElementSize::Small),
    {
        match self.size {
            ElementSize::XSmall | ElementSize::Small => true,
            _ => false,
        }
    }
}

impl Default for Tag {
    fn default() -> (r: Tag)
        ensures
            r == Tag::new_spec(),
    {
        Tag::new()
    }
}

} // verus!
