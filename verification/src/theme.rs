//! Color recipes: which theme color (or which color of the user's) a widget
//! paints with, and which adjustments (opacity, mixing, shading) are applied to
//! it. The renderer evaluates a recipe against the active theme.
use vstd::prelude::*;
use crate::element::Hsla;

verus! {

/// The semantic intent of a themed color.
#[derive(Clone, Copy, Debug, PartialEq, Eq, Structural)]
pub enum Intent {
    Primary,
    Secondary,
    Danger,
    Warning,
    Success,
    Info,
}

/// The interaction state that a themed fill belongs to.
#[derive(Clone, Copy, Debug, PartialEq, Eq, Structural)]
pub enum StyleState {
    Normal,
    Hovered,
    Active,
}

/// A color of the active theme.
#[derive(Clone, Copy, Debug, PartialEq, Eq, Structural)]
pub enum ThemeToken {
    Transparent,
    /// The window background.
    Background,
    /// The theme's red.
    Red,
    TransparentWhite,
    Input,
    InputBackground,
    Border,
    Foreground,
    MutedForeground,
    /// The muted background.
    Muted,
    SecondaryForeground,
    Skeleton,
    /// The track of an unchecked switch.
    Switch,
    /// The thumb of a switch.
    SwitchThumb,
    Popover,
    Link,
    LinkHover,
    LinkActive,
    /// The foreground of the default button.
    ButtonForeground,
    /// The theme's color for an intent (`primary`, `danger`, ...).
    Accent(Intent),
    /// The foreground on the theme's color for an intent (`primary_foreground`, ...).
    AccentForeground(Intent),
    /// A shade (50 to 950) of a palette hue.
    Palette(ColorName, u32),
    /// The button color for an intent (`button_primary`, ...).
    ButtonAccent(Intent),
    /// The button foreground for an intent (`button_primary_foreground`, ...).
    ButtonAccentForeground(Intent),
    /// The state token of an intent used as a fill (`secondary_active`, ...).
    StateFill(Intent, StyleState),
    /// The background of the state token of an intent (`primary_hover.background`, ...).
    StateBackground(Intent, StyleState),
    /// A button fill: the default button (`None`) or one for an intent, in a state
    /// (`button`, `button_hover`, `button_primary_active`, ...).
    ButtonFill(Option<Intent>, StyleState),
    /// The background of the normal button token of an intent (`button_primary.background`).
    ButtonBackground(Intent),
}

/// A hue of the color palette.
#[derive(Clone, Copy, Debug, PartialEq, Eq, Structural)]
pub enum ColorName {
    Slate,
    Gray,
    Zinc,
    Neutral,
    Stone,
    Red,
    Orange,
    Amber,
    Yellow,
    Lime,
    Green,
    Emerald,
    Teal,
    Cyan,
    Sky,
    Blue,
    Indigo,
    Violet,
    Purple,
    Fuchsia,
    Pink,
    Rose,
}

/// Where a color comes from.
#[derive(Clone, Copy, Debug, PartialEq, Eq, Structural)]
pub enum ColorSource {
    Theme(ThemeToken),
    Custom(Hsla),
}

/// An adjustment applied to a color; amounts are in percent.
#[derive(Clone, Copy, Debug, PartialEq, Eq, Structural)]
pub enum ColorOp {
    /// Scales the alpha by the amount.
    Opacity(u32),
    /// Mixes towards the theme's transparent color by the amount, in Oklab.
    MixTransparent(u32),
    /// Mixes towards transparent white by the amount, in Oklab.
    MixTransparentWhite(u32),
    /// Lightens by the amount.
    Lighten(u32),
    /// Darkens by the amount.
    Darken(u32),
}

/// A color source with the adjustments applied to it, first to last.
#[derive(Clone, Debug)]
pub struct ColorRecipe {
    pub source: ColorSource,
    pub ops: Vec<ColorOp>,
}

/// The abstract value of a recipe.
pub ghost struct RecipeView {
    pub source: ColorSource,
    pub ops: Seq<ColorOp>,
}

impl View for ColorRecipe {
    type V = RecipeView;

    open spec fn view(&self) -> RecipeView {
        RecipeView { source: self.source, ops: self.ops@ }
    }
}

/// A recipe with no adjustment.
pub open spec fn plain(source: ColorSource) -> RecipeView {
    RecipeView { source, ops: Seq::empty() }
}

/// A theme color with no adjustment.
pub open spec fn token(t: ThemeToken) -> RecipeView {
    plain(ColorSource::Theme(t))
}

/// `r` followed by the adjustment `op`.
pub open spec fn with_op(r: RecipeView, op: ColorOp) -> RecipeView {
    RecipeView { source: r.source, ops: r.ops.push(op) }
}

impl ColorRecipe {
    /// A recipe with no adjustment.
    pub fn plain(source: ColorSource) -> (r: ColorRecipe)
        ensures
            r@ == plain(source),
    {
        ColorRecipe { source, ops: Vec::new() }
    }

    /// A theme color with no adjustment.
    pub fn token(t: ThemeToken) -> (r: ColorRecipe)
        ensures
            r@ == token(t),
    {
        ColorRecipe { source: ColorSource::Theme(t), ops: Vec::new() }
    }

    /// This recipe followed by the adjustment `op`.
    pub fn with_op(self, op: ColorOp) -> (r: ColorRecipe)
        ensures
            r@ == with_op(self@, op),
    {
        let mut ops = self.ops;
        ops.push(op);
        ColorRecipe { source: self.source, ops }
    }
}

} // verus!
