//! Buttons: their variants, the colors each variant paints with in each
//! interaction state, and the button's configuration.
use vstd::prelude::*;
use crate::button_icon::ButtonIcon;
use crate::element::{CallbackId, ElementId, ElementSize, Hsla};
use crate::geometry::{AbsoluteLength, Corners, Pixels};
use crate::icon::Icon;
use crate::theme::{
    plain, with_op, token, ColorOp, ColorRecipe, ColorSource, Intent, RecipeView, StyleState,
    ThemeToken,
};

verus! {

/// The corner rounding of a button.
#[derive(Clone, Copy, Debug, PartialEq, Eq, Structural)]
pub enum ButtonRounded {
    /// Square corners.
    Square,
    Small,
    Medium,
    Large,
    /// A radius in pixels.
    Size(Pixels),
}

impl ButtonRounded {
    /// The default rounding, `Medium`.
    pub fn default_rounded() -> (r: ButtonRounded)
        ensures
            r == ButtonRounded::Medium,
    {
        ButtonRounded::Medium
    }

    /// A rounding of `px` pixels.
    pub fn from_pixels(px: Pixels) -> (r: ButtonRounded)
        ensures
            r == ButtonRounded::Size(px),
    {
        ButtonRounded::Size(px)
    }
}

/// The colors of a custom button variant.
#[derive(Clone, Copy, Debug, PartialEq, Eq, Structural)]
pub struct ButtonCustomVariant {
    pub color: ColorSource,
    pub foreground: ColorSource,
    pub shadow: bool,
    pub hover: ColorSource,
    pub active: ColorSource,
}

impl ButtonCustomVariant {
    /// A custom variant in the theme's colors: a transparent background, the
    /// theme's foreground, transparent hover and active backgrounds, no shadow.
    pub fn new() -> (r: ButtonCustomVariant)
        ensures
            r.color == ColorSource::Theme(ThemeToken::Transparent),
            r.foreground == ColorSource::Theme(ThemeToken::Foreground),
            r.hover == ColorSource::Theme(ThemeToken::Transparent),
            r.active == ColorSource::Theme(ThemeToken::Transparent),
            !r.shadow,
    {
        ButtonCustomVariant {
            color: ColorSource::Theme(ThemeToken::Transparent),
            foreground: ColorSource::Theme(ThemeToken::Foreground),
            hover: ColorSource::Theme(ThemeToken::Transparent),
            active: ColorSource::Theme(ThemeToken::Transparent),
            shadow: false,
        }
    }

    /// Sets the background color.
    pub fn color(self, color: Hsla) -> (r: ButtonCustomVariant)
        ensures
            r == (ButtonCustomVariant { color: ColorSource::Custom(color), ..self }),
    {
        ButtonCustomVariant { color: ColorSource::Custom(color), ..self }
    }

    /// Sets the foreground color.
    pub fn foreground(self, color: Hsla) -> (r: ButtonCustomVariant)
        ensures
            r == (ButtonCustomVariant { foreground: ColorSource::Custom(color), ..self }),
    {
        ButtonCustomVariant { foreground: ColorSource::Custom(color), ..self }
    }

    /// Sets the hover background color.
    pub fn hover(self, color: Hsla) -> (r: ButtonCustomVariant)
        ensures
            r == (ButtonCustomVariant { hover: ColorSource::Custom(color), ..self }),
    {
        ButtonCustomVariant { hover: ColorSource::Custom(color), ..self }
    }

    /// Sets the active background color.
    pub fn active(self, color: Hsla) -> (r: ButtonCustomVariant)
        ensures
            r == (ButtonCustomVariant { active: ColorSource::Custom(color), ..self }),
    {
        ButtonCustomVariant { active: ColorSource::Custom(color), ..self }
    }

    /// Sets whether the button casts a shadow.
    pub fn shadow(self, shadow: bool) -> (r: ButtonCustomVariant)
        ensures
            r == (ButtonCustomVariant { shadow, ..self }),
    {
        ButtonCustomVariant { shadow, ..self }
    }
}

/// A button variant.
#[derive(Clone, Copy, Debug, PartialEq, Eq, Structural)]
pub enum ButtonVariant {
    Default,
    Primary,
    Secondary,
    Danger,
    Info,
    Success,
    Warning,
    /// A button without background until hovered.
    GhostButton,
    Link,
    Text,
    Custom(ButtonCustomVariant),
}

/// The colors and decorations of a button in one interaction state.
#[derive(Clone, Debug)]
pub struct ButtonVariantStyle {
    pub bg: ColorRecipe,
    pub border: ColorRecipe,
    pub fg: ColorRecipe,
    pub underline: bool,
    pub shadow: bool,
}

/// The abstract value of a button style.
pub ghost struct StyleView {
    pub bg: RecipeView,
    pub border: RecipeView,
    pub fg: RecipeView,
    pub underline: bool,
    pub shadow: bool,
}

impl View for ButtonVariantStyle {
    type V = StyleView;

    open spec fn view(&self) -> StyleView {
        StyleView {
            bg: self.bg@,
            border: self.border@,
            fg: self.fg@,
            underline: self.underline,
            shadow: self.shadow,
        }
    }
}

impl ButtonVariant {
    /// The intent of a themed variant, `None` for the others.
    pub open spec fn intent_spec(self) -> Option<Intent> {
        match self {
            ButtonVariant::Primary => Some(Intent::Primary),
            ButtonVariant::Secondary => Some(Intent::Secondary),
            ButtonVariant::Danger => Some(Intent::Danger),
            ButtonVariant::Info => Some(Intent::Info),
            ButtonVariant::Success => Some(Intent::Success),
            ButtonVariant::Warning => Some(Intent::Warning),
            _ => None,
        }
    }

    /// Whether the variant paints nothing behind its content.
    pub open spec fn is_bare(self) -> bool {
        self is GhostButton || self is Link || self is Text
    }
}

/// The background of an outlined button in `state`.
pub open spec fn outline_background_spec(v: ButtonVariant, state: StyleState) -> RecipeView {
    match v {
        ButtonVariant::Default => match state {
            StyleState::Normal => token(ThemeToken::InputBackground),
            StyleState::Hovered => with_op(token(ThemeToken::Input), ColorOp::MixTransparent(50)),
            StyleState::Active => with_op(token(ThemeToken::Input), ColorOp::MixTransparent(70)),
        },
        ButtonVariant::GhostButton | ButtonVariant::Link | ButtonVariant::Text => token(ThemeToken::Transparent),
        ButtonVariant::Custom(c) => with_op(plain(c.color), ColorOp::MixTransparent(20)),
        _ => with_op(
            token(ThemeToken::StateBackground(v.intent_spec()->0, state)),
            ColorOp::Opacity(
                match state {
                    StyleState::Normal => 10,
                    StyleState::Hovered => 20,
                    StyleState::Active => 40,
                },
            ),
        ),
    }
}

/// The background of a button at rest.
pub open spec fn bg_color_spec(v: ButtonVariant, outline: bool) -> RecipeView {
    if outline {
        outline_background_spec(v, StyleState::Normal)
    } else {
        match v {
            ButtonVariant::Default => token(ThemeToken::ButtonFill(None, StyleState::Normal)),
            ButtonVariant::GhostButton | ButtonVariant::Link | ButtonVariant::Text => token(ThemeToken::Transparent),
            ButtonVariant::Custom(c) => with_op(plain(c.color), ColorOp::MixTransparent(20)),
            _ => token(ThemeToken::ButtonFill(v.intent_spec(), StyleState::Normal)),
        }
    }
}

/// The text color of a button at rest.
pub open spec fn text_color_spec(v: ButtonVariant, outline: bool) -> RecipeView {
    match v {
        ButtonVariant::Default => token(ThemeToken::ButtonForeground),
        ButtonVariant::Secondary => if outline {
            token(ThemeToken::SecondaryForeground)
        } else {
            token(ThemeToken::ButtonAccentForeground(Intent::Secondary))
        },
        ButtonVariant::GhostButton => token(ThemeToken::SecondaryForeground),
        ButtonVariant::Link => token(ThemeToken::Link),
        ButtonVariant::Text => with_op(token(ThemeToken::Foreground), ColorOp::Opacity(90)),
        ButtonVariant::Custom(c) => plain(c.color),
        _ => if outline {
            token(ThemeToken::Accent(v.intent_spec()->0))
        } else {
            token(ThemeToken::ButtonAccentForeground(v.intent_spec()->0))
        },
    }
}

/// The border color of a button.
pub open spec fn border_color_spec(v: ButtonVariant, outline: bool) -> RecipeView {
    match v {
        ButtonVariant::Default => token(ThemeToken::Input),
        ButtonVariant::Secondary => token(ThemeToken::Border),
        ButtonVariant::Primary => token(ThemeToken::Accent(Intent::Primary)),
        ButtonVariant::GhostButton | ButtonVariant::Link | ButtonVariant::Text => token(ThemeToken::Transparent),
        ButtonVariant::Custom(c) => if outline {
            with_op(plain(c.color), ColorOp::MixTransparentWhite(40))
        } else {
            plain(c.color)
        },
        _ => if outline {
            with_op(token(ThemeToken::Accent(v.intent_spec()->0)), ColorOp::MixTransparentWhite(40))
        } else {
            token(ThemeToken::ButtonAccent(v.intent_spec()->0))
        },
    }
}

/// Whether the label is underlined: only for links.
pub open spec fn underline_spec(v: ButtonVariant) -> bool {
    v is Link
}

/// Whether the button casts a shadow: only a custom variant that asks for one.
pub open spec fn shadow_spec(v: ButtonVariant) -> bool {
    match v {
        ButtonVariant::Custom(c) => c.shadow,
        _ => false,
    }
}

/// The style of a button at rest.
pub open spec fn normal_spec(v: ButtonVariant, outline: bool) -> StyleView {
    StyleView {
        bg: bg_color_spec(v, outline),
        border: border_color_spec(v, outline),
        fg: text_color_spec(v, outline),
        underline: underline_spec(v),
        shadow: shadow_spec(v),
    }
}

/// The shaded secondary color of a ghost button: lightened in a dark theme,
/// darkened in a light one, at 80% opacity.
pub open spec fn ghost_shade(amount: u32, dark: bool) -> RecipeView {
    with_op(
        with_op(
            token(ThemeToken::Accent(Intent::Secondary)),
            if dark { ColorOp::Lighten(amount) } else { ColorOp::Darken(amount) },
        ),
        ColorOp::Opacity(80),
    )
}

/// The style of a hovered button.
pub open spec fn hovered_spec(v: ButtonVariant, outline: bool, dark: bool) -> StyleView {
    let bg = match v {
        ButtonVariant::Custom(c) => with_op(
            plain(c.color),
            ColorOp::MixTransparent(if outline { 20 } else { 30 }),
        ),
        ButtonVariant::GhostButton => ghost_shade(10, dark),
        ButtonVariant::Link | ButtonVariant::Text => token(ThemeToken::Transparent),
        _ => if outline {
            outline_background_spec(v, StyleState::Hovered)
        } else {
            token(ThemeToken::ButtonFill(v.intent_spec(), StyleState::Hovered))
        },
    };
    let fg = match v {
        ButtonVariant::Link => token(ThemeToken::LinkHover),
        ButtonVariant::Text => token(ThemeToken::Foreground),
        _ => text_color_spec(v, outline),
    };
    StyleView {
        bg,
        border: border_color_spec(v, outline),
        fg,
        underline: underline_spec(v),
        shadow: shadow_spec(v),
    }
}

/// The style of a pressed button.
pub open spec fn active_spec(v: ButtonVariant, outline: bool, dark: bool) -> StyleView {
    let bg = match v {
        ButtonVariant::Custom(c) => with_op(plain(c.color), ColorOp::MixTransparent(40)),
        ButtonVariant::GhostButton => ghost_shade(20, dark),
        ButtonVariant::Link | ButtonVariant::Text => token(ThemeToken::Transparent),
        _ => if outline {
            outline_background_spec(v, StyleState::Active)
        } else {
            token(ThemeToken::ButtonFill(v.intent_spec(), StyleState::Active))
        },
    };
    let fg = match v {
        ButtonVariant::Link => token(ThemeToken::LinkActive),
        ButtonVariant::Text => with_op(token(ThemeToken::Foreground), ColorOp::Opacity(70)),
        _ => text_color_spec(v, outline),
    };
    StyleView {
        bg,
        border: border_color_spec(v, outline),
        fg,
        underline: underline_spec(v),
        shadow: shadow_spec(v),
    }
}

/// The style of a selected button.
pub open spec fn selected_spec(v: ButtonVariant, outline: bool, dark: bool) -> StyleView {
    if outline {
        StyleView { fg: text_color_spec(v, outline), ..active_spec(v, outline, dark) }
    } else {
        let bg = match v {
            ButtonVariant::GhostButton => token(ThemeToken::StateFill(Intent::Secondary, StyleState::Active)),
            ButtonVariant::Link | ButtonVariant::Text => token(ThemeToken::Transparent),
            ButtonVariant::Custom(c) => plain(c.active),
            _ => token(ThemeToken::ButtonFill(v.intent_spec(), StyleState::Active)),
        };
        let fg = match v {
            ButtonVariant::Link => token(ThemeToken::LinkActive),
            ButtonVariant::Text => with_op(token(ThemeToken::Foreground), ColorOp::Opacity(70)),
            _ => text_color_spec(v, false),
        };
        StyleView {
            bg,
            border: border_color_spec(v, outline),
            fg,
            underline: underline_spec(v),
            shadow: shadow_spec(v),
        }
    }
}

/// The fill of a disabled button that is neither outlined nor the default variant.
pub open spec fn disabled_fill_spec(v: ButtonVariant) -> RecipeView {
    match v {
        ButtonVariant::Default | ButtonVariant::Link | ButtonVariant::GhostButton | ButtonVariant::Text => token(
            ThemeToken::Transparent,
        ),
        ButtonVariant::Secondary => with_op(
            token(ThemeToken::ButtonBackground(Intent::Secondary)),
            ColorOp::Opacity(150),
        ),
        ButtonVariant::Custom(c) => with_op(plain(c.color), ColorOp::Opacity(15)),
        _ => with_op(token(ThemeToken::ButtonBackground(v.intent_spec()->0)), ColorOp::Opacity(15)),
    }
}

/// The border of a disabled button that is neither outlined nor the default variant.
pub open spec fn disabled_border_spec(v: ButtonVariant) -> RecipeView {
    match v {
        ButtonVariant::Default | ButtonVariant::Link | ButtonVariant::GhostButton | ButtonVariant::Text => token(
            ThemeToken::Transparent,
        ),
        ButtonVariant::Secondary => with_op(
            token(ThemeToken::ButtonAccent(Intent::Secondary)),
            ColorOp::Opacity(150),
        ),
        ButtonVariant::Custom(c) => with_op(plain(c.color), ColorOp::Opacity(15)),
        _ => with_op(token(ThemeToken::ButtonAccent(v.intent_spec()->0)), ColorOp::Opacity(15)),
    }
}

/// The style of a disabled button.
pub open spec fn disabled_spec(v: ButtonVariant, outline: bool) -> StyleView {
    let bg = if outline {
        with_op(outline_background_spec(v, StyleState::Normal), ColorOp::Opacity(50))
    } else if v is Default {
        with_op(token(ThemeToken::InputBackground), ColorOp::Opacity(50))
    } else {
        disabled_fill_spec(v)
    };
    let border = if outline {
        with_op(border_color_spec(v, true), ColorOp::Opacity(50))
    } else if v is Default {
        with_op(token(ThemeToken::Input), ColorOp::Opacity(50))
    } else {
        disabled_border_spec(v)
    };
    StyleView {
        bg,
        border,
        fg: with_op(token(ThemeToken::MutedForeground), ColorOp::Opacity(50)),
        underline: underline_spec(v),
        shadow: false,
    }
}

impl ButtonVariant {
    /// Whether this is the link variant.
    pub fn is_link(&self) -> (r: bool)
        ensures
            r == (*self is Link),
    {
        match self {
            ButtonVariant::Link => true,
            _ => false,
        }
    }

    /// Whether this is the text variant.
    pub fn is_text(&self) -> (r: bool)
        ensures
            r == (*self is Text),
    {
        match self {
            ButtonVariant::Text => true,
            _ => false,
        }
    }

    /// Whether this is the ghost variant.
    pub fn is_ghost(&self) -> (r: bool)
        ensures
            r == (*self is GhostButton),
    {
        match self {
            ButtonVariant::GhostButton => true,
            _ => false,
        }
    }

    /// Whether the button has no padding: links and text buttons.
    pub fn no_padding(&self) -> (r: bool)
        ensures
            r == (*self is Link || *self is Text),
    {
        self.is_link() || self.is_text()
    }

    /// Whether this is the default variant.
    pub fn is_default(&self) -> (r: bool)
        ensures
            r == (*self is Default),
    {
        match self {
            ButtonVariant::Default => true,
            _ => false,
        }
    }

    /// The intent of a themed variant.
    pub fn intent(&self) -> (r: Option<Intent>)
        ensures
            r == self.intent_spec(),
    {
        match self {
            ButtonVariant::Primary => Some(Intent::Primary),
            ButtonVariant::Secondary => Some(Intent::Secondary),
            ButtonVariant::Danger => Some(Intent::Danger),
            ButtonVariant::Info => Some(Intent::Info),
            ButtonVariant::Success => Some(Intent::Success),
            ButtonVariant::Warning => Some(Intent::Warning),
            _ => None,
        }
    }

    /// The background of the outlined button in `state`: the input background for
    /// the default variant (mixed towards transparent when hovered or pressed),
    /// the intent's state background at 10%, 20% or 40% opacity for themed
    /// variants, transparent for ghost, link and text, and the custom color mixed
    /// 20% towards transparent.
    pub fn outline_background(&self, state: StyleState) -> (r: ColorRecipe)
        ensures
            r@ == outline_background_spec(*self, state),
    {
        match self {
            ButtonVariant::Default => match state {
                StyleState::Normal => ColorRecipe::token(ThemeToken::InputBackground),
                StyleState::Hovered => ColorRecipe::token(ThemeToken::Input).with_op(ColorOp::MixTransparent(50)),
                StyleState::Active => ColorRecipe::token(ThemeToken::Input).with_op(ColorOp::MixTransparent(70)),
            },
            ButtonVariant::GhostButton | ButtonVariant::Link | ButtonVariant::Text => ColorRecipe::token(
                ThemeToken::Transparent,
            ),
            ButtonVariant::Custom(c) => ColorRecipe::plain(c.color).with_op(ColorOp::MixTransparent(20)),
            _ => {
                let i = match self.intent() {
                    Some(i) => i,
                    None => Intent::Primary,
                };
                let pct: u32 = match state {
                    StyleState::Normal => 10,
                    StyleState::Hovered => 20,
                    StyleState::Active => 40,
                };
                ColorRecipe::token(ThemeToken::StateBackground(i, state)).with_op(ColorOp::Opacity(pct))
            },
        }
    }

    /// The background at rest.
    pub fn bg_color(&self, outline: bool) -> (r: ColorRecipe)
        ensures
            r@ == bg_color_spec(*self, outline),
    {
        if outline {
            return self.outline_background(StyleState::Normal);
        }
        match self {
            ButtonVariant::Default => ColorRecipe::token(ThemeToken::ButtonFill(None, StyleState::Normal)),
            ButtonVariant::GhostButton | ButtonVariant::Link | ButtonVariant::Text => ColorRecipe::token(
                ThemeToken::Transparent,
            ),
            ButtonVariant::Custom(c) => ColorRecipe::plain(c.color).with_op(ColorOp::MixTransparent(20)),
            _ => ColorRecipe::token(ThemeToken::ButtonFill(self.intent(), StyleState::Normal)),
        }
    }

    /// The text color at rest.
    pub fn text_color(&self, outline: bool) -> (r: ColorRecipe)
        ensures
            r@ == text_color_spec(*self, outline),
    {
        match self {
            ButtonVariant::Default => ColorRecipe::token(ThemeToken::ButtonForeground),
            ButtonVariant::Secondary => if outline {
                ColorRecipe::token(ThemeToken::SecondaryForeground)
            } else {
                ColorRecipe::token(ThemeToken::ButtonAccentForeground(Intent::Secondary))
            },
            ButtonVariant::GhostButton => ColorRecipe::token(ThemeToken::SecondaryForeground),
            ButtonVariant::Link => ColorRecipe::token(ThemeToken::Link),
            ButtonVariant::Text => ColorRecipe::token(ThemeToken::Foreground).with_op(ColorOp::Opacity(90)),
            ButtonVariant::Custom(c) => ColorRecipe::plain(c.color),
            _ => {
                let i = match self.intent() {
                    Some(i) => i,
                    None => Intent::Primary,
                };
                if outline {
                    ColorRecipe::token(ThemeToken::Accent(i))
                } else {
                    ColorRecipe::token(ThemeToken::ButtonAccentForeground(i))
                }
            },
        }
    }

    /// The border color.
    pub fn border_color(&self, outline: bool) -> (r: ColorRecipe)
        ensures
            r@ == border_color_spec(*self, outline),
    {
        match self {
            ButtonVariant::Default => ColorRecipe::token(ThemeToken::Input),
            ButtonVariant::Secondary => ColorRecipe::token(ThemeToken::Border),
            ButtonVariant::Primary => ColorRecipe::token(ThemeToken::Accent(Intent::Primary)),
            ButtonVariant::GhostButton | ButtonVariant::Link | ButtonVariant::Text => ColorRecipe::token(
                ThemeToken::Transparent,
            ),
            ButtonVariant::Custom(c) => if outline {
                ColorRecipe::plain(c.color).with_op(ColorOp::MixTransparentWhite(40))
            } else {
                ColorRecipe::plain(c.color)
            },
            _ => {
                let i = match self.intent() {
                    Some(i) => i,
                    None => Intent::Primary,
                };
                if outline {
                    ColorRecipe::token(ThemeToken::Accent(i)).with_op(ColorOp::MixTransparentWhite(40))
                } else {
                    ColorRecipe::token(ThemeToken::ButtonAccent(i))
                }
            },
        }
    }

    /// Whether the label is underlined.
    pub fn underline(&self) -> (r: bool)
        ensures
            r == underline_spec(*self),
    {
        match self {
            ButtonVariant::Link => true,
            _ => false,
        }
    }

    /// Whether the button casts a shadow.
    pub fn shadow(&self) -> (r: bool)
        ensures
            r == shadow_spec(*self),
    {
        match self {
            ButtonVariant::Custom(c) => c.shadow,
            _ => false,
        }
    }

    /// The style at rest.
    pub fn normal(&self, outline: bool) -> (r: ButtonVariantStyle)
        ensures
            r@ == normal_spec(*self, outline),
    {
        ButtonVariantStyle {
            bg: self.bg_color(outline),
            border: self.border_color(outline),
            fg: self.text_color(outline),
            underline: self.underline(),
            shadow: self.shadow(),
        }
    }

    /// The ghost background, shaded by `amount` percent.
    fn ghost_shade(amount: u32, dark: bool) -> (r: ColorRecipe)
        ensures
            r@ == ghost_shade(amount, dark),
    {
        let shade = if dark { ColorOp::Lighten(amount) } else { ColorOp::Darken(amount) };
        ColorRecipe::token(ThemeToken::Accent(Intent::Secondary)).with_op(shade).with_op(ColorOp::Opacity(80))
    }

    /// The style when hovered, in a dark or light theme.
    pub fn hovered(&self, outline: bool, dark: bool) -> (r: ButtonVariantStyle)
        ensures
            r@ == hovered_spec(*self, outline, dark),
    {
        let bg = match self {
            ButtonVariant::Custom(c) => {
                let pct: u32 = if outline { 20 } else { 30 };
                ColorRecipe::plain(c.color).with_op(ColorOp::MixTransparent(pct))
            },
            ButtonVariant::GhostButton => Self::ghost_shade(10, dark),
            ButtonVariant::Link | ButtonVariant::Text => ColorRecipe::token(ThemeToken::Transparent),
            _ => if outline {
                self.outline_background(StyleState::Hovered)
            } else {
                ColorRecipe::token(ThemeToken::ButtonFill(self.intent(), StyleState::Hovered))
            },
        };
        let fg = match self {
            ButtonVariant::Link => ColorRecipe::token(ThemeToken::LinkHover),
            ButtonVariant::Text => ColorRecipe::token(ThemeToken::Foreground),
            _ => self.text_color(outline),
        };
        ButtonVariantStyle {
            bg,
            border: self.border_color(outline),
            fg,
            underline: self.underline(),
            shadow: self.shadow(),
        }
    }

    /// The style when pressed, in a dark or light theme.
    pub fn active(&self, outline: bool, dark: bool) -> (r: ButtonVariantStyle)
        ensures
            r@ == active_spec(*self, outline, dark),
    {
        let bg = match self {
            ButtonVariant::Custom(c) => ColorRecipe::plain(c.color).with_op(ColorOp::MixTransparent(40)),
            ButtonVariant::GhostButton => Self::ghost_shade(20, dark),
            ButtonVariant::Link | ButtonVariant::Text => ColorRecipe::token(ThemeToken::Transparent),
            _ => if outline {
                self.outline_background(StyleState::Active)
            } else {
                ColorRecipe::token(ThemeToken::ButtonFill(self.intent(), StyleState::Active))
            },
        };
        let fg = match self {
            ButtonVariant::Link => ColorRecipe::token(ThemeToken::LinkActive),
            ButtonVariant::Text => ColorRecipe::token(ThemeToken::Foreground).with_op(ColorOp::Opacity(70)),
            _ => self.text_color(outline),
        };
        ButtonVariantStyle {
            bg,
            border: self.border_color(outline),
            fg,
            underline: self.underline(),
            shadow: self.shadow(),
        }
    }

    /// The style when selected, in a dark or light theme: an outlined button looks
    /// pressed but keeps its resting text color.
    pub fn selected(&self, outline: bool, dark: bool) -> (r: ButtonVariantStyle)
        ensures
            r@ == selected_spec(*self, outline, dark),
    {
        if outline {
            let active_style = self.active(outline, dark);
            return ButtonVariantStyle { fg: self.text_color(outline), ..active_style };
        }
        let bg = match self {
            ButtonVariant::GhostButton => ColorRecipe::token(ThemeToken::StateFill(Intent::Secondary, StyleState::Active)),
            ButtonVariant::Link | ButtonVariant::Text => ColorRecipe::token(ThemeToken::Transparent),
            ButtonVariant::Custom(c) => ColorRecipe::plain(c.active),
            _ => ColorRecipe::token(ThemeToken::ButtonFill(self.intent(), StyleState::Active)),
        };
        let fg = match self {
            ButtonVariant::Link => ColorRecipe::token(ThemeToken::LinkActive),
            ButtonVariant::Text => ColorRecipe::token(ThemeToken::Foreground).with_op(ColorOp::Opacity(70)),
            _ => self.text_color(false),
        };
        ButtonVariantStyle {
            bg,
            border: self.border_color(outline),
            fg,
            underline: self.underline(),
            shadow: self.shadow(),
        }
    }

    /// The style when disabled: muted text at half opacity, no shadow, and
    /// backgrounds and borders faded.
    pub fn disabled(&self, outline: bool) -> (r: ButtonVariantStyle)
        ensures
            r@ == disabled_spec(*self, outline),
    {
        let (bg, border) = if outline {
            (
                self.outline_background(StyleState::Normal).with_op(ColorOp::Opacity(50)),
                self.border_color(true).with_op(ColorOp::Opacity(50)),
            )
        } else if self.is_default() {
            (
                ColorRecipe::token(ThemeToken::InputBackground).with_op(ColorOp::Opacity(50)),
                ColorRecipe::token(ThemeToken::Input).with_op(ColorOp::Opacity(50)),
            )
        } else {
            let fill = match self {
                ButtonVariant::Default | ButtonVariant::Link | ButtonVariant::GhostButton | ButtonVariant::Text => ColorRecipe::token(ThemeToken::Transparent),
                ButtonVariant::Secondary => ColorRecipe::token(ThemeToken::ButtonBackground(Intent::Secondary)).with_op(ColorOp::Opacity(150)),
                ButtonVariant::Custom(c) => ColorRecipe::plain(c.color).with_op(ColorOp::Opacity(15)),
                _ => {
                    let i = match self.intent() {
                        Some(i) => i,
                        None => Intent::Primary,
                    };
                    ColorRecipe::token(ThemeToken::ButtonBackground(i)).with_op(ColorOp::Opacity(15))
                },
            };
            let edge = match self {
                ButtonVariant::Default | ButtonVariant::Link | ButtonVariant::GhostButton | ButtonVariant::Text => ColorRecipe::token(ThemeToken::Transparent),
                ButtonVariant::Secondary => ColorRecipe::token(ThemeToken::ButtonAccent(Intent::Secondary)).with_op(ColorOp::Opacity(150)),
                ButtonVariant::Custom(c) => ColorRecipe::plain(c.color).with_op(ColorOp::Opacity(15)),
                _ => {
                    let i = match self.intent() {
                        Some(i) => i,
                        None => Intent::Primary,
                    };
                    ColorRecipe::token(ThemeToken::ButtonAccent(i)).with_op(ColorOp::Opacity(15))
                },
            };
            (fill, edge)
        };
        ButtonVariantStyle {
            bg,
            border,
            fg: ColorRecipe::token(ThemeToken::MutedForeground).with_op(ColorOp::Opacity(50)),
            underline: self.underline(),
            shadow: false,
        }
    }
}

/// A selected outlined button looks like a pressed one, except that its text
/// keeps the resting text color.
pub proof fn lemma_selected_outline_is_active_with_resting_text(v: ButtonVariant, dark: bool)
    ensures
        selected_spec(v, true, dark).bg == active_spec(v, true, dark).bg,
        selected_spec(v, true, dark).border == active_spec(v, true, dark).border,
        selected_spec(v, true, dark).fg == text_color_spec(v, true),
{
}

/// In every state only links are underlined, and a disabled button never casts a shadow.
pub proof fn lemma_underline_only_links(v: ButtonVariant, outline: bool, dark: bool)
    ensures
        normal_spec(v, outline).underline == (v is Link),
        hovered_spec(v, outline, dark).underline == (v is Link),
        active_spec(v, outline, dark).underline == (v is Link),
        selected_spec(v, outline, dark).underline == (v is Link),
        disabled_spec(v, outline).underline == (v is Link),
        !disabled_spec(v, outline).shadow,
{
}

/// Link and text buttons paint a transparent background in every state that is
/// not disabled, outlined or not.
pub proof fn lemma_link_and_text_backgrounds_transparent(v: ButtonVariant, outline: bool, dark: bool)
    requires
        v is Link || v is Text,
    ensures
        normal_spec(v, outline).bg == token(ThemeToken::Transparent),
        hovered_spec(v, outline, dark).bg == token(ThemeToken::Transparent),
        active_spec(v, outline, dark).bg == token(ThemeToken::Transparent),
        selected_spec(v, outline, dark).bg == token(ThemeToken::Transparent),
{
}

/// The border of a button is the same in the resting, hovered, pressed and
/// (when not outlined) selected states.
pub proof fn lemma_border_stable_across_states(v: ButtonVariant, outline: bool, dark: bool)
    ensures
        hovered_spec(v, outline, dark).border == normal_spec(v, outline).border,
        active_spec(v, outline, dark).border == normal_spec(v, outline).border,
        selected_spec(v, outline, dark).border == normal_spec(v, outline).border,
{
}

/// A button: its label, variant, state and configuration.
#[derive(Clone, Debug)]
pub struct Button {
    pub id: ElementId,
    pub label: Option<String>,
    pub tooltip: Option<String>,
    pub disabled: bool,
    pub selected: bool,
    pub toggled: Option<bool>,
    pub variant: ButtonVariant,
    pub rounded: ButtonRounded,
    /// Which corners are rounded.
    pub border_corners: Corners<bool>,
    pub icon: Option<ButtonIcon>,
    /// The icon a loading button's spinner turns, else the default one.
    pub loading_icon: Option<Icon>,
    pub outline: bool,
    pub dropdown_caret: bool,
    pub size: ElementSize,
    pub compact: bool,
    pub loading: bool,
    pub tab_index: isize,
    pub tab_stop: bool,
    pub on_click: Option<CallbackId>,
    pub on_hover: Option<CallbackId>,
}

/// Setting the variant of a widget, with shorthands for each variant.
pub trait ButtonVariants: Sized {
    /// The widget's variant.
    spec fn variant_spec(&self) -> ButtonVariant;

    /// Sets the variant.
    fn with_variant(self, variant: ButtonVariant) -> (r: Self)
        ensures
            r.variant_spec() == variant,
    ;

    /// Uses the `Primary` variant.
    fn primary(self) -> (r: Self)
        ensures
            r.variant_spec() == ButtonVariant::Primary,
    {
        self.with_variant(ButtonVariant::Primary)
    }

    /// Uses the `Secondary` variant.
    fn secondary(self) -> (r: Self)
        ensures
            r.variant_spec() == ButtonVariant::Secondary,
    {
        self.with_variant(ButtonVariant::Secondary)
    }

    /// Uses the `Danger` variant.
    fn danger(self) -> (r: Self)
        ensures
            r.variant_spec() == ButtonVariant::Danger,
    {
        self.with_variant(ButtonVariant::Danger)
    }

    /// Uses the `Warning` variant.
    fn warning(self) -> (r: Self)
        ensures
            r.variant_spec() == ButtonVariant::Warning,
    {
        self.with_variant(ButtonVariant::Warning)
    }

    /// Uses the `Success` variant.
    fn success(self) -> (r: Self)
        ensures
            r.variant_spec() == ButtonVariant::Success,
    {
        self.with_variant(ButtonVariant::Success)
    }

    /// Uses the `Info` variant.
    fn info(self) -> (r: Self)
        ensures
            r.variant_spec() == ButtonVariant::Info,
    {
        self.with_variant(ButtonVariant::Info)
    }

    /// Uses the `GhostButton` variant.
    fn ghost(self) -> (r: Self)
        ensures
            r.variant_spec() == ButtonVariant::GhostButton,
    {
        self.with_variant(ButtonVariant::GhostButton)
    }

    /// Uses the `Link` variant.
    fn link(self) -> (r: Self)
        ensures
            r.variant_spec() == ButtonVariant::Link,
    {
        self.with_variant(ButtonVariant::Link)
    }

    /// Uses the `Text` variant.
    fn text(self) -> (r: Self)
        ensures
            r.variant_spec() == ButtonVariant::Text,
    {
        self.with_variant(ButtonVariant::Text)
    }

    /// Uses a custom variant.
    fn custom(self, style: ButtonCustomVariant) -> (r: Self)
        ensures
            r.variant_spec() == ButtonVariant::Custom(style),
    {
        self.with_variant(ButtonVariant::Custom(style))
    }
}

impl Button {
    /// A medium, rounded, enabled button with the identifier `id`, without label.
    pub fn new(id: ElementId) -> (r: Button)
        ensures
            r.id == id,
            r.label is None,
            r.tooltip is None,
            !r.disabled,
            !r.selected,
            r.toggled is None,
            r.variant == ButtonVariant::Default,
            r.rounded == ButtonRounded::Medium,
            r.border_corners == (Corners { top_left: true, top_right: true, bottom_right: true, bottom_left: true }),
            r.icon is None,
            r.loading_icon is None,
            !r.outline,
            !r.dropdown_caret,
            r.size == ElementSize::Medium,
            !r.compact,
            !r.loading,
            r.tab_index == 0,
            r.tab_stop,
            r.on_click is None,
            r.on_hover is None,
    {
        Button {
            id,
            label: None,
            tooltip: None,
            disabled: false,
            selected: false,
            toggled: None,
            variant: ButtonVariant::Default,
            rounded: ButtonRounded::Medium,
            border_corners: Corners::all(true),
            icon: None,
            loading_icon: None,
            outline: false,
            dropdown_caret: false,
            size: ElementSize::Medium,
            compact: false,
            loading: false,
            tab_index: 0,
            tab_stop: true,
            on_click: None,
            on_hover: None,
        }
    }

    /// Draws the button with an outline.
    pub fn outline(self) -> (r: Button)
        ensures
            r == (Button { outline: true, ..self }),
    {
        Button { outline: true, ..self }
    }

    /// Sets the corner rounding.
    pub fn rounded(self, rounded: ButtonRounded) -> (r: Button)
        ensures
            r == (Button { rounded, ..self }),
    {
        Button { rounded, ..self }
    }

    /// Sets which corners are rounded (all four by default), so that a button
    /// can follow the border of the box it sits in.
    pub fn border_corners(self, corners: Corners<bool>) -> (r: Button)
        ensures
            r == (Button { border_corners: corners, ..self }),
    {
        Button { border_corners: corners, ..self }
    }

    /// Sets the icon; a button with an icon and no label is an icon button.
    pub fn icon(self, icon: ButtonIcon) -> (r: Button)
        ensures
            r == (Button { icon: Some(icon), ..self }),
    {
        Button { icon: Some(icon), ..self }
    }

    /// Sets the icon a loading button's spinner turns (the default spinner's otherwise).
    pub fn loading_icon(self, icon: Icon) -> (r: Button)
        ensures
            r == (Button { loading_icon: Some(icon), ..self }),
    {
        Button { loading_icon: Some(icon), ..self }
    }

    /// Sets the label; a button without one is an icon button.
    pub fn label(self, label: &str) -> (r: Button)
        ensures
            r.label matches Some(l) && l@ == label@,
            r == (Button { label: r.label, ..self }),
    {
        Button { label: Some(label.to_owned()), ..self }
    }

    /// Sets the tooltip.
    pub fn tooltip(self, tooltip: &str) -> (r: Button)
        ensures
            r.tooltip matches Some(t) && t@ == tooltip@,
            r == (Button { tooltip: r.tooltip, ..self }),
    {
        Button { tooltip: Some(tooltip.to_owned()), ..self }
    }

    /// Sets whether a loading indicator is shown.
    pub fn loading(self, loading: bool) -> (r: Button)
        ensures
            r == (Button { loading, ..self }),
    {
        Button { loading, ..self }
    }

    /// Makes the padding smaller.
    pub fn compact(self) -> (r: Button)
        ensures
            r == (Button { compact: true, ..self }),
    {
        Button { compact: true, ..self }
    }

    /// Sets the callback run on a click.
    pub fn on_click(self, handler: CallbackId) -> (r: Button)
        ensures
            r == (Button { on_click: Some(handler), ..self }),
    {
        Button { on_click: Some(handler), ..self }
    }

    /// Sets the callback run when the pointer enters or leaves.
    pub fn on_hover(self, handler: CallbackId) -> (r: Button)
        ensures
            r == (Button { on_hover: Some(handler), ..self }),
    {
        Button { on_hover: Some(handler), ..self }
    }

    /// Sets the tab index.
    pub fn tab_index(self, tab_index: isize) -> (r: Button)
        ensures
            r == (Button { tab_index, ..self }),
    {
        Button { tab_index, ..self }
    }

    /// Sets whether the button is reached with the tab key.
    pub fn tab_stop(self, tab_stop: bool) -> (r: Button)
        ensures
            r == (Button { tab_stop, ..self }),
    {
        Button { tab_stop, ..self }
    }

    /// Sets whether a drop-down caret follows the label.
    pub fn dropdown_caret(self, dropdown_caret: bool) -> (r: Button)
        ensures
            r == (Button { dropdown_caret, ..self }),
    {
        Button { dropdown_caret, ..self }
    }

    /// Marks the button as a toggle button with the given pressed state.
    pub fn toggled(self, toggled: bool) -> (r: Button)
        ensures
            r == (Button { toggled: Some(toggled), ..self }),
    {
        Button { toggled: Some(toggled), ..self }
    }

    /// Sets whether the button is disabled.
    pub fn disabled(self, disabled: bool) -> (r: Button)
        ensures
            r == (Button { disabled, ..self }),
    {
        Button { disabled, ..self }
    }

    /// Sets whether the button is selected.
    pub fn selected(self, selected: bool) -> (r: Button)
        ensures
            r == (Button { selected, ..self }),
    {
        Button { selected, ..self }
    }

    /// Whether the button is selected.
    pub fn is_selected(&self) -> (r: bool)
        ensures
            r == self.selected,
    {
        self.selected
    }

    /// Sets the size.
    pub fn with_size(self, size: ElementSize) -> (r: Button)
        ensures
            r == (Button { size, ..self }),
    {
        Button { size, ..self }
    }

    /// Whether a click runs the click callback: only when there is one and the
    /// button is neither disabled nor loading.
    pub fn clickable(&self) -> (r: bool)
        ensures
            r == (!(self.disabled || self.loading) && self.on_click is Some),
    {
        !(self.disabled || self.loading) && self.on_click.is_some()
    }

    /// Whether hovering runs the hover callback: only when there is one and the
    /// button is neither disabled nor loading.
    pub fn hoverable(&self) -> (r: bool)
        ensures
            r == (!(self.disabled || self.loading) && self.on_hover is Some),
    {
        !(self.disabled || self.loading) && self.on_hover.is_some()
    }

    /// The style the button is drawn in: disabled over selected over the resting style.
    pub fn current_style(&self, dark: bool) -> (r: ButtonVariantStyle)
        ensures
            r@ == (if self.disabled {
                disabled_spec(self.variant, self.outline)
            } else if self.selected {
                selected_spec(self.variant, self.outline, dark)
            } else {
                normal_spec(self.variant, self.outline)
            }),
    {
        if self.disabled {
            self.variant.disabled(self.outline)
        } else if self.selected {
            self.variant.selected(self.outline, dark)
        } else {
            self.variant.normal(self.outline)
        }
    }
}

impl ButtonVariants for Button {
    open spec fn variant_spec(&self) -> ButtonVariant {
        self.variant
    }

    fn with_variant(self, variant: ButtonVariant) -> (r: Button)
        ensures
            r == (Button { variant, ..self }),
    {
        Button { variant, ..self }
    }
}

/// The accessibility role of a button.
#[derive(Clone, Copy, Debug, PartialEq, Eq, Structural)]
pub enum ButtonRole {
    Button,
    Link,
}

/// The box a button is laid out in.
#[derive(Clone, Copy, Debug, PartialEq, Eq, Structural)]
pub enum ButtonFrame {
    /// Sized by its content alone: links and text buttons.
    Bare,
    /// An icon button: a square with this side.
    Square(AbsoluteLength),
    /// A button with a label or children: its height when the size gives one,
    /// its horizontal padding, and its minimum width when it is compact.
    Padded { height: Option<AbsoluteLength>, padding_x: AbsoluteLength, min_width: Option<AbsoluteLength> },
}

/// `v * num / den`, rounded toward zero.
pub open spec fn scaled_toward_zero(v: int, num: int, den: int) -> int {
    if v >= 0 {
        v * num / den
    } else {
        -((-v) * num / den)
    }
}

/// Three quarters of `v`, rounded toward zero to a whole pixel.
fn three_quarters(v: Pixels) -> (r: Pixels)
    ensures
        r.0 == scaled_toward_zero(v.0 as int, 3, 4),
{
    let w = v.0 as i128;
    if w >= 0 {
        Pixels((w * 3 / 4) as i64)
    } else {
        let q = (-w) * 3 / 4;
        Pixels((-q) as i64)
    }
}

/// A fifth of `v`, rounded toward zero to a whole pixel.
fn one_fifth(v: Pixels) -> (r: Pixels)
    ensures
        r.0 == scaled_toward_zero(v.0 as int, 1, 5),
{
    let w = v.0 as i128;
    if w >= 0 {
        Pixels((w / 5) as i64)
    } else {
        let q = (-w) / 5;
        Pixels((-q) as i64)
    }
}

/// Half of `v`, rounded toward zero to a whole pixel.
pub(crate) fn half(v: Pixels) -> (r: Pixels)
    ensures
        r.0 == scaled_toward_zero(v.0 as int, 1, 2),
{
    let w = v.0 as i128;
    if w >= 0 {
        Pixels((w / 2) as i64)
    } else {
        let q = (-w) / 2;
        Pixels((-q) as i64)
    }
}

/// The size of a button's icon: three quarters of an explicit size, else the
/// button's own size.
pub open spec fn icon_size_spec(size: ElementSize) -> ElementSize {
    match size {
        ElementSize::ElementSize(v) => ElementSize::ElementSize(Pixels(scaled_toward_zero(v.0 as int, 3, 4) as i64)),
        _ => size,
    }
}

fn icon_size(size: ElementSize) -> (r: ElementSize)
    ensures
        r == icon_size_spec(size),
{
    match size {
        ElementSize::ElementSize(v) => ElementSize::ElementSize(three_quarters(v)),
        _ => size,
    }
}

/// The radius of a button's rounded corners, given the theme's radius: none,
/// half of it, all of it, twice it, or an explicit one.
pub open spec fn corner_radius_spec(rounded: ButtonRounded, theme_radius: int) -> int {
    match rounded {
        ButtonRounded::Square => 0,
        ButtonRounded::Small => scaled_toward_zero(theme_radius, 1, 2),
        ButtonRounded::Medium => theme_radius,
        ButtonRounded::Large => theme_radius * 2,
        ButtonRounded::Size(px) => px.0 as int,
    }
}

fn corner_radius(rounded: ButtonRounded, theme_radius: Pixels) -> (r: Pixels)
    requires
        i64::MIN / 2 <= theme_radius.0 <= i64::MAX / 2,
    ensures
        r.0 == corner_radius_spec(rounded, theme_radius.0 as int),
{
    match rounded {
        ButtonRounded::Square => Pixels(0),
        ButtonRounded::Small => half(theme_radius),
        ButtonRounded::Medium => theme_radius,
        ButtonRounded::Large => Pixels(theme_radius.0 * 2),
        ButtonRounded::Size(px) => px,
    }
}

/// The box of a button of `variant` and `size`: links and text buttons are
/// bare; an icon button (no label, no children) is a square of the size; any
/// other button has the size's height and horizontal padding, tighter and with
/// a minimum width when compact, or a fifth of an explicit size as padding.
pub open spec fn button_frame_spec(variant: ButtonVariant, size: ElementSize, compact: bool, icon_only: bool) -> ButtonFrame {
    if variant is Link || variant is Text {
        ButtonFrame::Bare
    } else if icon_only {
        ButtonFrame::Square(
            match size {
                ElementSize::ElementSize(px) => AbsoluteLength::Pixels(px),
                ElementSize::XSmall => AbsoluteLength::Rems(1250),
                ElementSize::Small => AbsoluteLength::Rems(1500),
                _ => AbsoluteLength::Rems(2000),
            },
        )
    } else {
        match size {
            ElementSize::ElementSize(s) => ButtonFrame::Padded {
                height: None,
                padding_x: AbsoluteLength::Pixels(Pixels(scaled_toward_zero(s.0 as int, 1, 5) as i64)),
                min_width: None,
            },
            ElementSize::XSmall => ButtonFrame::Padded {
                height: Some(AbsoluteLength::Rems(1250)),
                padding_x: AbsoluteLength::Rems(250),
                min_width: if compact { Some(AbsoluteLength::Rems(1250)) } else { None },
            },
            ElementSize::Small => ButtonFrame::Padded {
                height: Some(AbsoluteLength::Rems(1500)),
                padding_x: AbsoluteLength::Rems(if compact { 375 } else { 500 }),
                min_width: if compact { Some(AbsoluteLength::Rems(1500)) } else { None },
            },
            ElementSize::Medium => ButtonFrame::Padded {
                height: Some(AbsoluteLength::Rems(2000)),
                padding_x: AbsoluteLength::Rems(if compact { 500 } else { 625 }),
                min_width: if compact { Some(AbsoluteLength::Rems(2000)) } else { None },
            },
            ElementSize::Large => ButtonFrame::Padded {
                height: Some(AbsoluteLength::Rems(2000)),
                padding_x: AbsoluteLength::Rems(if compact { 500 } else { 750 }),
                min_width: if compact { Some(AbsoluteLength::Rems(2000)) } else { None },
            },
        }
    }
}

fn button_frame(variant: &ButtonVariant, size: ElementSize, compact: bool, icon_only: bool) -> (r: ButtonFrame)
    ensures
        r == button_frame_spec(*variant, size, compact, icon_only),
{
    if variant.no_padding() {
        ButtonFrame::Bare
    } else if icon_only {
        ButtonFrame::Square(
            match size {
                ElementSize::ElementSize(px) => AbsoluteLength::Pixels(px),
                ElementSize::XSmall => AbsoluteLength::Rems(1250),
                ElementSize::Small => AbsoluteLength::Rems(1500),
                _ => AbsoluteLength::Rems(2000),
            },
        )
    } else {
        match size {
            ElementSize::ElementSize(s) => ButtonFrame::Padded {
                height: None,
                padding_x: AbsoluteLength::Pixels(one_fifth(s)),
                min_width: None,
            },
            ElementSize::XSmall => ButtonFrame::Padded {
                height: Some(AbsoluteLength::Rems(1250)),
                padding_x: AbsoluteLength::Rems(250),
                min_width: if compact { Some(AbsoluteLength::Rems(1250)) } else { None },
            },
            ElementSize::Small => ButtonFrame::Padded {
                height: Some(AbsoluteLength::Rems(1500)),
                padding_x: AbsoluteLength::Rems(if compact { 375 } else { 500 }),
                min_width: if compact { Some(AbsoluteLength::Rems(1500)) } else { None },
            },
            ElementSize::Medium => ButtonFrame::Padded {
                height: Some(AbsoluteLength::Rems(2000)),
                padding_x: AbsoluteLength::Rems(if compact { 500 } else { 625 }),
                min_width: if compact { Some(AbsoluteLength::Rems(2000)) } else { None },
            },
            ElementSize::Large => ButtonFrame::Padded {
                height: Some(AbsoluteLength::Rems(2000)),
                padding_x: AbsoluteLength::Rems(if compact { 500 } else { 750 }),
                min_width: if compact { Some(AbsoluteLength::Rems(2000)) } else { None },
            },
        }
    }
}

/// How a button is drawn and how it reacts to the pointer.
#[derive(Clone, Debug)]
pub struct ButtonLook {
    pub role: ButtonRole,
    /// The accessible label: the button's label.
    pub aria_label: Option<String>,
    /// The accessible toggle state.
    pub aria_toggled: Option<bool>,
    /// Whether the button takes keyboard focus, with its tab index and tab stop.
    pub focusable: bool,
    /// Whether the pointer turns into a hand over the button.
    pub pointer_cursor: bool,
    /// Whether the button casts a shadow.
    pub shadow: bool,
    pub frame: ButtonFrame,
    /// The radius of the rounded corners.
    pub corner_radius: Pixels,
    /// Which corners are rounded.
    pub rounded_corners: Corners<bool>,
    /// Whether the four edges carry a one-pixel border.
    pub bordered: bool,
    pub background: ColorRecipe,
    pub border_color: ColorRecipe,
    pub text_color: ColorRecipe,
    /// Whether the label is underlined.
    pub underline: bool,
    /// The style under the pointer, when the button reacts to it.
    pub hover: Option<ButtonVariantStyle>,
    /// The style while pressed, when the button reacts to it.
    pub active: Option<ButtonVariantStyle>,
    /// The icon, at the icon size, loading with the button.
    pub icon: Option<ButtonIcon>,
    /// The space between the icon, the label and the caret.
    pub gap: AbsoluteLength,
    /// The color of the dropdown caret, when there is one.
    pub caret: Option<ColorRecipe>,
    /// Whether the content spreads out to put the caret at the far end.
    pub justify_between: bool,
    /// Whether a press stops there, as on a disabled button; otherwise the press
    /// only keeps the focus where it was.
    pub press_stops_propagation: bool,
    /// The click callback.
    pub on_click: Option<CallbackId>,
    /// Whether a click runs the callback; otherwise the click stops there.
    pub click_runs: bool,
    /// The hover callback, kept only when the button reacts to hovering.
    pub on_hover: Option<CallbackId>,
}

impl Button {
    /// The style a button rests in: disabled over selected over normal.
    pub open spec fn resting_spec(&self, dark: bool) -> StyleView {
        if self.disabled {
            disabled_spec(self.variant, self.outline)
        } else if self.selected {
            selected_spec(self.variant, self.outline, dark)
        } else {
            normal_spec(self.variant, self.outline)
        }
    }

    /// How the button is drawn, given whether children were added to it, the
    /// theme's corner radius, whether the theme draws shadows, and whether it is
    /// dark. A loading button that is enabled rests in its normal colors at
    /// 80% opacity.
    pub fn look(self, has_children: bool, theme_radius: Pixels, theme_shadow: bool, dark: bool) -> (r: ButtonLook)
        requires
            i64::MIN / 2 <= theme_radius.0 <= i64::MAX / 2,
        ensures
            r.role == (if self.variant is Link { ButtonRole::Link } else { ButtonRole::Button }),
            r.aria_label == self.label,
            r.aria_toggled == self.toggled,
            r.focusable == !self.disabled,
            r.pointer_cursor == (!self.disabled && (self.variant is Link || self.variant is Text)),
            r.shadow == (theme_shadow && normal_spec(self.variant, self.outline).shadow && !self.disabled),
            r.frame == button_frame_spec(self.variant, self.size, self.compact, self.label is None && !has_children),
            r.corner_radius.0 == corner_radius_spec(self.rounded, theme_radius.0 as int),
            r.rounded_corners == self.border_corners,
            r.bordered == (self.variant is Default || self.outline),
            r.background@ == (if self.loading && !self.disabled {
                with_op(normal_spec(self.variant, self.outline).bg, ColorOp::Opacity(80))
            } else {
                self.resting_spec(dark).bg
            }),
            r.border_color@ == (if self.loading && !self.disabled {
                with_op(normal_spec(self.variant, self.outline).border, ColorOp::Opacity(80))
            } else {
                self.resting_spec(dark).border
            }),
            r.text_color@ == (if self.loading && !self.disabled {
                with_op(normal_spec(self.variant, self.outline).fg, ColorOp::Opacity(80))
            } else {
                self.resting_spec(dark).fg
            }),
            r.underline == (!self.disabled && !self.selected && normal_spec(self.variant, self.outline).underline),
            (r.hover is Some) == (!self.disabled && !self.selected),
            (r.hover matches Some(h) ==> h@ == hovered_spec(self.variant, self.outline, dark)),
            (r.active is Some) == (!self.disabled && !self.selected),
            (r.active matches Some(a) ==> a@ == active_spec(self.variant, self.outline, dark)),
            (match (self.icon, r.icon) {
                (None, None) => true,
                (Some(a), Some(b)) => b.icon == a.icon && b.loading_icon == self.loading_icon
                    && b.loading == self.loading && b.size == icon_size_spec(self.size),
                _ => false,
            }),
            r.gap == (match self.size {
                ElementSize::XSmall | ElementSize::Small => AbsoluteLength::Rems(250),
                _ => AbsoluteLength::Rems(500),
            }),
            (r.caret is Some) == self.dropdown_caret,
            (r.caret matches Some(c) ==> c@ == with_op(normal_spec(self.variant, self.outline).fg, ColorOp::Opacity(75))),
            r.justify_between == (self.dropdown_caret && (self.icon is Some || self.label is Some || has_children)),
            r.press_stops_propagation == self.disabled,
            r.on_click == self.on_click,
            r.click_runs == (!(self.disabled || self.loading) && self.on_click is Some),
            r.on_hover == (if !(self.disabled || self.loading) { self.on_hover } else { None }),
    {
        let variant = self.variant;
        let outline = self.outline;
        let icon_only = self.label.is_none() && !has_children;
        let has_content = self.icon.is_some() || self.label.is_some() || has_children;
        let frame = button_frame(&variant, self.size, self.compact, icon_only);
        let radius = corner_radius(self.rounded, theme_radius);
        let normal = variant.normal(outline);
        let shadow = theme_shadow && normal.shadow && !self.disabled;
        let underline = !self.disabled && !self.selected && normal.underline;
        let (background, border_color, text_color) = if self.loading && !self.disabled {
            (
                normal.bg.with_op(ColorOp::Opacity(80)),
                normal.border.with_op(ColorOp::Opacity(80)),
                normal.fg.with_op(ColorOp::Opacity(80)),
            )
        } else {
            let resting = self.current_style(dark);
            (resting.bg, resting.border, resting.fg)
        };
        let reacts = !self.disabled && !self.selected;
        let hover = if reacts { Some(variant.hovered(outline, dark)) } else { None };
        let active = if reacts { Some(variant.active(outline, dark)) } else { None };
        let caret = if self.dropdown_caret {
            Some(variant.normal(outline).fg.with_op(ColorOp::Opacity(75)))
        } else {
            None
        };
        let gap = match self.size {
            ElementSize::XSmall | ElementSize::Small => AbsoluteLength::Rems(250),
            _ => AbsoluteLength::Rems(500),
        };
        let size = icon_size(self.size);
        let loading = self.loading;
        let click_runs = self.clickable();
        let on_hover = if !(self.disabled || self.loading) { self.on_hover } else { None };
        let icon = match self.icon {
            Some(i) => Some(i.loading_icon(self.loading_icon).loading(loading).with_size(size)),
            None => None,
        };
        ButtonLook {
            role: if variant.is_link() { ButtonRole::Link } else { ButtonRole::Button },
            aria_label: self.label,
            aria_toggled: self.toggled,
            focusable: !self.disabled,
            pointer_cursor: !self.disabled && (variant.is_link() || variant.is_text()),
            shadow,
            frame,
            corner_radius: radius,
            rounded_corners: self.border_corners,
            bordered: variant.is_default() || outline,
            background,
            border_color,
            text_color,
            underline,
            hover,
            active,
            icon,
            gap,
            caret,
            justify_between: self.dropdown_caret && has_content,
            press_stops_propagation: self.disabled,
            on_click: self.on_click,
            click_runs,
            on_hover,
        }
    }
}

} // verus!
