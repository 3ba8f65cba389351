//! The checkbox: a square toggle with an optional label.
use vstd::prelude::*;
use crate::element::{CallbackId, ElementId, ElementSize};
use crate::button::{half, scaled_toward_zero};
use crate::geometry::{AbsoluteLength, Pixels};
use crate::theme::{ColorOp, ColorRecipe, Intent, RecipeView, StyleState, ThemeToken, token, with_op};

verus! {

/// A checkbox.
#[derive(Clone, Debug)]
pub struct Checkbox {
    pub id: ElementId,
    pub label: Option<String>,
    pub checked: bool,
    pub disabled: bool,
    pub size: ElementSize,
    pub tab_stop: bool,
    pub tab_index: isize,
    /// Run with the new checked state when the checkbox is clicked.
    pub on_click: Option<CallbackId>,
    pub tooltip: Option<String>,
}

/// The callback to run for a click on a toggle that is `checked`, with the
/// state after the click: the opposite one.
pub fn toggle_click(on_click: &Option<CallbackId>, checked: bool) -> (r: Option<(CallbackId, bool)>)
    ensures
        r == (match *on_click {
            Some(f) => Some((f, !checked)),
            None => None,
        }),
{
    let new_checked = !checked;
    match on_click {
        Some(f) => Some((*f, new_checked)),
        None => None,
    }
}

impl Checkbox {
    /// An unchecked, enabled, medium checkbox with the identifier `id`, reached with
    /// the tab key at index 0.
    pub fn new(id: ElementId) -> (r: Checkbox)
        ensures
            r.id == id,
            r.label is None,
            !r.checked,
            !r.disabled,
            r.size == ElementSize::Medium,
            r.tab_stop,
            r.tab_index == 0,
            r.on_click is None,
            r.tooltip is None,
    {
        Checkbox {
            id,
            label: None,
            checked: false,
            disabled: false,
            size: ElementSize::Medium,
            tab_stop: true,
            tab_index: 0,
            on_click: None,
            tooltip: None,
        }
    }

    /// Sets the tooltip.
    pub fn tooltip(self, tooltip: &str) -> (r: Checkbox)
        ensures
            r.tooltip matches Some(t) && t@ == tooltip@,
            r == (Checkbox { tooltip: r.tooltip, ..self }),
    {
        Checkbox { tooltip: Some(tooltip.to_owned()), ..self }
    }

    /// Sets the label.
    pub fn label(self, label: &str) -> (r: Checkbox)
        ensures
            r.label matches Some(l) && l@ == label@,
            r == (Checkbox { label: r.label, ..self }),
    {
        Checkbox { label: Some(label.to_owned()), ..self }
    }

    /// Sets the checked state.
    pub fn checked(self, checked: bool) -> (r: Checkbox)
        ensures
            r == (Checkbox { checked, ..self }),
    {
        Checkbox { checked, ..self }
    }

    /// Sets the callback run with the new checked state on a click.
    pub fn on_click(self, handler: CallbackId) -> (r: Checkbox)
        ensures
            r == (Checkbox { on_click: Some(handler), ..self }),
    {
        Checkbox { on_click: Some(handler), ..self }
    }

    /// Sets whether the checkbox is reached with the tab key.
    pub fn tab_stop(self, tab_stop: bool) -> (r: Checkbox)
        ensures
            r == (Checkbox { tab_stop, ..self }),
    {
        Checkbox { tab_stop, ..self }
    }

    /// Sets the tab index.
    pub fn tab_index(self, tab_index: isize) -> (r: Checkbox)
        ensures
            r == (Checkbox { tab_index, ..self }),
    {
        Checkbox { tab_index, ..self }
    }

    /// Sets whether the checkbox is disabled.
    pub fn disabled(self, disabled: bool) -> (r: Checkbox)
        ensures
            r == (Checkbox { disabled, ..self }),
    {
        Checkbox { disabled, ..self }
    }

    /// Selects the checkbox: the same as checking it.
    pub fn selected(self, selected: bool) -> (r: Checkbox)
        ensures
            r == (Checkbox { checked: selected, ..self }),
    {
        self.checked(selected)
    }

    /// Whether the checkbox is selected, that is checked.
    pub fn is_selected(&self) -> (r: bool)
        ensures
            r == self.checked,
    {
        self.checked
    }

    /// Sets the size.
    pub fn with_size(self, size: ElementSize) -> (r: Checkbox)
        ensures
            r == (Checkbox { size, ..self }),
    {
        Checkbox { size, ..self }
    }

    /// The callback a click runs, with the new checked state; a disabled checkbox
    /// does not react to clicks.
    pub fn handle_click(&self) -> (r: Option<(CallbackId, bool)>)
        ensures
            self.disabled ==> (r is None),
            !self.disabled ==> r == (match self.on_click {
                Some(f) => Some((f, !self.checked)),
                None => None,
            }),
    {
        if self.disabled {
            None
        } else {
            toggle_click(&self.on_click, self.checked)
        }
    }
}

/// How a checkbox is drawn.
#[derive(Clone, Debug)]
pub struct CheckboxLook {
    /// The border of the box.
    pub border: ColorRecipe,
    /// The fill of the box.
    pub fill: ColorRecipe,
    /// The color of the label.
    pub text: ColorRecipe,
    /// The color of the check mark.
    pub check: ColorRecipe,
    /// The side of the box.
    pub box_size: AbsoluteLength,
    /// The side of the check mark.
    pub check_size: AbsoluteLength,
    /// The text size of the label, in thousandths of a rem, when the size sets one.
    pub text_size: Option<u32>,
    /// Whether the box casts a shadow.
    pub shadow: bool,
    /// Whether the check mark is drawn.
    pub show_check: bool,
    /// Whether the checkbox takes focus and clicks.
    pub interactive: bool,
    /// The tab stop and tab index of the focus handle it tracks; `None` for a
    /// disabled checkbox, which takes no focus and is no tab stop.
    pub focus: Option<(bool, isize)>,
    /// The offset of the focus ring drawn around a focused checkbox, if drawn.
    pub focus_ring: Option<Pixels>,
    /// The corner radius of the box: the theme's radius, at most 4 pixels.
    pub box_radius: Pixels,
    /// The corner radius of the row holding box and label: half the theme's radius.
    pub row_radius: Pixels,
}

/// The color of the box's border: the primary color when checked, the input
/// border otherwise, at half opacity when disabled.
pub open spec fn checkbox_border_spec(checked: bool, disabled: bool) -> RecipeView {
    let base = if checked {
        token(ThemeToken::Accent(Intent::Primary))
    } else {
        token(ThemeToken::Input)
    };
    if disabled {
        with_op(base, ColorOp::Opacity(50))
    } else {
        base
    }
}

/// The fill of the box: the input background when unchecked, the border color
/// when checked but disabled, the primary fill when checked.
pub open spec fn checkbox_fill_spec(checked: bool, disabled: bool) -> RecipeView {
    if !checked {
        token(ThemeToken::InputBackground)
    } else if disabled {
        checkbox_border_spec(checked, disabled)
    } else {
        token(ThemeToken::StateFill(Intent::Primary, StyleState::Normal))
    }
}

fn rems(thousandths: u32) -> (r: AbsoluteLength)
    ensures
        r == AbsoluteLength::Rems(thousandths),
{
    AbsoluteLength::Rems(thousandths)
}

impl Checkbox {
    /// How the checkbox is drawn, with `theme_shadow` telling whether the theme
    /// draws shadows, `theme_radius` the theme's corner radius and `focused`
    /// whether its focus handle holds the focus. Sizes are in thousandths of a rem: the box is 3/4, 7/8,
    /// 1 and 9/8 rem for extra small, small, medium and large (1 rem for an
    /// explicit size), the check mark 1/2, 5/8, 3/4 and 7/8 rem (3/4 rem for
    /// an explicit size), and the label text extra small, small, base and large.
    pub fn look(&self, theme_shadow: bool, theme_radius: Pixels, focused: bool) -> (r: CheckboxLook)
        ensures
            r.focus == (if self.disabled { None } else { Some((self.tab_stop, self.tab_index)) }),
            r.focus_ring == (if focused { Some(Pixels(2)) } else { None }),
            r.box_radius.0 == (if theme_radius.0 < 4 { theme_radius.0 as int } else { 4 }),
            r.row_radius.0 == scaled_toward_zero(theme_radius.0 as int, 1, 2),
            r.border@ == checkbox_border_spec(self.checked, self.disabled),
            r.fill@ == checkbox_fill_spec(self.checked, self.disabled),
            r.text@ == (if self.disabled {
                token(ThemeToken::MutedForeground)
            } else {
                token(ThemeToken::Foreground)
            }),
            r.check@ == (if self.disabled {
                with_op(token(ThemeToken::AccentForeground(Intent::Primary)), ColorOp::Opacity(50))
            } else {
                token(ThemeToken::AccentForeground(Intent::Primary))
            }),
            r.box_size == (match self.size {
                ElementSize::XSmall => AbsoluteLength::Rems(750),
                ElementSize::Small => AbsoluteLength::Rems(875),
                ElementSize::Large => AbsoluteLength::Rems(1125),
                _ => AbsoluteLength::Rems(1000),
            }),
            r.check_size == (match self.size {
                ElementSize::XSmall => AbsoluteLength::Rems(500),
                ElementSize::Small => AbsoluteLength::Rems(625),
                ElementSize::Large => AbsoluteLength::Rems(875),
                _ => AbsoluteLength::Rems(750),
            }),
            r.text_size == (match self.size {
                ElementSize::XSmall => Some(750u32),
                ElementSize::Small => Some(875u32),
                ElementSize::Medium => Some(1000u32),
                ElementSize::Large => Some(1125u32),
                ElementSize::ElementSize(_) => None,
            }),
            r.shadow == (theme_shadow && !self.disabled),
            r.show_check == self.checked,
            r.interactive == !self.disabled,
    {
        let border_base = if self.checked {
            ColorRecipe::token(ThemeToken::Accent(Intent::Primary))
        } else {
            ColorRecipe::token(ThemeToken::Input)
        };
        let border = if self.disabled { border_base.with_op(ColorOp::Opacity(50)) } else { border_base };
        let fill = if !self.checked {
            ColorRecipe::token(ThemeToken::InputBackground)
        } else if self.disabled {
            ColorRecipe::token(ThemeToken::Accent(Intent::Primary)).with_op(ColorOp::Opacity(50))
        } else {
            ColorRecipe::token(ThemeToken::StateFill(Intent::Primary, StyleState::Normal))
        };
        let text = if self.disabled {
            ColorRecipe::token(ThemeToken::MutedForeground)
        } else {
            ColorRecipe::token(ThemeToken::Foreground)
        };
        let check_base = ColorRecipe::token(ThemeToken::AccentForeground(Intent::Primary));
        let check = if self.disabled { check_base.with_op(ColorOp::Opacity(50)) } else { check_base };
        let (box_size, check_size, text_size) = match self.size {
            ElementSize::XSmall => (rems(750), rems(500), Some(750u32)),
            ElementSize::Small => (rems(875), rems(625), Some(875u32)),
            ElementSize::Medium => (rems(1000), rems(750), Some(1000u32)),
            ElementSize::Large => (rems(1125), rems(875), Some(1125u32)),
            ElementSize::ElementSize(_) => (rems(1000), rems(750), None),
        };
        CheckboxLook {
            border,
            fill,
            text,
            check,
            box_size,
            check_size,
            text_size,
            shadow: theme_shadow && !self.disabled,
            show_check: self.checked,
            interactive: !self.disabled,
            focus: if self.disabled { None } else { Some((self.tab_stop, self.tab_index)) },
            focus_ring: if focused { Some(Pixels(2)) } else { None },
            box_radius: if theme_radius.0 < 4 { theme_radius } else { Pixels(4) },
            row_radius: half(theme_radius),
        }
    }
}

} // verus!
