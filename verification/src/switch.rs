//! The switch: an on/off toggle with an optional label on one side.
use vstd::prelude::*;
use crate::checkbox::toggle_click;
use crate::element::{CallbackId, ElementId, ElementSize, Hsla, Side};
use crate::geometry::Pixels;
use crate::interactivity::MouseButton;
use crate::theme::{plain, token, with_op, ColorOp, ColorRecipe, ColorSource, Intent, RecipeView, ThemeToken};

verus! {

/// A switch.
#[derive(Clone, Debug)]
pub struct Switch {
    pub id: ElementId,
    pub checked: bool,
    pub disabled: bool,
    pub label: Option<String>,
    pub label_side: Side,
    /// Run with the new checked state when the switch is clicked.
    pub on_click: Option<CallbackId>,
    pub size: ElementSize,
    /// The background when checked; the theme's primary color when `None`.
    pub color: Option<Hsla>,
    pub tooltip: Option<String>,
}

impl Switch {
    /// An unchecked, enabled, medium switch with the label side on the right.
    pub fn new(id: ElementId) -> (r: Switch)
        ensures
            r.id == id,
            !r.checked,
            !r.disabled,
            r.label is None,
            r.label_side == Side::Right,
            r.on_click is None,
            r.size == ElementSize::Medium,
            r.color is None,
            r.tooltip is None,
    {
        Switch {
            id,
            checked: false,
            disabled: false,
            label: None,
            label_side: Side::Right,
            on_click: None,
            size: ElementSize::Medium,
            color: None,
            tooltip: None,
        }
    }

    /// Sets the checked state.
    pub fn checked(self, checked: bool) -> (r: Switch)
        ensures
            r == (Switch { checked, ..self }),
    {
        Switch { checked, ..self }
    }

    /// Sets the label.
    pub fn label(self, label: &str) -> (r: Switch)
        ensures
            r.label matches Some(l) && l@ == label@,
            r == (Switch { label: r.label, ..self }),
    {
        Switch { label: Some(label.to_owned()), ..self }
    }

    /// Sets the callback run with the new checked state on a click.
    pub fn on_click(self, handler: CallbackId) -> (r: Switch)
        ensures
            r == (Switch { on_click: Some(handler), ..self }),
    {
        Switch { on_click: Some(handler), ..self }
    }

    /// Sets the background when checked.
    pub fn color(self, color: Hsla) -> (r: Switch)
        ensures
            r == (Switch { color: Some(color), ..self }),
    {
        Switch { color: Some(color), ..self }
    }

    /// Sets the tooltip.
    pub fn tooltip(self, tooltip: &str) -> (r: Switch)
        ensures
            r.tooltip matches Some(t) && t@ == tooltip@,
            r == (Switch { tooltip: r.tooltip, ..self }),
    {
        Switch { tooltip: Some(tooltip.to_owned()), ..self }
    }

    /// Sets the size.
    pub fn with_size(self, size: ElementSize) -> (r: Switch)
        ensures
            r == (Switch { size, ..self }),
    {
        Switch { size, ..self }
    }

    /// Sets whether the switch is disabled.
    pub fn disabled(self, disabled: bool) -> (r: Switch)
        ensures
            r == (Switch { disabled, ..self }),
    {
        Switch { disabled, ..self }
    }

    /// The callback a click runs, with the new checked state; a disabled switch
    /// does not react to clicks.
    pub fn handle_click(&self) -> (r: Option<(CallbackId, bool)>)
        ensures
            self.disabled ==> (r is None),
            !self.disabled ==> r == (match self.on_click {
                Some(f) => Some((f, !self.checked)),
                None => None,
            }),
    {
        if self.disabled {
            None
        } else {
            toggle_click(&self.on_click, self.checked)
        }
    }
}

/// How a switch is drawn.
#[derive(Clone, Debug)]
pub struct SwitchLook {
    /// The background of the track.
    pub track: ColorRecipe,
    /// The color of the thumb.
    pub thumb: ColorRecipe,
    pub track_width: Pixels,
    pub track_height: Pixels,
    /// The side of the square thumb.
    pub thumb_size: Pixels,
    /// The transparent border between the track's edge and the thumb.
    pub inset: Pixels,
    /// Where the thumb rests, from the left of the track's inside.
    pub thumb_x: Pixels,
    /// The corner radius of the track and the thumb.
    pub radius: Pixels,
    /// The accessible toggle state: the checked state.
    pub aria_toggled: bool,
    /// The accessible label: the switch's label.
    pub aria_label: Option<String>,
    /// Whether the label is drawn before the track (label on the left).
    pub label_first: bool,
    /// Whether the label uses the small text size.
    pub small_label: bool,
}

/// The track's background: when checked, the custom color or else the theme's
/// primary color, at half opacity when disabled; the switch color when unchecked.
pub open spec fn switch_track_spec(checked: bool, disabled: bool, color: Option<Hsla>) -> RecipeView {
    if checked {
        let base = match color {
            Some(c) => plain(ColorSource::Custom(c)),
            None => token(ThemeToken::Accent(Intent::Primary)),
        };
        if disabled { with_op(base, ColorOp::Opacity(50)) } else { base }
    } else {
        token(ThemeToken::Switch)
    }
}

/// The thumb's color: the switch thumb color, at 35% opacity when disabled.
pub open spec fn switch_thumb_spec(disabled: bool) -> RecipeView {
    if disabled {
        with_op(token(ThemeToken::SwitchThumb), ColorOp::Opacity(35))
    } else {
        token(ThemeToken::SwitchThumb)
    }
}

/// Whether a switch of this size is a small one.
pub open spec fn small_switch(size: ElementSize) -> bool {
    size == ElementSize::XSmall || size == ElementSize::Small
}

/// What a mouse press on a switch does.
#[derive(Clone, Copy, Debug, PartialEq, Eq)]
pub struct SwitchPress {
    /// The callback run, with the new checked state.
    pub callback: Option<(CallbackId, bool)>,
    /// Whether the press stops there.
    pub stop_propagation: bool,
}

impl Switch {
    /// How the switch is drawn (at rest, once any toggle animation has ended),
    /// given the theme's corner radius.
    pub fn look(&self, theme_radius: Pixels) -> (r: SwitchLook)
        ensures
            r.track@ == switch_track_spec(self.checked, self.disabled, self.color),
            r.thumb@ == switch_thumb_spec(self.disabled),
            r.track_width == (if small_switch(self.size) { Pixels(28) } else { Pixels(36) }),
            r.track_height == (if small_switch(self.size) { Pixels(16) } else { Pixels(20) }),
            r.thumb_size == (if small_switch(self.size) { Pixels(12) } else { Pixels(16) }),
            r.inset == Pixels(2),
            r.thumb_x.0 == (if self.checked { r.track_width.0 - r.thumb_size.0 - 4 } else { 0 }),
            r.radius == (if theme_radius.0 >= 4 { r.track_height } else { theme_radius }),
            r.aria_toggled == self.checked,
            r.aria_label == self.label,
            r.label_first == (self.label_side == Side::Left),
            r.small_label == small_switch(self.size),
    {
        let track = if self.checked {
            let base = match self.color {
                Some(c) => ColorRecipe::plain(ColorSource::Custom(c)),
                None => ColorRecipe::token(ThemeToken::Accent(Intent::Primary)),
            };
            if self.disabled { base.with_op(ColorOp::Opacity(50)) } else { base }
        } else {
            ColorRecipe::token(ThemeToken::Switch)
        };
        let thumb = if self.disabled {
            ColorRecipe::token(ThemeToken::SwitchThumb).with_op(ColorOp::Opacity(35))
        } else {
            ColorRecipe::token(ThemeToken::SwitchThumb)
        };
        let small = match self.size {
            ElementSize::XSmall | ElementSize::Small => true,
            _ => false,
        };
        let (w, h, t): (i64, i64, i64) = if small { (28, 16, 12) } else { (36, 20, 16) };
        let label = match &self.label {
            Some(l) => Some(l.clone()),
            None => None,
        };
        SwitchLook {
            track,
            thumb,
            track_width: Pixels(w),
            track_height: Pixels(h),
            thumb_size: Pixels(t),
            inset: Pixels(2),
            thumb_x: Pixels(if self.checked { w - t - 4 } else { 0 }),
            radius: if theme_radius.0 >= 4 { Pixels(h) } else { theme_radius },
            aria_toggled: self.checked,
            aria_label: label,
            label_first: self.label_side.is_left(),
            small_label: small,
        }
    }

    /// A mouse press on the switch: a left press on an enabled switch with a
    /// callback stops there and runs the callback with the new checked state
    /// (a press suffices; no release is waited for). Anything else does nothing.
    pub fn handle_mouse_down(&self, button: MouseButton) -> (r: SwitchPress)
        ensures
            r == (if button == MouseButton::Left && !self.disabled && self.on_click is Some {
                SwitchPress { callback: Some((self.on_click->0, !self.checked)), stop_propagation: true }
            } else {
                SwitchPress { callback: None, stop_propagation: false }
            }),
    {
        let left = match button {
            MouseButton::Left => true,
            _ => false,
        };
        match self.on_click {
            Some(f) => {
                if left && !self.disabled {
                    SwitchPress { callback: Some((f, !self.checked)), stop_propagation: true }
                } else {
                    SwitchPress { callback: None, stop_propagation: false }
                }
            },
            None => SwitchPress { callback: None, stop_propagation: false },
        }
    }
}

} // verus!
