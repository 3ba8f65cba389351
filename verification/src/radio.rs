//! Radio buttons and groups of them in which one is selected.
use vstd::prelude::*;
use crate::checkbox::toggle_click;
use crate::button::{half, scaled_toward_zero};
use crate::element::{CallbackId, ElementId, ElementSize};
use crate::geometry::{AbsoluteLength, Axis, Pixels};
use crate::theme::{token, with_op, ColorOp, ColorRecipe, Intent, RecipeView, StyleState, ThemeToken};

verus! {

/// A radio button.
#[derive(Clone, Debug)]
pub struct Radio {
    pub id: ElementId,
    pub label: Option<String>,
    pub checked: bool,
    pub disabled: bool,
    pub tab_stop: bool,
    pub tab_index: isize,
    pub size: ElementSize,
    /// Run with the new checked state when the radio is clicked.
    pub on_click: Option<CallbackId>,
    pub tooltip: Option<String>,
}

impl Radio {
    /// An unchecked, enabled, medium radio with the identifier `id`.
    pub fn new(id: ElementId) -> (r: Radio)
        ensures
            r.id == id,
            r.label is None,
            !r.checked,
            !r.disabled,
            r.tab_stop,
            r.tab_index == 0,
            r.size == ElementSize::Medium,
            r.on_click is None,
            r.tooltip is None,
    {
        Radio {
            id,
            label: None,
            checked: false,
            disabled: false,
            tab_stop: true,
            tab_index: 0,
            size: ElementSize::Medium,
            on_click: None,
            tooltip: None,
        }
    }

    /// A radio whose identifier and label are both `label`.
    pub fn from_label(label: &str) -> (r: Radio)
        ensures
            r.id matches ElementId::Name(n) && n@ == label@,
            r.label matches Some(l) && l@ == label@,
            !r.checked,
            !r.disabled,
            r.tab_stop,
            r.tab_index == 0,
            r.size == ElementSize::Medium,
            r.on_click is None,
            r.tooltip is None,
    {
        Radio::new(ElementId::name(label)).label(label)
    }

    /// Sets the tooltip.
    pub fn tooltip(self, tooltip: &str) -> (r: Radio)
        ensures
            r.tooltip matches Some(t) && t@ == tooltip@,
            r == (Radio { tooltip: r.tooltip, ..self }),
    {
        Radio { tooltip: Some(tooltip.to_owned()), ..self }
    }

    /// Sets the label.
    pub fn label(self, label: &str) -> (r: Radio)
        ensures
            r.label matches Some(l) && l@ == label@,
            r == (Radio { label: r.label, ..self }),
    {
        Radio { label: Some(label.to_owned()), ..self }
    }

    /// Sets the checked state.
    pub fn checked(self, checked: bool) -> (r: Radio)
        ensures
            r == (Radio { checked, ..self }),
    {
        Radio { checked, ..self }
    }

    /// Sets whether the radio is disabled.
    pub fn disabled(self, disabled: bool) -> (r: Radio)
        ensures
            r == (Radio { disabled, ..self }),
    {
        Radio { disabled, ..self }
    }

    /// Sets the tab index.
    pub fn tab_index(self, tab_index: isize) -> (r: Radio)
        ensures
            r == (Radio { tab_index, ..self }),
    {
        Radio { tab_index, ..self }
    }

    /// Sets whether the radio is reached with the tab key.
    pub fn tab_stop(self, tab_stop: bool) -> (r: Radio)
        ensures
            r == (Radio { tab_stop, ..self }),
    {
        Radio { tab_stop, ..self }
    }

    /// Sets the callback run with the new checked state on a click.
    pub fn on_click(self, handler: CallbackId) -> (r: Radio)
        ensures
            r == (Radio { on_click: Some(handler), ..self }),
    {
        Radio { on_click: Some(handler), ..self }
    }

    /// Selects the radio: the same as checking it.
    pub fn selected(self, selected: bool) -> (r: Radio)
        ensures
            r == (Radio { checked: selected, ..self }),
    {
        self.checked(selected)
    }

    /// Whether the radio is selected, that is checked.
    pub fn is_selected(&self) -> (r: bool)
        ensures
            r == self.checked,
    {
        self.checked
    }

    /// Sets the size.
    pub fn with_size(self, size: ElementSize) -> (r: Radio)
        ensures
            r == (Radio { size, ..self }),
    {
        Radio { size, ..self }
    }

    /// The callback a click runs, with the new checked state; a disabled radio
    /// does not react to clicks.
    pub fn handle_click(&self) -> (r: Option<(CallbackId, bool)>)
        ensures
            self.disabled ==> (r is None),
            !self.disabled ==> r == (match self.on_click {
                Some(f) => Some((f, !self.checked)),
                None => None,
            }),
    {
        if self.disabled {
            None
        } else {
            toggle_click(&self.on_click, self.checked)
        }
    }
}

/// A group of radio buttons of which at most one is selected.
#[derive(Clone, Debug)]
pub struct RadioGroup {
    pub id: ElementId,
    pub radios: Vec<Radio>,
    pub layout: Axis,
    pub selected_index: Option<usize>,
    pub disabled: bool,
    /// Run with the index of the radio that is clicked.
    pub on_click: Option<CallbackId>,
}

/// A radio as its group shows it at `ix`: identified by its index, disabled with
/// the group, checked when it is the selected one; when the group has a click
/// callback, that callback replaces the radio's own (see `RadioGroup::handle_click`).
pub open spec fn arranged_radio(r: Radio, ix: int, disabled: bool, selected: Option<usize>, group_click: bool) -> Radio {
    Radio {
        id: ElementId::Integer(ix as u64),
        disabled,
        checked: selected == Some(ix as usize),
        on_click: if group_click { None } else { r.on_click },
        ..r
    }
}

/// What a click on a radio of a group runs.
#[derive(Clone, Copy, Debug, PartialEq, Eq, Structural)]
pub enum RadioGroupClick {
    /// The group's callback, with the index of the clicked radio.
    Group(CallbackId, usize),
    /// The radio's own callback, with its new checked state.
    Radio(CallbackId, bool),
}

impl RadioGroup {
    /// An empty, vertical, enabled group with nothing selected.
    pub fn new(id: ElementId) -> (r: RadioGroup)
        ensures
            r.id == id,
            r.radios@.len() == 0,
            r.layout == Axis::Vertical,
            r.selected_index is None,
            !r.disabled,
            r.on_click is None,
    {
        RadioGroup {
            id,
            radios: Vec::new(),
            layout: Axis::Vertical,
            selected_index: None,
            disabled: false,
            on_click: None,
        }
    }

    /// An empty vertical group.
    pub fn vertical(id: ElementId) -> (r: RadioGroup)
        ensures
            r.id == id,
            r.radios@.len() == 0,
            r.layout == Axis::Vertical,
            r.selected_index is None,
            !r.disabled,
            r.on_click is None,
    {
        Self::new(id)
    }

    /// An empty horizontal group.
    pub fn horizontal(id: ElementId) -> (r: RadioGroup)
        ensures
            r.id == id,
            r.radios@.len() == 0,
            r.layout == Axis::Horizontal,
            r.selected_index is None,
            !r.disabled,
            r.on_click is None,
    {
        Self::new(id).layout(Axis::Horizontal)
    }

    /// Sets the axis the radios are laid out along.
    pub fn layout(self, layout: Axis) -> (r: RadioGroup)
        ensures
            r == (RadioGroup { layout, ..self }),
    {
        RadioGroup { layout, ..self }
    }

    /// Sets the callback run with the index of a clicked radio.
    pub fn on_click(self, handler: CallbackId) -> (r: RadioGroup)
        ensures
            r == (RadioGroup { on_click: Some(handler), ..self }),
    {
        RadioGroup { on_click: Some(handler), ..self }
    }

    /// Sets the selected index.
    pub fn selected_index(self, index: Option<usize>) -> (r: RadioGroup)
        ensures
            r == (RadioGroup { selected_index: index, ..self }),
    {
        RadioGroup { selected_index: index, ..self }
    }

    /// Sets whether the whole group is disabled.
    pub fn disabled(self, disabled: bool) -> (r: RadioGroup)
        ensures
            r == (RadioGroup { disabled, ..self }),
    {
        RadioGroup { disabled, ..self }
    }

    /// Adds a radio at the end.
    pub fn child(self, child: Radio) -> (r: RadioGroup)
        ensures
            r.radios@ == self.radios@.push(child),
            r == (RadioGroup { radios: r.radios, ..self }),
    {
        let mut radios = self.radios;
        radios.push(child);
        RadioGroup { radios, ..self }
    }

    /// Adds radios at the end, in order.
    pub fn children(self, children: Vec<Radio>) -> (r: RadioGroup)
        ensures
            r.radios@ == self.radios@ + children@,
            r == (RadioGroup { radios: r.radios, ..self }),
    {
        let mut radios = self.radios;
        let mut more = children;
        radios.append(&mut more);
        RadioGroup { radios, ..self }
    }

    /// The radios as the group shows them: each identified by its index,
    /// disabled with the group, and checked exactly when it is the selected one.
    pub fn arranged(self) -> (r: Vec<Radio>)
        ensures
            r@.len() == self.radios@.len(),
            forall|i: int|
                0 <= i < r@.len() ==> #[trigger] r@[i] == arranged_radio(
                    self.radios@[i],
                    i,
                    self.disabled,
                    self.selected_index,
                    self.on_click is Some,
                ),
    {
        let ghost original = self.radios@;
        let mut out: Vec<Radio> = Vec::new();
        let mut rest = self.radios;
        let n = rest.len();
        let mut ix: usize = 0;
        while ix < n
            invariant
                n == original.len(),
                0 <= ix <= n,
                rest@ == original.skip(ix as int),
                out@.len() == ix,
                forall|k: int|
                    0 <= k < ix ==> #[trigger] out@[k] == arranged_radio(
                        original[k],
                        k,
                        self.disabled,
                        self.selected_index,
                        self.on_click is Some,
                    ),
            decreases n - ix,
        {
            let radio = rest.remove(0);
            assert(radio == original[ix as int]);
            assert(rest@ =~= original.skip(ix + 1));
            let checked = match self.selected_index {
                Some(s) => s == ix,
                None => false,
            };
            let on_click = if self.on_click.is_some() { None } else { radio.on_click };
            let arranged = Radio {
                id: ElementId::Integer(ix as u64),
                disabled: self.disabled,
                checked,
                on_click,
                ..radio
            };
            out.push(arranged);
            ix = ix + 1;
        }
        out
    }

    /// What a click on the radio at `ix` runs: nothing in a disabled group;
    /// the group's callback with `ix` when the group has one (it replaces the
    /// radio's own); otherwise the radio's own callback, with the checked state
    /// it would take (that of not being the selected one), or nothing when there
    /// is no radio at `ix` or it has no callback. The group does not change its
    /// selected index itself.
    pub fn handle_click(&self, ix: usize) -> (r: Option<RadioGroupClick>)
        ensures
            self.disabled ==> (r is None),
            !self.disabled ==> r == (match self.on_click {
                Some(f) => Some(RadioGroupClick::Group(f, ix)),
                None => if ix < self.radios@.len() {
                    match self.radios@[ix as int].on_click {
                        Some(g) => Some(RadioGroupClick::Radio(g, !(self.selected_index == Some(ix)))),
                        None => None,
                    }
                } else {
                    None
                },
            }),
    {
        if self.disabled {
            return None;
        }
        match self.on_click {
            Some(f) => Some(RadioGroupClick::Group(f, ix)),
            None => {
                if ix < self.radios.len() {
                    match self.radios[ix].on_click {
                        Some(g) => {
                            let checked = match self.selected_index {
                                Some(s) => s == ix,
                                None => false,
                            };
                            Some(RadioGroupClick::Radio(g, !checked))
                        },
                        None => None,
                    }
                } else {
                    None
                }
            },
        }
    }
}

/// In an arranged group at most one radio is checked, and it is the selected one.
pub proof fn lemma_arranged_at_most_one_checked(
    radios: Seq<Radio>,
    arranged: Seq<Radio>,
    disabled: bool,
    selected: Option<usize>,
    group_click: bool,
    i: int,
    j: int,
)
    requires
        arranged.len() == radios.len(),
        forall|k: int|
            0 <= k < arranged.len() ==> #[trigger] arranged[k] == arranged_radio(
                radios[k],
                k,
                disabled,
                selected,
                group_click,
            ),
        0 <= i < arranged.len(),
        0 <= j < arranged.len(),
        arranged[i].checked,
        arranged[j].checked,
        arranged.len() <= usize::MAX,
    ensures
        i == j,
        selected == Some(i as usize),
{
    assert(arranged[i] == arranged_radio(radios[i], i, disabled, selected, group_click));
    assert(arranged[j] == arranged_radio(radios[j], j, disabled, selected, group_click));
}

/// How a radio button is drawn and how it takes focus.
#[derive(Clone, Debug)]
pub struct RadioLook {
    /// The tab stop and tab index of the focus handle it tracks; `None` for a
    /// disabled radio, which takes no focus and is no tab stop.
    pub focus: Option<(bool, isize)>,
    /// The offset of the focus ring drawn around a focused radio, if drawn.
    pub focus_ring: Option<Pixels>,
    /// Whether a click is listened to: only on an enabled radio.
    pub clickable: bool,
    /// The border of the circle.
    pub border: ColorRecipe,
    /// The fill of the circle.
    pub fill: ColorRecipe,
    /// The color of the check mark.
    pub check: ColorRecipe,
    /// Whether the check mark is drawn.
    pub show_check: bool,
    /// The color of the label.
    pub label_color: ColorRecipe,
    /// The side of the circle.
    pub circle_size: AbsoluteLength,
    /// The side of the check mark.
    pub check_size: AbsoluteLength,
    /// The text size, in thousandths of a rem, when the size sets one.
    pub text_size: Option<u32>,
    /// Whether the circle casts a shadow.
    pub shadow: bool,
    /// The corner radius of the row: half the theme's radius.
    pub row_radius: Pixels,
}

/// The border of a radio's circle: the primary color when checked, the input
/// border otherwise, at half opacity when disabled.
pub open spec fn radio_border_spec(checked: bool, disabled: bool) -> RecipeView {
    let base = if checked { token(ThemeToken::Accent(Intent::Primary)) } else { token(ThemeToken::Input) };
    if disabled { with_op(base, ColorOp::Opacity(50)) } else { base }
}

/// The fill of a radio's circle: the input background when unchecked; when
/// checked, the primary fill, or the primary color at half opacity when disabled.
pub open spec fn radio_fill_spec(checked: bool, disabled: bool) -> RecipeView {
    if !checked {
        token(ThemeToken::InputBackground)
    } else if disabled {
        with_op(token(ThemeToken::Accent(Intent::Primary)), ColorOp::Opacity(50))
    } else {
        token(ThemeToken::StateFill(Intent::Primary, StyleState::Normal))
    }
}

impl Radio {
    /// How the radio is drawn, given whether the theme draws shadows, its
    /// corner radius, and whether the radio's focus handle holds the focus. An enabled radio tracks a focus handle with its tab stop
    /// and tab index and listens to clicks; a disabled one does neither.
    pub fn look(&self, theme_shadow: bool, theme_radius: Pixels, focused: bool) -> (r: RadioLook)
        ensures
            r.focus_ring == (if focused { Some(Pixels(2)) } else { None }),
            r.focus == (if self.disabled { None } else { Some((self.tab_stop, self.tab_index)) }),
            r.clickable == !self.disabled,
            r.border@ == radio_border_spec(self.checked, self.disabled),
            r.fill@ == radio_fill_spec(self.checked, self.disabled),
            r.check@ == (if self.disabled {
                with_op(token(ThemeToken::AccentForeground(Intent::Primary)), ColorOp::Opacity(50))
            } else {
                token(ThemeToken::AccentForeground(Intent::Primary))
            }),
            r.show_check == self.checked,
            r.label_color@ == (if self.disabled {
                token(ThemeToken::MutedForeground)
            } else {
                token(ThemeToken::Foreground)
            }),
            r.circle_size == (match self.size {
                ElementSize::XSmall => AbsoluteLength::Rems(750),
                ElementSize::Small => AbsoluteLength::Rems(875),
                ElementSize::Large => AbsoluteLength::Rems(1125),
                _ => AbsoluteLength::Rems(1000),
            }),
            r.check_size == (match self.size {
                ElementSize::XSmall => AbsoluteLength::Rems(500),
                ElementSize::Small => AbsoluteLength::Rems(625),
                ElementSize::Large => AbsoluteLength::Rems(875),
                _ => AbsoluteLength::Rems(750),
            }),
            r.text_size == (match self.size {
                ElementSize::XSmall => Some(750u32),
                ElementSize::Small => Some(875u32),
                ElementSize::Medium => Some(1000u32),
                ElementSize::Large => Some(1125u32),
                ElementSize::ElementSize(_) => None,
            }),
            r.shadow == (theme_shadow && !self.disabled),
            r.row_radius.0 == scaled_toward_zero(theme_radius.0 as int, 1, 2),
    {
        let border_base = if self.checked {
            ColorRecipe::token(ThemeToken::Accent(Intent::Primary))
        } else {
            ColorRecipe::token(ThemeToken::Input)
        };
        let border = if self.disabled { border_base.with_op(ColorOp::Opacity(50)) } else { border_base };
        let fill = if !self.checked {
            ColorRecipe::token(ThemeToken::InputBackground)
        } else if self.disabled {
            ColorRecipe::token(ThemeToken::Accent(Intent::Primary)).with_op(ColorOp::Opacity(50))
        } else {
            ColorRecipe::token(ThemeToken::StateFill(Intent::Primary, StyleState::Normal))
        };
        let check_base = ColorRecipe::token(ThemeToken::AccentForeground(Intent::Primary));
        let check = if self.disabled { check_base.with_op(ColorOp::Opacity(50)) } else { check_base };
        let label_color = if self.disabled {
            ColorRecipe::token(ThemeToken::MutedForeground)
        } else {
            ColorRecipe::token(ThemeToken::Foreground)
        };
        let (circle_size, check_size, text_size) = match self.size {
            ElementSize::XSmall => (AbsoluteLength::Rems(750), AbsoluteLength::Rems(500), Some(750u32)),
            ElementSize::Small => (AbsoluteLength::Rems(875), AbsoluteLength::Rems(625), Some(875u32)),
            ElementSize::Medium => (AbsoluteLength::Rems(1000), AbsoluteLength::Rems(750), Some(1000u32)),
            ElementSize::Large => (AbsoluteLength::Rems(1125), AbsoluteLength::Rems(875), Some(1125u32)),
            ElementSize::ElementSize(_) => (AbsoluteLength::Rems(1000), AbsoluteLength::Rems(750), None),
        };
        RadioLook {
            focus: if self.disabled { None } else { Some((self.tab_stop, self.tab_index)) },
            focus_ring: if focused { Some(Pixels(2)) } else { None },
            clickable: !self.disabled,
            border,
            fill,
            check,
            show_check: self.checked,
            label_color,
            circle_size,
            check_size,
            text_size,
            shadow: theme_shadow && !self.disabled,
            row_radius: half(theme_radius),
        }
    }
}

impl<'a> From<&'a str> for Radio {
    /// A radio whose identifier and label are both `label`.
    fn from(label: &'a str) -> (r: Radio)
        ensures
            r.id matches ElementId::Name(n) && n@ == label@,
            r.label matches Some(l) && l@ == label@,
            !r.checked,
            !r.disabled,
            r.tab_stop,
            r.tab_index == 0,
            r.size == ElementSize::Medium,
            r.on_click is None,
            r.tooltip is None,
    {
        Radio::from_label(label)
    }
}

impl<'a> vstd::std_specs::convert::FromSpecImpl<&'a str> for Radio {
    open spec fn obeys_from_spec() -> bool {
        false
    }

    open spec fn from_spec(v: &'a str) -> Radio {
        choose|r: Radio| #![trigger r.label] r.label matches Some(l) && l@ == v@
    }
}

} // verus!
