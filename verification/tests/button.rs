use rgpui::button::{Button, ButtonCustomVariant, ButtonFrame, ButtonRole, ButtonRounded, ButtonVariant, ButtonVariants};
use rgpui::button_icon::{ButtonIcon, ButtonIconVariant};
use rgpui::geometry::{px, AbsoluteLength};
use rgpui::icon::Icon;
use rgpui::element::{CallbackId, ElementId, ElementSize, Hsla};
use rgpui::theme::{ColorOp, ColorSource, Intent, StyleState, ThemeToken};

#[test]
fn test_button_variant_methods() {
    assert!(ButtonVariant::Link.is_link());
    assert!(ButtonVariant::Text.is_text());
    assert!(ButtonVariant::GhostButton.is_ghost());

    assert!(ButtonVariant::Link.no_padding());
    assert!(ButtonVariant::Text.no_padding());
    assert!(!ButtonVariant::GhostButton.no_padding());
}

#[test]
fn test_button_builder() {
    let button = Button::new(ElementId::name("complex-button"))
        .label("Save Changes")
        .with_variant(ButtonVariant::Primary)
        .outline()
        .with_size(ElementSize::Large)
        .tooltip("Click to save")
        .compact()
        .loading(false)
        .disabled(false)
        .selected(false)
        .tab_index(1)
        .tab_stop(true)
        .dropdown_caret(false)
        .rounded(ButtonRounded::Medium)
        .on_click(CallbackId(1));
    assert_eq!(button.label.as_deref(), Some("Save Changes"));
    assert_eq!(button.variant, ButtonVariant::Primary);
    assert!(button.outline);
    assert_eq!(button.size, ElementSize::Large);
    assert!(button.tooltip.is_some());
    assert!(button.compact);
    assert!(!button.loading);
    assert!(!button.disabled);
    assert!(!button.selected);
    assert_eq!(button.toggled, None);
    assert_eq!(button.tab_index, 1);
    assert!(button.tab_stop);
    assert!(!button.dropdown_caret);
    assert!(matches!(button.rounded, ButtonRounded::Medium));
}

#[test]
fn test_button_clickable_logic() {
    let clickable = Button::new(ElementId::name("test")).on_click(CallbackId(1));
    assert!(clickable.clickable());
    let disabled = Button::new(ElementId::name("test")).disabled(true).on_click(CallbackId(1));
    assert!(!disabled.clickable());
    let loading = Button::new(ElementId::name("test")).loading(true).on_click(CallbackId(1));
    assert!(!loading.clickable());
    assert!(!Button::new(ElementId::name("test")).clickable());
    assert!(Button::new(ElementId::name("t")).on_hover(CallbackId(2)).hoverable());
}

#[test]
fn button_variant_shorthands() {
    let b = Button::new(ElementId::integer(1));
    assert_eq!(b.clone().primary().variant, ButtonVariant::Primary);
    assert_eq!(b.clone().danger().variant, ButtonVariant::Danger);
    assert_eq!(b.clone().ghost().variant, ButtonVariant::GhostButton);
    assert_eq!(b.clone().link().variant, ButtonVariant::Link);
    assert_eq!(b.clone().text().variant, ButtonVariant::Text);
    let c = ButtonCustomVariant::new();
    assert_eq!(b.custom(c).variant, ButtonVariant::Custom(c));
}

#[test]
fn outline_backgrounds_per_state() {
    let bg = ButtonVariant::Danger.outline_background(StyleState::Hovered);
    assert_eq!(bg.source, ColorSource::Theme(ThemeToken::StateBackground(Intent::Danger, StyleState::Hovered)));
    assert_eq!(bg.ops, vec![ColorOp::Opacity(20)]);
    let bg = ButtonVariant::Default.outline_background(StyleState::Active);
    assert_eq!(bg.source, ColorSource::Theme(ThemeToken::Input));
    assert_eq!(bg.ops, vec![ColorOp::MixTransparent(70)]);
    assert_eq!(ButtonVariant::Link.outline_background(StyleState::Normal).source, ColorSource::Theme(ThemeToken::Transparent));
}

#[test]
fn styles_by_state() {
    let n = ButtonVariant::Primary.normal(false);
    assert_eq!(n.bg.source, ColorSource::Theme(ThemeToken::ButtonFill(Some(Intent::Primary), StyleState::Normal)));
    assert_eq!(n.fg.source, ColorSource::Theme(ThemeToken::ButtonAccentForeground(Intent::Primary)));
    assert!(!n.underline && !n.shadow);
    let h = ButtonVariant::GhostButton.hovered(false, true);
    assert_eq!(h.bg.ops, vec![ColorOp::Lighten(10), ColorOp::Opacity(80)]);
    let h = ButtonVariant::GhostButton.hovered(false, false);
    assert_eq!(h.bg.ops, vec![ColorOp::Darken(10), ColorOp::Opacity(80)]);
    let a = ButtonVariant::Link.active(false, false);
    assert_eq!(a.fg.source, ColorSource::Theme(ThemeToken::LinkActive));
    assert!(a.underline);
    let s = ButtonVariant::Secondary.selected(true, false);
    assert_eq!(s.fg.source, ColorSource::Theme(ThemeToken::SecondaryForeground));
    assert_eq!(s.bg.source, ColorSource::Theme(ThemeToken::StateBackground(Intent::Secondary, StyleState::Active)));
    let d = ButtonVariant::Warning.disabled(false);
    assert_eq!(d.bg.source, ColorSource::Theme(ThemeToken::ButtonBackground(Intent::Warning)));
    assert_eq!(d.bg.ops, vec![ColorOp::Opacity(15)]);
    assert_eq!(d.fg.ops, vec![ColorOp::Opacity(50)]);
    let d = ButtonVariant::Info.disabled(true);
    assert_eq!(d.border.ops, vec![ColorOp::MixTransparentWhite(40), ColorOp::Opacity(50)]);
    let custom = ButtonCustomVariant::new().color(Hsla::new(100, 500, 500, 1000)).shadow(true).active(Hsla::new(1, 2, 3, 4));
    let v = ButtonVariant::Custom(custom);
    assert!(v.normal(false).shadow);
    assert!(!v.disabled(false).shadow);
    assert_eq!(v.selected(false, false).bg.source, ColorSource::Custom(Hsla::new(1, 2, 3, 4)));
    assert_eq!(v.border_color(true).ops, vec![ColorOp::MixTransparentWhite(40)]);
    let b = Button::new(ElementId::integer(2)).with_variant(ButtonVariant::Primary).selected(true);
    assert_eq!(b.current_style(false).bg.source, ColorSource::Theme(ThemeToken::ButtonFill(Some(Intent::Primary), StyleState::Active)));
    assert_eq!(b.disabled(true).current_style(false).fg.source, ColorSource::Theme(ThemeToken::MutedForeground));
}

#[test]
fn button_look_sizes_icon_and_labelled_buttons() {

    // Neither label nor children: a square icon button.
    let look = Button::new(ElementId::name("icon")).look(false, px(6), true, false);
    assert_eq!(look.frame, ButtonFrame::Square(AbsoluteLength::Rems(2000)));
    assert_eq!(look.role, ButtonRole::Button);
    assert_eq!(look.corner_radius, px(6));
    assert!(look.bordered);
    assert!(look.focusable);
    assert!(look.hover.is_some() && look.active.is_some());

    // Children make it a padded button even without a label.
    let look = Button::new(ElementId::name("kids")).look(true, px(6), true, false);
    assert_eq!(
        look.frame,
        ButtonFrame::Padded {
            height: Some(AbsoluteLength::Rems(2000)),
            padding_x: AbsoluteLength::Rems(625),
            min_width: None,
        }
    );

    let look = Button::new(ElementId::name("small"))
        .label("Save")
        .with_size(ElementSize::Small)
        .compact()
        .rounded(ButtonRounded::Small)
        .look(false, px(7), true, false);
    assert_eq!(
        look.frame,
        ButtonFrame::Padded {
            height: Some(AbsoluteLength::Rems(1500)),
            padding_x: AbsoluteLength::Rems(375),
            min_width: Some(AbsoluteLength::Rems(1500)),
        }
    );
    assert_eq!(look.corner_radius, px(3));
    assert_eq!(look.gap, AbsoluteLength::Rems(250));
    assert_eq!(look.aria_label.as_deref(), Some("Save"));

    // An explicit size pads by a fifth of it, rounded toward zero.
    let look = Button::new(ElementId::name("px"))
        .label("x")
        .with_size(ElementSize::ElementSize(px(-11)))
        .rounded(ButtonRounded::Large)
        .look(false, px(7), true, false);
    assert_eq!(
        look.frame,
        ButtonFrame::Padded { height: None, padding_x: AbsoluteLength::Pixels(px(-2)), min_width: None }
    );
    assert_eq!(look.corner_radius, px(14));

    // Links are bare, point with a hand, and take the link role.
    let look = Button::new(ElementId::name("link")).label("go").with_variant(ButtonVariant::Link).look(false, px(6), true, false);
    assert_eq!(look.frame, ButtonFrame::Bare);
    assert_eq!(look.role, ButtonRole::Link);
    assert!(look.pointer_cursor);
    assert!(look.underline);
    assert!(!look.bordered);
}

#[test]
fn button_look_follows_disabled_loading_and_selected_states() {

    let look = Button::new(ElementId::name("off"))
        .label("off")
        .disabled(true)
        .on_click(CallbackId(1))
        .on_hover(CallbackId(2))
        .look(false, px(6), true, false);
    assert!(!look.focusable);
    assert!(look.press_stops_propagation);
    assert!(!look.click_runs);
    assert_eq!(look.on_click, Some(CallbackId(1)));
    assert_eq!(look.on_hover, None);
    assert!(look.hover.is_none() && look.active.is_none());
    assert!(!look.shadow);

    // An enabled loading button rests in its normal colors at 80% opacity.
    let look = Button::new(ElementId::name("busy"))
        .label("busy")
        .with_variant(ButtonVariant::Primary)
        .loading(true)
        .on_click(CallbackId(1))
        .icon(ButtonIcon::new(ButtonIconVariant::Icon(Icon::empty())))
        .with_size(ElementSize::ElementSize(px(20)))
        .look(false, px(6), true, false);
    assert!(!look.click_runs);
    assert_eq!(look.background.source, ColorSource::Theme(ThemeToken::ButtonFill(Some(Intent::Primary), StyleState::Normal)));
    assert_eq!(look.background.ops.last(), Some(&ColorOp::Opacity(80)));
    assert_eq!(look.text_color.ops.last(), Some(&ColorOp::Opacity(80)));
    let icon = look.icon.expect("icon kept");
    assert!(icon.loading);
    assert_eq!(icon.size, ElementSize::ElementSize(px(15)));

    // A selected button has no hover or press style, and a caret when asked.
    let look = Button::new(ElementId::name("sel"))
        .label("sel")
        .selected(true)
        .dropdown_caret(true)
        .look(false, px(6), true, false);
    assert!(look.hover.is_none());
    assert!(!look.underline);
    assert_eq!(look.caret.expect("caret").ops.last(), Some(&ColorOp::Opacity(75)));
    assert!(look.justify_between);
}
