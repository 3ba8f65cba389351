use rgpui::badge::Badge;
use rgpui::button_icon::{ButtonIcon, ButtonIconVariant};
use rgpui::element::{ElementSize, Hsla};
use rgpui::geometry::{px, AbsoluteLength, Axis};
use rgpui::icon::{Icon, IconNamed};
use rgpui::separator::{Separator, SeparatorStyle};
use rgpui::spinner::Spinner;
use rgpui::theme::{ColorSource, ThemeToken};
use std::time::Duration;

/// Named icons of an application, each with its asset path and image.
#[derive(Clone, Copy)]
enum IconName {
    Bell,
    Check,
    Loader,
    Plus,
}

impl IconNamed for IconName {
    fn path(&self) -> String {
        let name = match self {
            IconName::Bell => "bell",
            IconName::Check => "check",
            IconName::Loader => "loader",
            IconName::Plus => "plus",
        };
        format!("icons/{}.svg", name)
    }

    fn bytes(&self) -> &'static [u8] {
        b"<svg xmlns=\"http://www.w3.org/2000/svg\"/>"
    }
}

fn red_500() -> Hsla {
    Hsla::new(0, 842, 602, 1000)
}

#[test]
fn test_icon_build() {
    let icon = Icon::new(IconName::Check);
    assert_eq!(icon.path, "icons/check.svg");
    assert!(icon.data.is_some());
}

#[test]
fn test_icon_style() {
    let icon = Icon::new(IconName::Check).with_size(ElementSize::Small);
    assert_eq!(icon.size, Some(ElementSize::Small));
}

#[test]
fn icon_render_size_prefers_its_size_then_the_text_size() {
    let icon = Icon::new(IconName::Check);
    assert_eq!(icon.render_size(px(13), false), Some(AbsoluteLength::Pixels(px(13))));
    assert_eq!(icon.render_size(px(13), true), None);
    let large = icon.duplicate().with_size(ElementSize::Large);
    assert_eq!(large.render_size(px(13), true), Some(AbsoluteLength::Rems(1500)));
    let exact = icon.with_size(ElementSize::ElementSize(px(20)));
    assert_eq!(exact.render_size(px(13), false), Some(AbsoluteLength::Pixels(px(20))));
    let empty = Icon::empty().path("icons/x.svg");
    assert_eq!(empty.path, "icons/x.svg");
    assert!(empty.data.is_none());
}

#[test]
fn test_badge_build() {
    let b = Badge::new().count(5).with_size(ElementSize::Small);
    assert_eq!(b.count, 5);
    assert_eq!(b.size, ElementSize::Small);
}

#[test]
fn test_badge_variant() {
    let b = Badge::new().dot();
    assert!(b.variant.is_icon() == false);
    let b2 = Badge::new().icon(Icon::new(IconName::Bell));
    assert!(b2.variant.is_icon());
}

#[test]
fn test_badge_count_max() {
    let b = Badge::new().count(150).max(99);
    assert_eq!(b.max, 99);
    assert_eq!(b.count, 150);
}

#[test]
fn badge_label_visibility_and_placement() {
    let b = Badge::new().count(150).max(99);
    assert_eq!(b.count_label(), "99+");
    assert_eq!(Badge::new().count(7).count_label(), "7");
    assert!(!Badge::new().is_visible());
    assert!(Badge::new().count(1).is_visible());
    assert!(Badge::new().dot().is_visible());
    assert_eq!(b.count_offsets(3), (px(-3), px(-9)));
    assert_eq!(b.clone().with_size(ElementSize::Large).count_offsets(3), (px(2), px(-3)));
    assert_eq!(b.clone().with_size(ElementSize::XSmall).count_offsets(2), (px(-4), px(-8)));
    assert_eq!(b.indicator_sizes(), (px(16), px(10)));
    assert_eq!(b.clone().with_size(ElementSize::Large).indicator_sizes(), (px(24), px(14)));
    assert_eq!(b.background().source, ColorSource::Theme(ThemeToken::Red));
    assert_eq!(b.color(red_500()).background().source, ColorSource::Custom(red_500()));
}

#[test]
fn test_separator_axis() {
    let v = Separator::vertical();
    assert_eq!(v.axis, Axis::Vertical);
    let h = Separator::horizontal();
    assert_eq!(h.axis, Axis::Horizontal);
}

#[test]
fn test_separator_dashed() {
    let s = Separator::horizontal_dashed();
    assert_eq!(s.line_style, SeparatorStyle::Dashed);
    assert_eq!(s.axis, Axis::Horizontal);
}

#[test]
fn test_separator_label_color() {
    let s = Separator::vertical().label("分隔").color(red_500());
    assert_eq!(s.label, Some("分隔".to_string()));
    assert!(s.color.is_some());
    assert_eq!(s.line_color().source, ColorSource::Custom(red_500()));
    assert_eq!(Separator::vertical().line_color().source, ColorSource::Theme(ThemeToken::Border));
}

#[test]
fn test_spinner_build() {
    let s = Spinner::new().with_size(ElementSize::Small).color(red_500());
    assert_eq!(s.size, ElementSize::Small);
    assert!(s.color.is_some());
    let drawn = s.drawn_icon();
    assert_eq!(drawn.size, Some(ElementSize::Small));
    assert_eq!(drawn.text_color, Some(red_500()));
}

#[test]
fn test_spinner_default() {
    let s = Spinner::new();
    assert_eq!(s.size, ElementSize::Medium);
    assert_eq!(Duration::from_millis(s.speed_ms), Duration::from_secs_f64(0.8));
}

#[test]
fn test_button_icon_builder() {
    let custom_icon = Icon::new(IconName::Loader);
    let icon = ButtonIcon::new(ButtonIconVariant::Icon(Icon::new(IconName::Plus)))
        .loading(true)
        .loading_icon(Some(custom_icon))
        .with_size(ElementSize::Large);
    assert!(icon.loading);
    assert!(icon.loading_icon.is_some());
    assert_eq!(icon.size, ElementSize::Large);
    match icon.drawn() {
        ButtonIconVariant::Spinner(s) => {
            assert_eq!(s.size, ElementSize::Large);
            assert_eq!(s.icon.path, "icons/loader.svg");
        }
        ButtonIconVariant::Icon(_) => panic!("a loading button shows a spinner"),
    }
}

#[test]
fn test_button_icon_variant_types() {
    let icon_variant = ButtonIconVariant::Icon(Icon::new(IconName::Plus));
    assert!(!icon_variant.is_spinner());
    let spinner_variant = ButtonIconVariant::Spinner(Spinner::new());
    assert!(spinner_variant.is_spinner());
    let idle = ButtonIcon::new(icon_variant).with_size(ElementSize::Small);
    match idle.drawn() {
        ButtonIconVariant::Icon(i) => assert_eq!(i.size, Some(ElementSize::Small)),
        ButtonIconVariant::Spinner(_) => panic!("an idle button shows its icon"),
    }
}
