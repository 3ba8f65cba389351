use rgpui::alert::{Alert, AlertCounter, AlertIcon, AlertVariant};
use rgpui::avatar::{Avatar, AvatarStatus};
use rgpui::breadcrumb::{Breadcrumb, BreadcrumbItem};
use rgpui::card::{Card, Caret};
use rgpui::checkbox::Checkbox;
use rgpui::deferred::{deferred, draw_order};
use rgpui::element::{CallbackId, ElementId, ElementSize, Hsla, Side};
use rgpui::geometry::{px, AbsoluteLength, Axis};
use rgpui::radio::{Radio, RadioGroup, RadioGroupClick};
use rgpui::skeleton::Skeleton;
use rgpui::slider::SliderScale;
use rgpui::switch::{Switch, SwitchPress};
use rgpui::interactivity::MouseButton;
use rgpui::tag::{Tag, TagVariant};
use rgpui::theme::{ColorName, ColorOp, ColorSource, ThemeToken};

fn red_500() -> Hsla {
    Hsla::new(0, 842, 602, 1000)
}

#[test]
fn test_checkbox_build() {
    let cb = Checkbox::new(ElementId::name("test-checkbox"))
        .label("测试复选框")
        .checked(true)
        .tooltip("测试提示")
        .with_size(ElementSize::Medium);
    assert!(cb.checked);
    assert!(cb.label.is_some());
    assert_eq!(cb.tooltip, Some("测试提示".to_string()));
}

#[test]
fn test_checkbox_disabled() {
    let cb = Checkbox::new(ElementId::name("test-checkbox-2")).disabled(true).selected(true);
    assert!(cb.disabled);
    assert!(cb.is_selected());
}

#[test]
fn checkbox_click_reports_new_state() {
    let cb = Checkbox::new(ElementId::name("c")).on_click(CallbackId(7));
    assert_eq!(cb.handle_click(), Some((CallbackId(7), true)));
    let cb = cb.checked(true);
    assert_eq!(cb.handle_click(), Some((CallbackId(7), false)));
    assert_eq!(cb.disabled(true).handle_click(), None);
    assert_eq!(Checkbox::new(ElementId::integer(1)).handle_click(), None);
    let cb = Checkbox::new(ElementId::integer(1)).tab_index(3).tab_stop(false);
    assert_eq!(cb.tab_index, 3);
    assert!(!cb.tab_stop);
}

#[test]
fn test_radio_build() {
    let r = Radio::new(ElementId::name("test-radio"))
        .label("选项 A")
        .checked(true)
        .with_size(ElementSize::Small);
    assert!(r.checked);
    assert!(r.label.is_some());
}

#[test]
fn test_radio_from_str() {
    let r: Radio = Radio::from_label("选项 B");
    assert_eq!(r.id, ElementId::name("选项 B"));
    assert!(r.label.is_some());
}

#[test]
fn test_radio_group_build() {
    let group = RadioGroup::horizontal(ElementId::name("test-group"))
        .selected_index(Some(1))
        .child(Radio::new(ElementId::name("r1")).label("A"))
        .child(Radio::new(ElementId::name("r2")).label("B"));
    assert_eq!(group.radios.len(), 2);
    assert_eq!(group.selected_index, Some(1));
    assert_eq!(group.layout, Axis::Horizontal);
}

#[test]
fn radio_group_arranges_exactly_one_checked() {
    let group = RadioGroup::vertical(ElementId::name("g"))
        .children(vec![Radio::from_label("a"), Radio::from_label("b").checked(true), Radio::from_label("c")])
        .selected_index(Some(2))
        .disabled(true)
        .on_click(CallbackId(3));
    assert_eq!(group.handle_click(1), None);
    let radios = group.arranged();
    assert_eq!(radios.len(), 3);
    assert_eq!(radios.iter().filter(|r| r.checked).count(), 1);
    assert!(radios[2].checked);
    assert_eq!(radios[1].id, ElementId::integer(1));
    assert!(radios.iter().all(|r| r.disabled));
    let enabled = RadioGroup::vertical(ElementId::name("g")).on_click(CallbackId(3));
    assert_eq!(enabled.handle_click(4), Some(RadioGroupClick::Group(CallbackId(3), 4)));
}

#[test]
fn test_skeleton_build() {
    let s = Skeleton::new();
    assert!(!s.secondary);
    let s2 = Skeleton::new().secondary();
    assert!(s2.secondary);
}

#[test]
fn skeleton_secondary_fill_is_faded() {
    let fill = Skeleton::new().secondary().fill();
    assert_eq!(fill.source, ColorSource::Theme(ThemeToken::Skeleton));
    assert_eq!(fill.ops, vec![ColorOp::Opacity(50)]);
    assert!(Skeleton::new().fill().ops.is_empty());
}

#[test]
fn test_switch_build() {
    let s = Switch::new(ElementId::name("test-switch"))
        .label("开启")
        .checked(true)
        .with_size(ElementSize::Small)
        .color(red_500());
    assert!(s.checked);
    assert!(s.label.is_some());
    assert_eq!(s.size, ElementSize::Small);
    assert!(s.color.is_some());
}

#[test]
fn test_switch_label_side() {
    let s = Switch::new(ElementId::name("test-switch-2")).label("标签");
    assert!(s.label_side.is_right());
    assert!(!Side::Right.is_left());
}

#[test]
fn switch_click_and_tooltip() {
    let s = Switch::new(ElementId::name("s")).on_click(CallbackId(9)).tooltip("hint");
    assert_eq!(s.handle_click(), Some((CallbackId(9), true)));
    assert_eq!(s.tooltip.as_deref(), Some("hint"));
    assert_eq!(s.disabled(true).handle_click(), None);
}

#[test]
fn test_tag_variants() {
    assert_eq!(Tag::primary().variant, TagVariant::Primary);
    assert_eq!(Tag::danger().variant, TagVariant::Danger);
    assert_eq!(Tag::success().variant, TagVariant::Success);
    assert_eq!(Tag::info().variant, TagVariant::Info);
}

#[test]
fn test_tag_outline() {
    let t = Tag::primary().outline();
    assert!(t.outline);
}

#[test]
fn test_tag_rounded() {
    let t = Tag::new().rounded_full();
    assert!(t.rounded.is_some());
}

#[test]
fn tag_colors_follow_variant_and_theme() {
    let t = Tag::color(ColorName::Blue);
    assert_eq!(t.variant.bg(false).source, ColorSource::Theme(ThemeToken::Palette(ColorName::Blue, 50)));
    let dark = t.variant.bg(true);
    assert_eq!(dark.source, ColorSource::Theme(ThemeToken::Palette(ColorName::Blue, 950)));
    assert_eq!(dark.ops, vec![ColorOp::Opacity(50)]);
    assert_eq!(t.variant.fg(false, true).source, ColorSource::Theme(ThemeToken::Palette(ColorName::Blue, 300)));
    let s = Tag::secondary();
    assert_eq!(s.variant.border(false).source, ColorSource::Theme(ThemeToken::Border));
    assert_eq!(s.variant.fg(true, false).source, ColorSource::Theme(ThemeToken::MutedForeground));
    assert_eq!(s.outline().background(false).source, ColorSource::Theme(ThemeToken::TransparentWhite));
    let c = Tag::custom(red_500(), Hsla::new(0, 0, 0, 1000), Hsla::new(5000, 0, 0, 1000));
    assert_eq!(c.variant.border(true).source, ColorSource::Custom(Hsla::new(1000, 0, 0, 1000)));
    assert!(Tag::new().with_size(ElementSize::Small).is_compact());
    assert_eq!(Tag::new().rounded(AbsoluteLength::Pixels(px(4))).rounded, Some(AbsoluteLength::Pixels(px(4))));
    assert_eq!(Tag::default().variant, TagVariant::Secondary);
    assert_eq!(Tag::warning().variant, TagVariant::Warning);
}

#[test]
fn alert_ids_and_accents() {
    let a = Alert::new("Saved", 42).variant(AlertVariant::Success).body("All good").closable(true).on_close(CallbackId(1));
    assert_eq!(a.id, "alert-42");
    assert_eq!(a.close_button_id().as_deref(), Some("alert-42-close"));
    assert_eq!(a.accent(), (0x22c55e, AlertIcon::CircleCheck));
    assert_eq!(Alert::new("x", 0).id, "alert-0");
    assert_eq!(Alert::new("x", 1234567).id, "alert-1234567");
    assert_eq!(Alert::new("x", 0).close_button_id(), None);
    assert_eq!(Alert::new("x", 0).accent().0, 0x3b82f6);
}

#[test]
fn avatar_defaults_and_status() {
    let a = Avatar::new("AB");
    assert_eq!(a.size, px(32));
    assert_eq!(a.status_color(), None);
    let a = a.src("me.png").size(px(48)).status(AvatarStatus::Busy);
    assert_eq!(a.src.as_deref(), Some("me.png"));
    assert_eq!(a.status_color(), Some(0xef4444));
}

#[test]
fn breadcrumb_last_level_is_current() {
    let b = Breadcrumb::new(vec![
        BreadcrumbItem::new("Home").on_click(CallbackId(1)),
        BreadcrumbItem::new("Docs"),
        BreadcrumbItem::new("Page").on_click(CallbackId(3)),
    ]);
    let segs = b.segments();
    assert_eq!(segs.len(), 3);
    assert_eq!(segs[0].click, Some(CallbackId(1)));
    assert!(segs[0].chevron && !segs[0].is_current);
    assert_eq!(segs[1].click, None);
    assert!(segs[2].is_current && !segs[2].chevron);
    assert_eq!(segs[2].click, None);
    assert!(Breadcrumb::new(vec![]).segments().is_empty());
}

#[test]
fn card_caret_deferred_slider() {
    assert_eq!(Card::new().title("T").title.as_deref(), Some("T"));
    assert!(Card::default().title.is_none());
    assert_eq!(Caret::new(ElementSize::Large).icon_size(), ElementSize::Medium);
    assert_eq!(Caret::new(ElementSize::XSmall).icon_size(), ElementSize::XSmall);
    assert!(Caret::new(ElementSize::Small).text_color(red_500()).color.is_some());
    let mut d = deferred(5u8).with_priority(3);
    assert_eq!(d.priority, 3);
    assert_eq!(d.take_child(), Some(5));
    assert_eq!(d.take_child(), None);
    assert_eq!(deferred(1u8).priority(9).priority, 9);
    assert!(SliderScale::Linear.is_linear());
    assert!(SliderScale::Logarithmic.is_logarithmic());
    assert!(!SliderScale::Logarithmic.is_linear());
}

#[test]
fn checkbox_look_follows_state() {
    let unchecked = Checkbox::new(ElementId::name("c")).look(true, px(6), false);
    assert_eq!(unchecked.border.source, ColorSource::Theme(ThemeToken::Input));
    assert_eq!(unchecked.fill.source, ColorSource::Theme(ThemeToken::InputBackground));
    assert!(unchecked.shadow);
    assert!(!unchecked.show_check);
    assert_eq!(unchecked.box_size, AbsoluteLength::Rems(1000));
    assert_eq!(unchecked.check_size, AbsoluteLength::Rems(750));

    let disabled = Checkbox::new(ElementId::name("c"))
        .checked(true)
        .disabled(true)
        .with_size(ElementSize::Large)
        .look(true, px(6), false);
    assert_eq!(disabled.border.ops, vec![ColorOp::Opacity(50)]);
    assert_eq!(disabled.fill.ops, vec![ColorOp::Opacity(50)]);
    assert_eq!(disabled.text.source, ColorSource::Theme(ThemeToken::MutedForeground));
    assert!(!disabled.shadow);
    assert!(!disabled.interactive);
    assert!(disabled.show_check);
    assert_eq!(disabled.box_size, AbsoluteLength::Rems(1125));
    assert_eq!(disabled.text_size, Some(1125));

    let exact = Checkbox::new(ElementId::name("c")).with_size(ElementSize::ElementSize(px(30)));
    assert_eq!(exact.look(false, px(6), false).text_size, None);
}

#[test]
fn radio_group_click_replaces_the_radios_own() {
    let group = RadioGroup::vertical(ElementId::name("g"))
        .child(Radio::from_label("a").on_click(CallbackId(1)))
        .child(Radio::from_label("b").on_click(CallbackId(2)))
        .selected_index(Some(1));
    // Without a group callback each radio runs its own, with its new state.
    assert_eq!(group.handle_click(0), Some(RadioGroupClick::Radio(CallbackId(1), true)));
    assert_eq!(group.handle_click(1), Some(RadioGroupClick::Radio(CallbackId(2), false)));
    assert_eq!(group.handle_click(2), None);
    // A group callback replaces them.
    let group = group.on_click(CallbackId(9));
    assert_eq!(group.handle_click(1), Some(RadioGroupClick::Group(CallbackId(9), 1)));
    let arranged = group.clone().arranged();
    assert!(arranged.iter().all(|r| r.on_click.is_none()));
    assert_eq!(group.disabled(true).handle_click(0), None);
}

#[test]
fn radio_look_tracks_focus_only_when_enabled() {
    let r = Radio::from_label("a").tab_index(3).tab_stop(false);
    let look = r.look(true, px(6), false);
    assert_eq!(look.focus, Some((false, 3)));
    assert!(look.clickable);
    assert!(look.shadow);
    assert_eq!(look.row_radius, px(3));
    assert_eq!(look.circle_size, AbsoluteLength::Rems(1000));
    let look = Radio::from_label("a").checked(true).disabled(true).look(true, px(6), false);
    assert_eq!(look.focus, None);
    assert!(!look.clickable);
    assert!(!look.shadow);
    assert!(look.show_check);
    assert_eq!(look.fill.ops, vec![ColorOp::Opacity(50)]);
    assert_eq!(look.label_color.source, ColorSource::Theme(ThemeToken::MutedForeground));
}

#[test]
fn switch_look_colors_and_geometry() {
    let s = Switch::new(ElementId::name("s"));
    let look = s.clone().look(px(6));
    assert_eq!(look.track.source, ColorSource::Theme(ThemeToken::Switch));
    assert_eq!((look.track_width, look.track_height, look.thumb_size), (px(36), px(20), px(16)));
    assert_eq!(look.thumb_x, px(0));
    assert_eq!(look.radius, px(20));
    let c = Hsla::new(10, 20, 30, 1000);
    let look = s.clone().checked(true).color(c).disabled(true).with_size(ElementSize::Small).look(px(3));
    assert_eq!(look.track.source, ColorSource::Custom(c));
    assert_eq!(look.track.ops, vec![ColorOp::Opacity(50)]);
    assert_eq!(look.thumb.ops, vec![ColorOp::Opacity(35)]);
    assert_eq!((look.track_width, look.track_height, look.thumb_size), (px(28), px(16), px(12)));
    assert_eq!(look.thumb_x, px(12));
    assert_eq!(look.radius, px(3));
    let look = s.clone().checked(true).look(px(6));
    assert_eq!(look.track.source, ColorSource::Theme(ThemeToken::Accent(rgpui::theme::Intent::Primary)));
    assert!(look.aria_toggled);
}

#[test]
fn switch_fires_on_left_press() {
    let s = Switch::new(ElementId::name("s")).checked(true).on_click(CallbackId(4));
    assert_eq!(
        s.handle_mouse_down(MouseButton::Left),
        SwitchPress { callback: Some((CallbackId(4), false)), stop_propagation: true }
    );
    assert_eq!(s.handle_mouse_down(MouseButton::Right), SwitchPress { callback: None, stop_propagation: false });
    assert_eq!(
        s.disabled(true).handle_mouse_down(MouseButton::Left),
        SwitchPress { callback: None, stop_propagation: false }
    );
}

#[test]
fn checkbox_look_radii() {
    let look = Checkbox::new(ElementId::name("c")).look(true, px(6), false);
    assert_eq!(look.box_radius, px(4));
    assert_eq!(look.row_radius, px(3));
    assert_eq!(Checkbox::new(ElementId::name("c")).look(true, px(2), false).box_radius, px(2));
}

#[test]
fn defaults_and_conversions() {
    assert_eq!(SliderScale::default(), SliderScale::Linear);
    assert!(!SliderScale::default().is_logarithmic());
    assert!(!Skeleton::default().secondary);
    let r: Radio = "选项 B".into();
    assert_eq!(r.id, ElementId::name("选项 B"));
    assert_eq!(r.label.as_deref(), Some("选项 B"));
}

#[test]
fn deferred_draws_lower_priorities_first() {
    assert_eq!(draw_order(&vec![1, 0, 1, 2, 0]), vec![1, 4, 0, 2, 3]);
    assert_eq!(draw_order(&vec![]), Vec::<usize>::new());
}

#[test]
fn alerts_with_different_numbers_have_different_ids() {
    let a = Alert::new("a", 7).closable(true);
    let b = Alert::new("b", 70).closable(true);
    assert_ne!(a.id, b.id);
    assert_ne!(a.close_button_id(), b.close_button_id());
}

#[test]
fn checkbox_look_focus_setup() {
    let c = Checkbox::new(ElementId::name("c")).tab_index(2).tab_stop(false);
    let look = c.clone().look(false, px(6), true);
    assert_eq!(look.focus, Some((false, 2)));
    assert_eq!(look.focus_ring, Some(px(2)));
    let look = c.disabled(true).look(false, px(6), false);
    assert_eq!(look.focus, None);
    assert_eq!(look.focus_ring, None);
}

#[test]
fn counter_creates_alerts_with_fresh_ids() {
    let mut counter = AlertCounter::new();
    assert_eq!(counter.next(), 0);
    let a = counter.create("first");
    let b = counter.create("second");
    assert_eq!(counter.next(), 2);
    assert_eq!(a.id, "alert-0");
    assert_eq!(b.id, "alert-1");
    assert_eq!(b.title, "second");
    assert_eq!(b.variant, AlertVariant::Info);
    assert!(!b.closable);
    assert_ne!(a.closable(true).close_button_id(), b.closable(true).close_button_id());
}
