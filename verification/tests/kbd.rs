use rgpui::kbd::{label_from_upper, BindingLookup, Kbd, KeyPlatform, Keystroke};

fn fmt(s: &str) -> String {
    Kbd::format(&Keystroke::parse(s).unwrap())
}

fn fmt_mac(s: &str) -> String {
    Kbd::format_on(&Keystroke::parse_on(s, KeyPlatform::MacOs).unwrap(), KeyPlatform::MacOs)
}

#[test]
fn test_format() {
    {
        assert_eq!(fmt("a"), "A");
        assert_eq!(fmt("ctrl-a"), "Ctrl+A");
        assert_eq!(fmt("shift-space"), "Shift+Space");
        assert_eq!(fmt("ctrl-alt-a"), "Ctrl+Alt+A");
        assert_eq!(fmt("ctrl-alt-shift-a"), "Ctrl+Alt+Shift+A");
        assert_eq!(fmt("ctrl-alt-shift-win-a"), "Ctrl+Alt+Shift+Win+A");
        assert_eq!(fmt("ctrl-shift-backspace"), "Ctrl+Shift+Backspace");
        assert_eq!(fmt("alt-delete"), "Alt+Delete");
        assert_eq!(fmt("alt-tab"), "Alt+Tab");
    }
}

#[test]
fn format_macos_conventions() {
    assert_eq!(fmt_mac("cmd-a"), "⌘A");
    assert_eq!(fmt_mac("cmd--"), "⌘-");
    assert_eq!(fmt_mac("cmd-+"), "⌘+");
    assert_eq!(fmt_mac("cmd-enter"), "⌘⏎");
    assert_eq!(fmt_mac("secondary-f12"), "⌘F12");
    assert_eq!(fmt_mac("shift-pagedown"), "⇧Page Down");
    assert_eq!(fmt_mac("shift-pageup"), "⇧Page Up");
    assert_eq!(fmt_mac("shift-space"), "⇧Space");
    assert_eq!(fmt_mac("cmd-ctrl-a"), "⌃⌘A");
    assert_eq!(fmt_mac("cmd-alt-backspace"), "⌥⌘⌫");
    assert_eq!(fmt_mac("shift-delete"), "⇧⌫");
    assert_eq!(fmt_mac("cmd-ctrl-shift-a"), "⌃⇧⌘A");
    assert_eq!(fmt_mac("cmd-ctrl-shift-alt-a"), "⌃⌥⇧⌘A");
}

#[test]
fn format_named_keys_elsewhere() {
    assert_eq!(fmt("escape"), "Esc");
    assert_eq!(fmt("enter"), "Enter");
    assert_eq!(fmt("left"), "Left");
    assert_eq!(fmt("secondary-f12"), "Ctrl+F12");
    assert_eq!(fmt("cmd-x"), "Win+X");
    assert_eq!(fmt("shift-pagedown"), "Shift+Page Down");
}

#[test]
fn parse_reads_modifiers_and_dash_key() {
    let k = Keystroke::parse("ctrl-shift-a").unwrap();
    assert!(k.modifiers.control && k.modifiers.shift && !k.modifiers.alt);
    assert_eq!(k.key, "a");
    let k = Keystroke::parse("cmd--").unwrap();
    assert!(k.modifiers.platform);
    assert_eq!(k.key, "-");
    let k = Keystroke::parse_on("secondary-a", KeyPlatform::MacOs).unwrap();
    assert!(k.modifiers.platform && !k.modifiers.control);
}

#[test]
fn parse_rejects_key_before_modifier() {
    let e = Keystroke::parse("a-ctrl").unwrap_err();
    assert_eq!(e.keystroke, "a-ctrl");
    assert!(Keystroke::parse("ctrl").is_err());
}

#[test]
fn kbd_builder_and_binding() {
    let k = Kbd::new(Keystroke::parse("ctrl-a").unwrap());
    assert!(k.appearance && !k.outline);
    let k = k.outline().appearance(false);
    assert!(k.outline && !k.appearance);
    assert_eq!(k.text(), "Ctrl+A");
    assert!(Kbd::from_binding(vec![]).is_none());
    let b = Kbd::from_binding(vec![Keystroke::parse("alt-tab").unwrap(), Keystroke::parse("a").unwrap()]).unwrap();
    assert_eq!(b.stroke.key, "tab");
}

#[test]
fn kbd_from_keystroke_and_lookup() {
    let k: Kbd = Keystroke::parse("cmd-a").unwrap().into();
    assert!(k.appearance && !k.outline);
    assert_eq!(k.stroke, Keystroke::parse("cmd-a").unwrap());
    assert_eq!(Kbd::binding_lookup(true, true), BindingLookup::InContext);
    assert_eq!(Kbd::binding_lookup(true, false), BindingLookup::Global);
    assert_eq!(Kbd::binding_lookup(false, false), BindingLookup::Global);
}

#[test]
fn key_labels_take_the_upper_cased_part() {
    assert_eq!(label_from_upper("a", "A"), "A");
    assert_eq!(label_from_upper("f12", "F"), "F12");
    assert_eq!(label_from_upper("ß", "SS"), "SS");
    assert_eq!(label_from_upper("", ""), "");
}

#[test]
fn kbd_look_plain_text_or_key_cap() {
    let k = Kbd::new(Keystroke::parse("ctrl-a").unwrap());
    let plain = k.clone().appearance(false).look(KeyPlatform::Other, rgpui::geometry::px(6));
    assert_eq!(plain.text, "Ctrl+A");
    assert!(plain.cap.is_none());
    let cap = k.clone().look(KeyPlatform::Other, rgpui::geometry::px(6)).cap.unwrap();
    assert!(cap.border.is_none());
    assert_eq!(cap.radius, rgpui::geometry::px(3));
    assert_eq!(cap.text_size, 750);
    let outlined = k.outline().look(KeyPlatform::MacOs, rgpui::geometry::px(6));
    assert_eq!(outlined.text, "⌃A");
    assert!(outlined.cap.unwrap().border.is_some());
}
