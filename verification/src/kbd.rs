//! Keystrokes and the keyboard-shortcut label (`Kbd`) that shows them.
use vstd::prelude::*;
use vstd::utf8::encode_utf8;
use crate::button::{half, scaled_toward_zero};
use crate::geometry::{AbsoluteLength, Pixels};
use crate::text::{join_strings, join_with, spec_to_uppercase, str_eq, str_to_uppercase};
use crate::theme::{token, ColorRecipe, ThemeToken};

verus! {

/// The platform whose conventions a shortcut is parsed and written in.
#[derive(Clone, Copy, Debug, PartialEq, Eq, Structural)]
pub enum KeyPlatform {
    /// macOS: symbols such as `⌘`, written without separators.
    MacOs,
    /// Windows and Linux: names such as `Ctrl`, joined with `+`.
    Other,
}

/// The modifier keys held with a key.
#[derive(Clone, Copy, Debug, PartialEq, Eq, Structural)]
pub struct Modifiers {
    pub control: bool,
    pub alt: bool,
    pub shift: bool,
    /// The command key on macOS, the Windows key elsewhere.
    pub platform: bool,
    pub function: bool,
}

impl Modifiers {
    pub open spec fn none_spec() -> Modifiers {
        Modifiers { control: false, alt: false, shift: false, platform: false, function: false }
    }

    /// No modifier held.
    pub fn none() -> (r: Modifiers)
        ensures
            r == Self::none_spec(),
    {
        Modifiers { control: false, alt: false, shift: false, platform: false, function: false }
    }

    pub open spec fn modified_spec(self) -> bool {
        self.control || self.alt || self.shift || self.platform || self.function
    }

    /// Whether any modifier is held.
    pub fn modified(&self) -> (r: bool)
        ensures
            r == self.modified_spec(),
    {
        self.control || self.alt || self.shift || self.platform || self.function
    }
}

/// A key pressed together with modifiers.
#[derive(Clone, Debug, PartialEq, Eq)]
pub struct Keystroke {
    pub modifiers: Modifiers,
    /// The key's name, such as `a`, `enter` or `f12`.
    pub key: String,
}

/// A keystroke description that could not be parsed.
#[derive(Clone, Debug, PartialEq, Eq)]
pub struct InvalidKeystrokeError {
    pub keystroke: String,
}

/// The `-`-separated components of `s`: one more than the dashes in it.
pub open spec fn split_dash(s: Seq<char>) -> Seq<Seq<char>>
    decreases s.len(),
{
    if s.len() == 0 {
        seq![Seq::empty()]
    } else {
        let rest = split_dash(s.drop_last());
        if s.last() == '-' {
            rest.push(Seq::empty())
        } else {
            rest.update(rest.len() - 1, rest.last().push(s.last()))
        }
    }
}

/// There is always at least one component.
pub proof fn lemma_split_dash_nonempty(s: Seq<char>)
    ensures
        split_dash(s).len() >= 1,
    decreases s.len(),
{
    if s.len() > 0 {
        lemma_split_dash_nonempty(s.drop_last());
    }
}

/// The modifiers after the component `c`, when `c` names a modifier.
pub open spec fn modifier_of(c: Seq<char>, m: Modifiers, p: KeyPlatform) -> Option<Modifiers> {
    if c == "ctrl"@ {
        Some(Modifiers { control: true, ..m })
    } else if c == "alt"@ {
        Some(Modifiers { alt: true, ..m })
    } else if c == "shift"@ {
        Some(Modifiers { shift: true, ..m })
    } else if c == "fn"@ {
        Some(Modifiers { function: true, ..m })
    } else if c == "secondary"@ {
        if p == KeyPlatform::MacOs {
            Some(Modifiers { platform: true, ..m })
        } else {
            Some(Modifiers { control: true, ..m })
        }
    } else if c == "cmd"@ || c == "super"@ || c == "win"@ {
        Some(Modifiers { platform: true, ..m })
    } else {
        None
    }
}

/// The modifiers and key that the components `cs` describe, read from the
/// front: modifiers first, then a key that must be the last component, or a
/// dash written as a trailing `-`.
pub open spec fn parse_components(
    cs: Seq<Seq<char>>,
    ends_with_dash: bool,
    m: Modifiers,
    p: KeyPlatform,
) -> Option<(Modifiers, Seq<char>)>
    decreases cs.len(),
{
    if cs.len() == 0 {
        None
    } else {
        match modifier_of(cs[0], m, p) {
            Some(m2) => parse_components(cs.drop_first(), ends_with_dash, m2, p),
            None => if cs.len() == 1 {
                Some((m, cs[0]))
            } else if cs[1].len() == 0 && ends_with_dash {
                Some((m, "-"@))
            } else {
                None
            },
        }
    }
}

/// What a keystroke description parses to on platform `p`.
pub open spec fn parse_spec(s: Seq<char>, p: KeyPlatform) -> Option<(Modifiers, Seq<char>)> {
    parse_components(split_dash(s), s.len() > 0 && s.last() == '-', Modifiers::none_spec(), p)
}

/// The end of the `k`th component when components start at `starts` and the
/// text read so far ends at `i`.
pub open spec fn comp_end(starts: Seq<usize>, k: int, i: int) -> int {
    if k + 1 < starts.len() {
        starts[k + 1] - 1
    } else {
        i
    }
}

/// The modifier that the component `c` names, applied to `m`.
fn apply_modifier(c: &str, m: Modifiers, p: KeyPlatform) -> (r: Option<Modifiers>)
    ensures
        r == modifier_of(c@, m, p),
{
    if str_eq(c, "ctrl") {
        Some(Modifiers { control: true, ..m })
    } else if str_eq(c, "alt") {
        Some(Modifiers { alt: true, ..m })
    } else if str_eq(c, "shift") {
        Some(Modifiers { shift: true, ..m })
    } else if str_eq(c, "fn") {
        Some(Modifiers { function: true, ..m })
    } else if str_eq(c, "secondary") {
        match p {
            KeyPlatform::MacOs => Some(Modifiers { platform: true, ..m }),
            KeyPlatform::Other => Some(Modifiers { control: true, ..m }),
        }
    } else if str_eq(c, "cmd") || str_eq(c, "super") || str_eq(c, "win") {
        Some(Modifiers { platform: true, ..m })
    } else {
        None
    }
}

/// The start of each `-`-separated component of `s`.
fn component_starts(s: &str) -> (starts: Vec<usize>)
    ensures
        starts@.len() == split_dash(s@).len(),
        starts@.len() >= 1,
        forall|k: int|
            #![trigger starts@[k]]
            0 <= k < starts@.len() ==> starts@[k] <= comp_end(starts@, k, s@.len() as int)
                <= s@.len() && split_dash(s@)[k] == s@.subrange(
                starts@[k] as int,
                comp_end(starts@, k, s@.len() as int),
            ),
        forall|k: int| 0 < k < starts@.len() ==> starts@[k] >= 1,
{
    let n = s.unicode_len();
    let mut starts: Vec<usize> = Vec::new();
    starts.push(0);
    let mut i: usize = 0;
    assert(s@.take(0) =~= Seq::<char>::empty());
    while i < n
        invariant
            0 <= i <= n,
            n == s@.len(),
            starts@.len() == split_dash(s@.take(i as int)).len(),
            starts@.len() >= 1,
            forall|k: int|
                #![trigger starts@[k]]
                0 <= k < starts@.len() ==> starts@[k] <= comp_end(starts@, k, i as int) <= i
                    && split_dash(s@.take(i as int))[k] == s@.subrange(
                    starts@[k] as int,
                    comp_end(starts@, k, i as int),
                ),
            forall|k: int| 0 < k < starts@.len() ==> starts@[k] >= 1,
        decreases n - i,
    {
        let c = s.get_char(i);
        assert(s@[i as int] == c);
        let ghost old_starts = starts@;
        let ghost prev = split_dash(s@.take(i as int));
        assert(s@.take(i + 1).drop_last() =~= s@.take(i as int));
        assert(s@.take(i + 1).last() == c);
        if c == '-' {
            starts.push(i + 1);
            assert forall|k: int| 0 <= k < starts@.len() implies starts@[k] <= comp_end(
                starts@,
                k,
                i + 1,
            ) <= i + 1 && split_dash(s@.take(i + 1))[k] == s@.subrange(
                starts@[k] as int,
                comp_end(starts@, k, i + 1),
            ) by {
                if k < old_starts.len() {
                    assert(old_starts[k] == starts@[k]);
                    assert(comp_end(starts@, k, i + 1) == comp_end(old_starts, k, i as int));
                } else {
                    assert(s@.subrange(i + 1, i + 1) =~= Seq::<char>::empty());
                }
            }
        } else {
            let ghost last = (starts@.len() - 1) as int;
            assert forall|k: int| 0 <= k < starts@.len() implies starts@[k] <= comp_end(
                starts@,
                k,
                i + 1,
            ) <= i + 1 && split_dash(s@.take(i + 1))[k] == s@.subrange(
                starts@[k] as int,
                comp_end(starts@, k, i + 1),
            ) by {
                if k == last {
                    assert(starts@[k] <= i);
                    assert(s@.subrange(starts@[k] as int, i + 1) =~= s@.subrange(
                        starts@[k] as int,
                        i as int,
                    ).push(c));
                } else {
                    assert(comp_end(starts@, k, i + 1) == comp_end(old_starts, k, i as int));
                }
            }
        }
        i = i + 1;
    }
    assert(s@.take(n as int) =~= s@);
    starts
}

impl Keystroke {
    /// The modifiers and key of this keystroke.
    pub open spec fn view_pair(&self) -> (Modifiers, Seq<char>) {
        (self.modifiers, self.key@)
    }

    /// Parses a description such as `ctrl-shift-a` with the conventions of
    /// Windows and Linux, where `secondary` is the control key.
    pub fn parse(source: &str) -> (r: Result<Keystroke, InvalidKeystrokeError>)
        ensures
            match r {
                Ok(k) => parse_spec(source@, KeyPlatform::Other) == Some(k.view_pair()),
                Err(e) => parse_spec(source@, KeyPlatform::Other) is None && e.keystroke@ == source@,
            },
    {
        Self::parse_on(source, KeyPlatform::Other)
    }

    /// Parses a description such as `cmd-shift-a` with the conventions of `platform`.
    /// Components are separated by `-`; every component before the last must name
    /// a modifier (`ctrl`, `alt`, `shift`, `fn`, `cmd`, `super`, `win`, or
    /// `secondary`, the command key on macOS and control elsewhere); the last is the
    /// key, and a trailing `-` stands for the dash key.
    pub fn parse_on(source: &str, platform: KeyPlatform) -> (r: Result<Keystroke, InvalidKeystrokeError>)
        ensures
            match r {
                Ok(k) => parse_spec(source@, platform) == Some(k.view_pair()),
                Err(e) => parse_spec(source@, platform) is None && e.keystroke@ == source@,
            },
    {
        let n = source.unicode_len();
        let starts = component_starts(source);
        let ends_with_dash = n > 0 && source.get_char(n - 1) == '-';
        let ghost cs = split_dash(source@);
        assert(ends_with_dash == (source@.len() > 0 && source@.last() == '-'));
        let len = starts.len();
        let mut m = Modifiers::none();
        let mut k: usize = 0;
        assert(cs.skip(0) =~= cs);
        while k < len
            invariant
                0 <= k <= len,
                len == starts@.len(),
                len == cs.len(),
                n == source@.len(),
                cs == split_dash(source@),
                ends_with_dash == (source@.len() > 0 && source@.last() == '-'),
                forall|j: int|
                    #![trigger starts@[j]]
                    0 <= j < starts@.len() ==> starts@[j] <= comp_end(starts@, j, n as int) <= n
                        && cs[j] == source@.subrange(starts@[j] as int, comp_end(starts@, j, n as int)),
                forall|j: int| 0 < j < starts@.len() ==> starts@[j] >= 1,
                parse_spec(source@, platform) == parse_components(
                    cs.skip(k as int),
                    ends_with_dash,
                    m,
                    platform,
                ),
            decreases len - k,
        {
            let end = if k + 1 < len { starts[k + 1] - 1 } else { n };
            let comp = source.substring_char(starts[k], end);
            assert(cs.skip(k as int)[0] == cs[k as int]);
            assert(cs.skip(k as int).drop_first() =~= cs.skip(k + 1));
            match apply_modifier(comp, m, platform) {
                Some(m2) => {
                    m = m2;
                    k = k + 1;
                },
                None => {
                    if k + 1 == len {
                        return Ok(Keystroke { modifiers: m, key: comp.to_owned() });
                    }
                    let next_end = if k + 2 < len { starts[k + 2] - 1 } else { n };
                    assert(cs.skip(k as int)[1] == cs[k + 1]);
                    if starts[k + 1] == next_end && ends_with_dash {
                        let dash = "-".to_owned();
                        return Ok(Keystroke { modifiers: m, key: dash });
                    } else {
                        return Err(InvalidKeystrokeError { keystroke: source.to_owned() });
                    }
                },
            }
        }
        assert(cs.skip(len as int).len() == 0);
        Err(InvalidKeystrokeError { keystroke: source.to_owned() })
    }
}

/// The labels of the held modifiers, in the platform's order: control, alt,
/// shift, then the platform key (`⌃⌥⇧⌘` on macOS, `Ctrl Alt Shift Win` elsewhere).
pub open spec fn modifier_labels(m: Modifiers, p: KeyPlatform) -> Seq<Seq<char>> {
    let mac = p == KeyPlatform::MacOs;
    (if m.control {
        seq![if mac { "⌃"@ } else { "Ctrl"@ }]
    } else {
        Seq::empty()
    }) + (if m.alt {
        seq![if mac { "⌥"@ } else { "Alt"@ }]
    } else {
        Seq::empty()
    }) + (if m.shift {
        seq![if mac { "⇧"@ } else { "Shift"@ }]
    } else {
        Seq::empty()
    }) + (if m.platform {
        seq![if mac { "⌘"@ } else { "Win"@ }]
    } else {
        Seq::empty()
    })
}

/// The part of a key's name that its label upper-cases: the whole name when it
/// is one byte long, else its first character (nothing for an empty name).
pub open spec fn upper_cased_part(key: Seq<char>) -> Seq<char> {
    if encode_utf8(key).len() == 1 { key } else if key.len() > 0 { key.take(1) } else { key }
}

/// The label of a key's name given `upper`, the upper-cased form of its
/// `upper_cased_part`: `upper` for a one-byte name, `upper` followed by the rest
/// of a longer name, the empty name unchanged.
pub open spec fn label_with_upper(key: Seq<char>, upper: Seq<char>) -> Seq<char> {
    if encode_utf8(key).len() == 1 {
        upper
    } else if key.len() > 0 {
        upper + key.skip(1)
    } else {
        key
    }
}

/// A key's name with its first character in upper case; a one-byte name is
/// upper-cased whole.
pub open spec fn default_key_label(key: Seq<char>) -> Seq<char> {
    label_with_upper(key, spec_to_uppercase(upper_cased_part(key)))
}

/// The label of a key's name other than a named key, given `upper`, the
/// upper-cased form of the name's `upper_cased_part` (the whole name when it is
/// one byte long, else its first character).
pub fn label_from_upper(key: &str, upper: &str) -> (r: String)
    ensures
        r@ == label_with_upper(key@, upper@),
{
    if key.as_bytes().len() == 1 {
        upper.to_owned()
    } else {
        let n = key.unicode_len();
        if n > 0 {
            let rest = key.substring_char(1, n);
            assert(rest@ =~= key@.skip(1));
            let mut s = upper.to_owned();
            s.append(rest);
            s
        } else {
            key.to_owned()
        }
    }
}

/// The label of a key on platform `p`.
pub open spec fn key_label(key: Seq<char>, p: KeyPlatform) -> Seq<char> {
    let mac = p == KeyPlatform::MacOs;
    if key == "ctrl"@ {
        if mac { "⌃"@ } else { "Ctrl"@ }
    } else if key == "alt"@ {
        if mac { "⌥"@ } else { "Alt"@ }
    } else if key == "shift"@ {
        if mac { "⇧"@ } else { "Shift"@ }
    } else if key == "cmd"@ {
        if mac { "⌘"@ } else { "Win"@ }
    } else if key == "space"@ && mac {
        "Space"@
    } else if key == "backspace"@ {
        if mac { "⌫"@ } else { "Backspace"@ }
    } else if key == "delete"@ {
        if mac { "⌫"@ } else { "Delete"@ }
    } else if key == "escape"@ {
        if mac { "⎋"@ } else { "Esc"@ }
    } else if key == "enter"@ {
        if mac { "⏎"@ } else { "Enter"@ }
    } else if key == "pagedown"@ {
        "Page Down"@
    } else if key == "pageup"@ {
        "Page Up"@
    } else if key == "left"@ {
        if mac { "←"@ } else { "Left"@ }
    } else if key == "right"@ {
        if mac { "→"@ } else { "Right"@ }
    } else if key == "up"@ {
        if mac { "↑"@ } else { "Up"@ }
    } else if key == "down"@ {
        if mac { "↓"@ } else { "Down"@ }
    } else {
        default_key_label(key)
    }
}

/// How a keystroke is written on platform `p`: the modifier labels and the key
/// label, without separators on macOS and joined with `+` elsewhere.
pub open spec fn format_spec(m: Modifiers, key: Seq<char>, p: KeyPlatform) -> Seq<char> {
    join_with(
        modifier_labels(m, p).push(key_label(key, p)),
        if p == KeyPlatform::MacOs { ""@ } else { "+"@ },
    )
}

/// A label showing a keyboard shortcut.
#[derive(Clone, Debug)]
pub struct Kbd {
    pub stroke: Keystroke,
    /// Whether the label is drawn as a key cap rather than as plain text.
    pub appearance: bool,
    /// Whether the key cap is drawn with an outline.
    pub outline: bool,
}

/// The label of one of `key`'s names, written for `platform`.
fn label_of_key(key: &str, platform: KeyPlatform) -> (r: String)
    ensures
        r@ == key_label(key@, platform),
{
    let mac = match platform {
        KeyPlatform::MacOs => true,
        KeyPlatform::Other => false,
    };
    if str_eq(key, "ctrl") {
        if mac { "⌃".to_owned() } else { "Ctrl".to_owned() }
    } else if str_eq(key, "alt") {
        if mac { "⌥".to_owned() } else { "Alt".to_owned() }
    } else if str_eq(key, "shift") {
        if mac { "⇧".to_owned() } else { "Shift".to_owned() }
    } else if str_eq(key, "cmd") {
        if mac { "⌘".to_owned() } else { "Win".to_owned() }
    } else if str_eq(key, "space") && mac {
        "Space".to_owned()
    } else if str_eq(key, "backspace") {
        if mac { "⌫".to_owned() } else { "Backspace".to_owned() }
    } else if str_eq(key, "delete") {
        if mac { "⌫".to_owned() } else { "Delete".to_owned() }
    } else if str_eq(key, "escape") {
        if mac { "⎋".to_owned() } else { "Esc".to_owned() }
    } else if str_eq(key, "enter") {
        if mac { "⏎".to_owned() } else { "Enter".to_owned() }
    } else if str_eq(key, "pagedown") {
        "Page Down".to_owned()
    } else if str_eq(key, "pageup") {
        "Page Up".to_owned()
    } else if str_eq(key, "left") {
        if mac { "←".to_owned() } else { "Left".to_owned() }
    } else if str_eq(key, "right") {
        if mac { "→".to_owned() } else { "Right".to_owned() }
    } else if str_eq(key, "up") {
        if mac { "↑".to_owned() } else { "Up".to_owned() }
    } else if str_eq(key, "down") {
        if mac { "↓".to_owned() } else { "Down".to_owned() }
    } else {
        let one_byte = key.as_bytes().len() == 1;
        assert(one_byte == (encode_utf8(key@).len() == 1));
        let upper = if one_byte {
            str_to_uppercase(key)
        } else {
            let n = key.unicode_len();
            let first = if n > 0 { key.substring_char(0, 1) } else { key.substring_char(0, 0) };
            assert(first@ =~= upper_cased_part(key@));
            str_to_uppercase(first)
        };
        label_from_upper(key, upper.as_str())
    }
}

impl Kbd {
    /// A key-cap label for `stroke`.
    pub fn new(stroke: Keystroke) -> (r: Kbd)
        ensures
            r.stroke == stroke,
            r.appearance,
            !r.outline,
    {
        Kbd { stroke, appearance: true, outline: false }
    }

    /// Sets whether the label is drawn as a key cap (the default) or as plain text.
    pub fn appearance(self, appearance: bool) -> (r: Kbd)
        ensures
            r.stroke == self.stroke,
            r.appearance == appearance,
            r.outline == self.outline,
    {
        Kbd { appearance, ..self }
    }

    /// Draws the key cap with an outline.
    pub fn outline(self) -> (r: Kbd)
        ensures
            r.stroke == self.stroke,
            r.appearance == self.appearance,
            r.outline,
    {
        Kbd { outline: true, ..self }
    }

    /// The label for the first keystroke of a binding, if the binding has one.
    pub fn from_binding(keystrokes: Vec<Keystroke>) -> (r: Option<Kbd>)
        ensures
            keystrokes@.len() == 0 ==> (r is None),
            keystrokes@.len() > 0 ==> (r matches Some(k) && k.stroke == keystrokes@[0] && k.appearance
                && !k.outline),
    {
        let mut keystrokes = keystrokes;
        if keystrokes.len() > 0 {
            let first = keystrokes.remove(0);
            Some(Kbd::new(first))
        } else {
            None
        }
    }

    /// Writes `key` as Windows and Linux show it, such as `Ctrl+Shift+A`.
    pub fn format(key: &Keystroke) -> (r: String)
        ensures
            r@ == format_spec(key.modifiers, key.key@, KeyPlatform::Other),
    {
        Self::format_on(key, KeyPlatform::Other)
    }

    /// Writes `key` as `platform` shows it: on macOS modifier symbols in the
    /// order `⌃⌥⇧⌘` followed by the key (`⌃⌘A`); elsewhere the names joined by
    /// `+` in the order `Ctrl+Alt+Shift+Win` (`Ctrl+Alt+A`).
    pub fn format_on(key: &Keystroke, platform: KeyPlatform) -> (r: String)
        ensures
            r@ == format_spec(key.modifiers, key.key@, platform),
    {
        let mac = match platform {
            KeyPlatform::MacOs => true,
            KeyPlatform::Other => false,
        };
        let m = key.modifiers;
        let mut parts: Vec<String> = Vec::new();
        if m.control {
            parts.push(if mac { "⌃".to_owned() } else { "Ctrl".to_owned() });
        }
        if m.alt {
            parts.push(if mac { "⌥".to_owned() } else { "Alt".to_owned() });
        }
        if m.shift {
            parts.push(if mac { "⇧".to_owned() } else { "Shift".to_owned() });
        }
        if m.platform {
            parts.push(if mac { "⌘".to_owned() } else { "Win".to_owned() });
        }
        let keys = label_of_key(key.key.as_str(), platform);
        parts.push(keys);
        assert(parts@.map_values(|p: String| p@) =~= modifier_labels(m, platform).push(
            key_label(key.key@, platform),
        ));
        if mac {
            join_strings(&parts, "")
        } else {
            join_strings(&parts, "+")
        }
    }

    /// The text that the label shows.
    pub fn text(&self) -> (r: String)
        ensures
            r@ == format_spec(self.stroke.modifiers, self.stroke.key@, KeyPlatform::Other),
    {
        Self::format(&self.stroke)
    }
}


impl From<Keystroke> for Kbd {
    /// The key cap of `stroke`, without outline.
    fn from(stroke: Keystroke) -> (r: Kbd)
        ensures
            r == (Kbd { stroke, appearance: true, outline: false }),
    {
        Kbd::new(stroke)
    }
}

impl vstd::std_specs::convert::FromSpecImpl<Keystroke> for Kbd {
    open spec fn obeys_from_spec() -> bool {
        true
    }

    open spec fn from_spec(v: Keystroke) -> Kbd {
        Kbd { stroke: v, appearance: true, outline: false }
    }
}

/// Where the shortcut of an action is looked up.
#[derive(Clone, Copy, Debug, PartialEq, Eq, Structural)]
pub enum BindingLookup {
    /// Among the bindings of the given key context.
    InContext,
    /// Among all bindings, by precedence.
    Global,
}

impl Kbd {
    /// Where the shortcut of an action is looked up, given whether a key
    /// context was named and whether it parses: in that context when it does,
    /// otherwise (no context, or one that does not parse) globally.
    pub fn binding_lookup(context_given: bool, context_parses: bool) -> (r: BindingLookup)
        ensures
            r == (if context_given && context_parses { BindingLookup::InContext } else { BindingLookup::Global }),
    {
        if context_given && context_parses {
            BindingLookup::InContext
        } else {
            BindingLookup::Global
        }
    }
}

/// The key cap a shortcut label is drawn in.
#[derive(Clone, Debug)]
pub struct KbdCap {
    pub text_color: ColorRecipe,
    pub background: ColorRecipe,
    /// The color of the one-pixel border, drawn only with an outline.
    pub border: Option<ColorRecipe>,
    /// The vertical and horizontal padding.
    pub padding_y: AbsoluteLength,
    pub padding_x: AbsoluteLength,
    pub min_width: AbsoluteLength,
    pub radius: Pixels,
    /// The text size, in thousandths of a rem.
    pub text_size: u32,
}

/// How a shortcut label is drawn: its text, and the key cap around it when it
/// has one (the text is then the cap's only child).
#[derive(Clone, Debug)]
pub struct KbdLook {
    pub text: String,
    pub cap: Option<KbdCap>,
}

impl Kbd {
    /// How the label is drawn on `platform`, given the theme's corner radius:
    /// without appearance, the plain text of the keystroke; with it, that text
    /// in a key cap in muted colors (with a border on the background color
    /// when outlined), padded by 1/8 rem vertically and 1/4 rem horizontally,
    /// at least 5/4 rem wide, rounded by half the theme's radius, in extra
    /// small text.
    pub fn look(&self, platform: KeyPlatform, theme_radius: Pixels) -> (r: KbdLook)
        ensures
            r.text@ == format_spec(self.stroke.modifiers, self.stroke.key@, platform),
            !self.appearance ==> (r.cap is None),
            self.appearance ==> (r.cap matches Some(c) && {
                &&& c.text_color@ == token(ThemeToken::MutedForeground)
                &&& c.background@ == (if self.outline { token(ThemeToken::Background) } else { token(ThemeToken::Muted) })
                &&& (c.border is Some) == self.outline
                &&& (c.border matches Some(b) ==> b@ == token(ThemeToken::Border))
                &&& c.padding_y == AbsoluteLength::Rems(125)
                &&& c.padding_x == AbsoluteLength::Rems(250)
                &&& c.min_width == AbsoluteLength::Rems(1250)
                &&& c.radius.0 == scaled_toward_zero(theme_radius.0 as int, 1, 2)
                &&& c.text_size == 750
            }),
    {
        let text = Self::format_on(&self.stroke, platform);
        if !self.appearance {
            return KbdLook { text, cap: None };
        }
        let background = if self.outline {
            ColorRecipe::token(ThemeToken::Background)
        } else {
            ColorRecipe::token(ThemeToken::Muted)
        };
        let border = if self.outline { Some(ColorRecipe::token(ThemeToken::Border)) } else { None };
        let cap = KbdCap {
            text_color: ColorRecipe::token(ThemeToken::MutedForeground),
            background,
            border,
            padding_y: AbsoluteLength::Rems(125),
            padding_x: AbsoluteLength::Rems(250),
            min_width: AbsoluteLength::Rems(1250),
            radius: half(theme_radius),
            text_size: 750,
        };
        KbdLook { text, cap: Some(cap) }
    }
}

/// The ASCII upper-case form of a character; other characters unchanged.
pub open spec fn ascii_upper(c: char) -> char {
    if 'a' <= c <= 'z' {
        ((c as int) - 32) as char
    } else {
        c
    }
}

/// A name with its first character in ASCII upper case.
pub open spec fn ascii_capitalized(s: Seq<char>) -> Seq<char> {
    if s.len() == 0 {
        s
    } else {
        seq![ascii_upper(s[0])] + s.skip(1)
    }
}

/// Whether `key` is the name of a key with a label of its own.
pub open spec fn is_named_key(key: Seq<char>) -> bool {
    key == "ctrl"@ || key == "alt"@ || key == "shift"@ || key == "cmd"@ || key == "backspace"@ || key == "delete"@ || key == "escape"@ || key == "enter"@ || key == "pagedown"@ || key == "pageup"@ || key == "left"@ || key == "right"@ || key == "up"@ || key == "down"@
}

/// Whether `key` is a named key that is labelled by a word outside macOS.
pub open spec fn is_word_key(key: Seq<char>) -> bool {
    key == "ctrl"@ || key == "alt"@ || key == "shift"@ || key == "backspace"@ || key == "delete"@ || key == "enter"@ || key == "left"@ || key == "right"@ || key == "up"@ || key == "down"@
}

/// The Unicode arrow symbols in their block's order, from `←` (U+2190): a
/// quarter turn clockwise per step, left, up, right, down.
pub open spec fn arrow_symbol(quarter_turns: int) -> char {
    (0x2190 + quarter_turns) as char
}

/// How many clockwise quarter turns from pointing left an arrow key's
/// direction is.
pub open spec fn arrow_turn(key: Seq<char>) -> int {
    if key == "left"@ { 0 } else if key == "up"@ { 1 } else if key == "right"@ { 2 } else { 3 }
}

/// Named keys are told apart by their labels: two different named keys get
/// different labels on either platform, except that macOS shows backspace and
/// delete alike (`⌫`). Outside macOS the label of a modifier, editing or arrow
/// key is its name capitalized (`right` is `Right`); on macOS an arrow key is
/// the arrow symbol pointing its way.
pub proof fn lemma_named_key_labels(a: Seq<char>, b: Seq<char>, p: KeyPlatform)
    requires
        is_named_key(a),
        is_named_key(b),
    ensures
        a != b && !(p == KeyPlatform::MacOs && (a == "backspace"@ || a == "delete"@) && (b == "backspace"@
            || b == "delete"@)) ==> key_label(a, p) != key_label(b, p),
        is_word_key(a) ==> key_label(a, KeyPlatform::Other) == ascii_capitalized(a),
        (a == "left"@ || a == "right"@ || a == "up"@ || a == "down"@) ==> key_label(a, KeyPlatform::MacOs)
            == seq![arrow_symbol(arrow_turn(a))],
{
    reveal_strlit("ctrl");
    reveal_strlit("alt");
    reveal_strlit("shift");
    reveal_strlit("cmd");
    reveal_strlit("backspace");
    reveal_strlit("delete");
    reveal_strlit("escape");
    reveal_strlit("enter");
    reveal_strlit("pagedown");
    reveal_strlit("pageup");
    reveal_strlit("left");
    reveal_strlit("right");
    reveal_strlit("up");
    reveal_strlit("down");
    reveal_strlit("⌃");
    reveal_strlit("Ctrl");
    reveal_strlit("⌥");
    reveal_strlit("Alt");
    reveal_strlit("⇧");
    reveal_strlit("Shift");
    reveal_strlit("⌘");
    reveal_strlit("Win");
    reveal_strlit("⌫");
    reveal_strlit("Backspace");
    reveal_strlit("Delete");
    reveal_strlit("⎋");
    reveal_strlit("Esc");
    reveal_strlit("⏎");
    reveal_strlit("Enter");
    reveal_strlit("Page Down");
    reveal_strlit("Page Up");
    reveal_strlit("←");
    reveal_strlit("Left");
    reveal_strlit("→");
    reveal_strlit("Right");
    reveal_strlit("↑");
    reveal_strlit("Up");
    reveal_strlit("↓");
    reveal_strlit("Down");
    reveal_strlit("space");
    reveal_strlit("Space");
    assert("space"@.len() == 5 && "space"@[0] == 's' && "space"@[1] == 'p');
    assert("shift"@[1] == 'h');
    assert("Space"@.len() == 5 && "Space"@[0] == 'S' && "Space"@[1] == 'p');
    assert("Shift"@[1] == 'h');
    assert("ctrl"@.len() == 4 && "ctrl"@[0] == 'c');
    assert("alt"@.len() == 3 && "alt"@[0] == 'a');
    assert("shift"@.len() == 5 && "shift"@[0] == 's');
    assert("cmd"@.len() == 3 && "cmd"@[0] == 'c');
    assert("backspace"@.len() == 9 && "backspace"@[0] == 'b');
    assert("delete"@.len() == 6 && "delete"@[0] == 'd');
    assert("escape"@.len() == 6 && "escape"@[0] == 'e');
    assert("enter"@.len() == 5 && "enter"@[0] == 'e');
    assert("pagedown"@.len() == 8 && "pagedown"@[0] == 'p');
    assert("pageup"@.len() == 6 && "pageup"@[0] == 'p');
    assert("left"@.len() == 4 && "left"@[0] == 'l');
    assert("right"@.len() == 5 && "right"@[0] == 'r');
    assert("up"@.len() == 2 && "up"@[0] == 'u');
    assert("down"@.len() == 4 && "down"@[0] == 'd');
    assert("⌃"@.len() == 1 && "⌃"@[0] == '⌃');
    assert("Ctrl"@.len() == 4 && "Ctrl"@[0] == 'C');
    assert("⌥"@.len() == 1 && "⌥"@[0] == '⌥');
    assert("Alt"@.len() == 3 && "Alt"@[0] == 'A');
    assert("⇧"@.len() == 1 && "⇧"@[0] == '⇧');
    assert("Shift"@.len() == 5 && "Shift"@[0] == 'S');
    assert("⌘"@.len() == 1 && "⌘"@[0] == '⌘');
    assert("Win"@.len() == 3 && "Win"@[0] == 'W');
    assert("⌫"@.len() == 1 && "⌫"@[0] == '⌫');
    assert("Backspace"@.len() == 9 && "Backspace"@[0] == 'B');
    assert("Delete"@.len() == 6 && "Delete"@[0] == 'D');
    assert("⎋"@.len() == 1 && "⎋"@[0] == '⎋');
    assert("Esc"@.len() == 3 && "Esc"@[0] == 'E');
    assert("⏎"@.len() == 1 && "⏎"@[0] == '⏎');
    assert("Enter"@.len() == 5 && "Enter"@[0] == 'E');
    assert("Page Down"@.len() == 9 && "Page Down"@[0] == 'P');
    assert("Page Up"@.len() == 7 && "Page Up"@[0] == 'P');
    assert("←"@.len() == 1 && "←"@[0] == '←');
    assert("Left"@.len() == 4 && "Left"@[0] == 'L');
    assert("→"@.len() == 1 && "→"@[0] == '→');
    assert("Right"@.len() == 5 && "Right"@[0] == 'R');
    assert("↑"@.len() == 1 && "↑"@[0] == '↑');
    assert("Up"@.len() == 2 && "Up"@[0] == 'U');
    assert("↓"@.len() == 1 && "↓"@[0] == '↓');
    assert("Down"@.len() == 4 && "Down"@[0] == 'D');
}

} // verus!
