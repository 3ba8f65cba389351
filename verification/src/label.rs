//! A text label with optional secondary text, masking and highlighted matches.
use vstd::prelude::*;
use vstd::utf8::{encode_utf8, is_char_boundary};
use std::ops::Range;
use crate::text::{spec_to_lowercase, str_to_lowercase};

verus! {

/// How the highlighted text of a label is matched, ignoring case.
#[derive(Clone, Debug, PartialEq, Eq)]
pub enum HighlightsMatch {
    /// Only at the start of the label's text.
    Prefix(String),
    /// Everywhere in the label's text, overlapping matches included.
    Full(String),
}

impl HighlightsMatch {
    pub open spec fn text_spec(&self) -> Seq<char> {
        match self {
            HighlightsMatch::Prefix(s) => s@,
            HighlightsMatch::Full(s) => s@,
        }
    }

    pub open spec fn is_prefix_spec(&self) -> bool {
        self is Prefix
    }

    /// The text to match.
    pub fn as_str(&self) -> (r: &str)
        ensures
            r@ == self.text_spec(),
    {
        match self {
            HighlightsMatch::Prefix(s) => s.as_str(),
            HighlightsMatch::Full(s) => s.as_str(),
        }
    }

    /// Whether only a match at the start counts.
    pub fn is_prefix(&self) -> (r: bool)
        ensures
            r == self.is_prefix_spec(),
    {
        match self {
            HighlightsMatch::Prefix(_) => true,
            HighlightsMatch::Full(_) => false,
        }
    }

    /// A match everywhere in the text.
    pub fn full(text: &str) -> (r: HighlightsMatch)
        ensures
            r matches HighlightsMatch::Full(s) && s@ == text@,
    {
        HighlightsMatch::Full(text.to_owned())
    }

    /// A match at the start of the text only.
    pub fn prefix(text: &str) -> (r: HighlightsMatch)
        ensures
            r matches HighlightsMatch::Prefix(s) && s@ == text@,
    {
        HighlightsMatch::Prefix(text.to_owned())
    }
}

/// The role of a highlighted range, which the renderer gives a color.
#[derive(Clone, Copy, Debug, PartialEq, Eq, Structural)]
pub enum HighlightRole {
    /// The main text, in the default style.
    Main,
    /// The secondary text, in the muted foreground color.
    Secondary,
    /// A match of the highlighted text, in the accent color.
    Matched,
}

/// The search for highlighted text would slice the lower-cased text inside a
/// character.
#[derive(Clone, Copy, Debug, PartialEq, Eq, Structural)]
pub struct CharBoundaryError;

/// A label: main text, optional secondary text shown after it in a muted color,
/// optional masking, and optional highlighted matches.
#[derive(Clone, Debug)]
pub struct Label {
    pub label: String,
    pub secondary: Option<String>,
    pub masked: bool,
    pub highlights_text: Option<HighlightsMatch>,
}

/// The text a label shows: the main text, then a space and the secondary text.
pub open spec fn full_text_spec(label: Seq<char>, secondary: Option<Seq<char>>) -> Seq<char> {
    match secondary {
        Some(s) => label + seq![' '] + s,
        None => label,
    }
}

/// `needle` occurs in `hay` at byte `p`.
pub open spec fn occurs_at(hay: Seq<u8>, needle: Seq<u8>, p: int) -> bool {
    0 <= p && p + needle.len() <= hay.len() && hay.subrange(p, p + needle.len()) == needle
}

/// The first byte at or after `start` where `needle` occurs in `hay`.
pub open spec fn find_from(hay: Seq<u8>, needle: Seq<u8>, start: int) -> Option<int>
    decreases hay.len() - start,
{
    if start < 0 || start + needle.len() > hay.len() {
        None
    } else if occurs_at(hay, needle, start) {
        Some(start)
    } else if start >= hay.len() {
        None
    } else {
        find_from(hay, needle, start + 1)
    }
}

/// The first position at or after `s` that is a character boundary of `bytes`
/// or lies at or past its end.
pub open spec fn next_boundary(bytes: Seq<u8>, s: int) -> int
    decreases bytes.len() - s,
{
    if s >= bytes.len() || is_char_boundary(bytes, s) {
        s
    } else {
        next_boundary(bytes, s + 1)
    }
}

/// The matches of `needle` in `lower` from byte `start` on, as byte ranges of
/// length `matched_len` that end within `full`; after a match at `p` the search
/// resumes at the first character boundary of `full` after `p`. `None` where the
/// search would have to slice `lower` inside a character.
pub open spec fn scan_matches(
    lower: Seq<u8>,
    needle: Seq<u8>,
    full: Seq<u8>,
    matched_len: int,
    start: int,
) -> Option<Seq<(int, int)>>
    decreases full.len() - start,
{
    if !(0 <= start <= lower.len() && is_char_boundary(lower, start)) {
        None
    } else {
        match find_from(lower, needle, start) {
            None => Some(Seq::empty()),
            Some(p) => {
                let head: Seq<(int, int)> = if p + matched_len <= full.len() {
                    seq![(p, p + matched_len)]
                } else {
                    Seq::empty()
                };
                let s2 = next_boundary(full, p + 1);
                if s2 >= full.len() || s2 <= start {
                    Some(head)
                } else {
                    match scan_matches(lower, needle, full, matched_len, s2) {
                        None => None,
                        Some(rest) => Some(head + rest),
                    }
                }
            },
        }
    }
}

/// The ranges that a label highlights, given the text it shows: the main and
/// secondary ranges when there is secondary text, then the matches of the
/// highlighted text, compared in lower case. `None` where the search would have to
/// slice the lower-cased text inside a character.
pub open spec fn highlight_ranges_spec(
    label: Seq<char>,
    secondary: Option<Seq<char>>,
    highlights: Option<(bool, Seq<char>)>,
    total_length: int,
) -> Option<Seq<(int, int)>> {
    let n = encode_utf8(label).len() as int;
    let base: Seq<(int, int)> = if secondary is Some {
        seq![(0, n), (n, total_length)]
    } else {
        Seq::empty()
    };
    match highlights {
        None => Some(base),
        Some((is_prefix, m)) => if m.len() == 0 {
            Some(base)
        } else {
            let full = full_text_spec(label, secondary);
            let lower = encode_utf8(spec_to_lowercase(full));
            let needle = encode_utf8(spec_to_lowercase(m));
            let mlen = encode_utf8(m).len() as int;
            if is_prefix {
                if needle.len() <= lower.len() && lower.take(needle.len() as int) == needle {
                    Some(base.push((0, mlen)))
                } else {
                    Some(base)
                }
            } else {
                match scan_matches(lower, needle, encode_utf8(full), mlen, 0) {
                    None => None,
                    Some(found) => Some(base + found),
                }
            }
        },
    }
}

/// The ranges as pairs of integers.
pub open spec fn ranges_view(r: Seq<Range<usize>>) -> Seq<(int, int)> {
    r.map_values(|x: Range<usize>| (x.start as int, x.end as int))
}

/// `n` copies of `s` one after another.
pub open spec fn repeat_seq(s: Seq<char>, n: nat) -> Seq<char>
    decreases n,
{
    if n == 0 {
        Seq::empty()
    } else {
        repeat_seq(s, (n - 1) as nat) + s
    }
}

/// The first byte at or after `start` where `needle` occurs in `hay`.
fn find_bytes(hay: &[u8], needle: &[u8], start: usize) -> (r: Option<usize>)
    ensures
        r is None ==> find_from(hay@, needle@, start as int) is None,
        r matches Some(q) ==> find_from(hay@, needle@, start as int) == Some(q as int),
    decreases hay@.len() - start,
{
    if start > hay.len() || needle.len() > hay.len() - start {
        return None;
    }
    let hl = hay.len();
    let mut j: usize = 0;
    while j < needle.len()
        invariant
            0 <= j <= needle@.len(),
            hl == hay@.len(),
            start + needle@.len() <= hl,
            forall|k: int| 0 <= k < j ==> hay@[start + k] == needle@[k],
        decreases needle@.len() - j,
    {
        if hay[start + j] != needle[j] {
            proof {
                assert(hay@.subrange(start as int, start + needle@.len())[j as int] != needle@[j as int]);
            }
            return find_bytes(hay, needle, start + 1);
        }
        j = j + 1;
    }
    assert(hay@.subrange(start as int, start + needle@.len()) =~= needle@);
    Some(start)
}

/// The first position at or after `s` that is a character boundary of `text`
/// or lies at or past its end.
fn next_char_boundary(text: &str, start: usize) -> (r: usize)
    ensures
        r == next_boundary(encode_utf8(text@), start as int),
{
    let len = text.as_bytes().len();
    let mut s = start;
    while s < len && !text.is_char_boundary(s)
        invariant
            start <= s,
            len == encode_utf8(text@).len(),
            next_boundary(encode_utf8(text@), s as int) == next_boundary(
                encode_utf8(text@),
                start as int,
            ),
        decreases len - s,
    {
        s = s + 1;
    }
    s
}

/// The highlighted matches in `full`, searched in its lower-cased bytes `lower`
/// for `needle_lower`; each range is `matched_len` bytes long. `Err` where the
/// search would slice `lower` inside a character.
pub fn search_highlights(full: &str, lower: &str, needle_lower: &str, matched_len: usize) -> (r: Result<Vec<Range<usize>>, CharBoundaryError>)
    ensures
        match scan_matches(
            encode_utf8(lower@),
            encode_utf8(needle_lower@),
            encode_utf8(full@),
            matched_len as int,
            0,
        ) {
            None => r is Err,
            Some(found) => r matches Ok(v) && ranges_view(v@) == found,
        },
{
    let fb = full.as_bytes();
    let lb = lower.as_bytes();
    let nb = needle_lower.as_bytes();
    let ghost spec_full = encode_utf8(full@);
    let ghost spec_lower = encode_utf8(lower@);
    let ghost spec_needle = encode_utf8(needle_lower@);
    let mut ranges: Vec<Range<usize>> = Vec::new();
    let mut search_start: usize = 0;
    let flen = fb.len();
    loop
        invariant_except_break
            scan_matches(spec_lower, spec_needle, spec_full, matched_len as int, 0) == match scan_matches(
                spec_lower,
                spec_needle,
                spec_full,
                matched_len as int,
                search_start as int,
            ) {
                None => None,
                Some(rest) => Some(ranges_view(ranges@) + rest),
            },
        invariant
            flen == spec_full.len(),
            fb@ == spec_full,
            lb@ == spec_lower,
            nb@ == spec_needle,
            spec_full == encode_utf8(full@),
            spec_lower == encode_utf8(lower@),
            spec_needle == encode_utf8(needle_lower@),
        ensures
            match scan_matches(spec_lower, spec_needle, spec_full, matched_len as int, 0) {
                None => false,
                Some(found) => ranges_view(ranges@) == found,
            },
        decreases spec_full.len() - search_start,
    {
        let ghost cur = scan_matches(spec_lower, spec_needle, spec_full, matched_len as int, search_start as int);
        if search_start > lb.len() {
            assert(cur is None);
            return Err(CharBoundaryError);
        }
        let on_boundary = lower.is_char_boundary(search_start);
        assert(on_boundary == is_char_boundary(spec_lower, search_start as int));
        if !on_boundary {
            assert(cur is None);
            return Err(CharBoundaryError);
        }
        let ghost before = ranges@;
        match find_bytes(lb, nb, search_start) {
            None => {
                assert(cur == Some(Seq::<(int, int)>::empty()));
                assert(ranges_view(ranges@) + Seq::<(int, int)>::empty() =~= ranges_view(ranges@));
                break;
            },
            Some(p) => {
                let ghost head: Seq<(int, int)> = if p + matched_len <= spec_full.len() {
                    seq![(p as int, p + matched_len)]
                } else {
                    Seq::empty()
                };
                let end = p.checked_add(matched_len);
                match end {
                    Some(e) => {
                        if e <= fb.len() {
                            ranges.push(p..e);
                            assert(ranges_view(ranges@) =~= ranges_view(before).push((p as int, e as int)));
                        } else {
                            assert(ranges_view(ranges@) =~= ranges_view(before));
                        }
                    },
                    None => {
                        assert(ranges_view(ranges@) =~= ranges_view(before));
                    },
                }
                assert(ranges_view(ranges@) =~= ranges_view(before) + head);
                if p >= fb.len() {
                    assert(next_boundary(spec_full, p + 1) == p + 1);
                    assert(cur == Some(head));
                    break;
                }
                let s2 = next_char_boundary(full, p + 1);
                if s2 >= fb.len() || s2 <= search_start {
                    assert(find_from(spec_lower, spec_needle, search_start as int) == Some(p as int));
                    assert(next_boundary(spec_full, p + 1) == s2);
                    assert(0 <= search_start <= spec_lower.len() && is_char_boundary(spec_lower, search_start as int));
                    assert(cur == Some(head));
                    break;
                }
                let ghost nxt = scan_matches(spec_lower, spec_needle, spec_full, matched_len as int, s2 as int);
                assert(cur == match nxt {
                    None => None,
                    Some(rest) => Some(head + rest),
                });
                assert forall|rest: Seq<(int, int)>| true implies ranges_view(before) + (head + rest)
                    =~= ranges_view(ranges@) + rest by {}
                search_start = s2;
            },
        }
    }
    Ok(ranges)
}

impl Label {
    pub open spec fn secondary_view(&self) -> Option<Seq<char>> {
        match self.secondary {
            Some(s) => Some(s@),
            None => None,
        }
    }

    pub open spec fn highlights_view(&self) -> Option<(bool, Seq<char>)> {
        match self.highlights_text {
            Some(h) => Some((h.is_prefix_spec(), h.text_spec())),
            None => None,
        }
    }

    /// A label showing `label`.
    pub fn new(label: &str) -> (r: Label)
        ensures
            r.label@ == label@,
            r.secondary is None,
            !r.masked,
            r.highlights_text is None,
    {
        Label { label: label.to_owned(), secondary: None, masked: false, highlights_text: None }
    }

    /// Sets the secondary text, shown after the main text in a muted color.
    pub fn secondary(self, secondary: &str) -> (r: Label)
        ensures
            r.label == self.label,
            r.secondary_view() == Some(secondary@),
            r.masked == self.masked,
            r.highlights_text == self.highlights_text,
    {
        Label { secondary: Some(secondary.to_owned()), ..self }
    }

    /// Sets whether the text is masked.
    pub fn masked(self, masked: bool) -> (r: Label)
        ensures
            r.label == self.label,
            r.secondary == self.secondary,
            r.masked == masked,
            r.highlights_text == self.highlights_text,
    {
        Label { masked, ..self }
    }

    /// Sets the text whose matches are highlighted.
    pub fn highlights(self, text: HighlightsMatch) -> (r: Label)
        ensures
            r.label == self.label,
            r.secondary == self.secondary,
            r.masked == self.masked,
            r.highlights_text == Some(text),
    {
        Label { highlights_text: Some(text), ..self }
    }

    /// The text the label shows: the main text, then a space and the secondary text.
    pub fn full_text(&self) -> (r: String)
        ensures
            r@ == full_text_spec(self.label@, self.secondary_view()),
    {
        match &self.secondary {
            Some(secondary) => {
                let mut s = self.label.clone();
                s.append(" ");
                s.append(secondary.as_str());
                proof {
                    reveal_strlit(" ");
                }
                assert(s@ =~= self.label@ + seq![' '] + secondary@);
                s
            },
            None => self.label.clone(),
        }
    }

    /// The byte ranges to highlight: with secondary text, first the main text
    /// `0..len(label)` and the secondary text `len(label)..total_length`; then the
    /// matches of the highlighted text, ignoring case: only at the start for a
    /// prefix match, everywhere (overlapping too) for a full match. `Err` where the
    /// search would have to slice the lower-cased text inside a character.
    pub fn highlight_ranges(&self, total_length: usize) -> (r: Result<Vec<Range<usize>>, CharBoundaryError>)
        ensures
            match highlight_ranges_spec(
                self.label@,
                self.secondary_view(),
                self.highlights_view(),
                total_length as int,
            ) {
                None => r is Err,
                Some(rs) => r matches Ok(v) && ranges_view(v@) == rs,
            },
    {
        let mut ranges: Vec<Range<usize>> = Vec::new();
        let n = self.label.as_str().as_bytes().len();
        if self.secondary.is_some() {
            ranges.push(0..n);
            ranges.push(n..total_length);
        }
        let ghost base = ranges_view(ranges@);
        assert(base =~= (if self.secondary is Some {
            seq![(0int, n as int), (n as int, total_length as int)]
        } else {
            Seq::<(int, int)>::empty()
        }));
        match &self.highlights_text {
            None => Ok(ranges),
            Some(matched) => {
                let matched_str = matched.as_str();
                if matched_str.is_empty() {
                    return Ok(ranges);
                }
                let full_text = self.full_text();
                let search_lower = str_to_lowercase(matched_str);
                let full_text_lower = str_to_lowercase(full_text.as_str());
                let mlen = matched_str.as_bytes().len();
                if matched.is_prefix() {
                    if starts_with_bytes(full_text_lower.as_str().as_bytes(), search_lower.as_str().as_bytes()) {
                        ranges.push(0..mlen);
                    }
                    assert(ranges_view(ranges@) =~= (if encode_utf8(spec_to_lowercase(full_text@)).len()
                        >= encode_utf8(spec_to_lowercase(matched_str@)).len() && encode_utf8(
                        spec_to_lowercase(full_text@),
                    ).take(encode_utf8(spec_to_lowercase(matched_str@)).len() as int)
                        == encode_utf8(spec_to_lowercase(matched_str@)) {
                        base.push((0, mlen as int))
                    } else {
                        base
                    }));
                    Ok(ranges)
                } else {
                    match search_highlights(full_text.as_str(), full_text_lower.as_str(), search_lower.as_str(), mlen) {
                        Err(e) => Err(e),
                        Ok(found) => {
                            let ghost fv = ranges_view(found@);
                            let mut out = ranges;
                            let mut i: usize = 0;
                            while i < found.len()
                                invariant
                                    0 <= i <= found@.len(),
                                    fv == ranges_view(found@),
                                    ranges_view(out@) == base + fv.take(i as int),
                                decreases found@.len() - i,
                            {
                                let rg = found[i].start..found[i].end;
                                let ghost old_out = out@;
                                out.push(rg);
                                assert(fv.take(i + 1) =~= fv.take(i as int).push(fv[i as int]));
                                assert(ranges_view(out@) =~= ranges_view(old_out).push(fv[i as int]));
                                i = i + 1;
                            }
                            assert(fv.take(found@.len() as int) =~= fv);
                            Ok(out)
                        },
                    }
                }
            },
        }
    }

    /// The highlighted ranges with their roles, or `None` when nothing is
    /// highlighted: the main and secondary ranges first when there is secondary
    /// text, then every match.
    pub fn measure_highlights(&self, length: usize) -> (r: Result<Option<Vec<(Range<usize>, HighlightRole)>>, CharBoundaryError>)
        ensures
            match highlight_ranges_spec(
                self.label@,
                self.secondary_view(),
                self.highlights_view(),
                length as int,
            ) {
                None => r is Err,
                Some(rs) => r matches Ok(o) && (rs.len() == 0 ==> o is None) && (rs.len() > 0 ==> (
                o matches Some(v) && v@.len() == rs.len() && forall|i: int|
                    0 <= i < rs.len() ==> (#[trigger] v@[i]).0.start == rs[i].0 && v@[i].0.end
                        == rs[i].1 && v@[i].1 == (if self.secondary is Some && i == 0 {
                        HighlightRole::Main
                    } else if self.secondary is Some && i == 1 {
                        HighlightRole::Secondary
                    } else {
                        HighlightRole::Matched
                    }))),
            },
    {
        let ranges = match self.highlight_ranges(length) {
            Err(e) => {
                return Err(e);
            },
            Ok(v) => v,
        };
        let ghost rs = ranges_view(ranges@);
        if ranges.len() == 0 {
            return Ok(None);
        }
        let has_secondary = self.secondary.is_some();
        let mut out: Vec<(Range<usize>, HighlightRole)> = Vec::new();
        let mut i: usize = 0;
        while i < ranges.len()
            invariant
                0 <= i <= ranges@.len(),
                rs == ranges_view(ranges@),
                has_secondary == self.secondary is Some,
                out@.len() == i,
                forall|k: int|
                    0 <= k < i ==> (#[trigger] out@[k]).0.start == rs[k].0 && out@[k].0.end
                        == rs[k].1 && out@[k].1 == (if has_secondary && k == 0 {
                        HighlightRole::Main
                    } else if has_secondary && k == 1 {
                        HighlightRole::Secondary
                    } else {
                        HighlightRole::Matched
                    }),
            decreases ranges@.len() - i,
        {
            let role = if has_secondary && i == 0 {
                HighlightRole::Main
            } else if has_secondary && i == 1 {
                HighlightRole::Secondary
            } else {
                HighlightRole::Matched
            };
            let rg = ranges[i].start..ranges[i].end;
            out.push((rg, role));
            i = i + 1;
        }
        Ok(Some(out))
    }

    /// The text drawn: the full text, or one `•` per character when masked.
    pub fn display_text(&self) -> (r: String)
        ensures
            !self.masked ==> r@ == full_text_spec(self.label@, self.secondary_view()),
            self.masked ==> r@ == repeat_seq(
                "•"@,
                full_text_spec(self.label@, self.secondary_view()).len(),
            ),
    {
        let text = self.full_text();
        if !self.masked {
            return text;
        }
        let count = text.as_str().unicode_len();
        let mut out = String::new();
        let mut i: usize = 0;
        while i < count
            invariant
                0 <= i <= count,
                out@ == repeat_seq("•"@, i as nat),
            decreases count - i,
        {
            out.append("•");
            i = i + 1;
        }
        out
    }
}

/// Whether `bytes` starts with `prefix`.
fn starts_with_bytes(bytes: &[u8], prefix: &[u8]) -> (r: bool)
    ensures
        r == (prefix@.len() <= bytes@.len() && bytes@.take(prefix@.len() as int) == prefix@),
{
    if prefix.len() > bytes.len() {
        return false;
    }
    let mut i: usize = 0;
    while i < prefix.len()
        invariant
            0 <= i <= prefix@.len(),
            prefix@.len() <= bytes@.len(),
            forall|k: int| 0 <= k < i ==> bytes@[k] == prefix@[k],
        decreases prefix@.len() - i,
    {
        if bytes[i] != prefix[i] {
            assert(bytes@.take(prefix@.len() as int)[i as int] != prefix@[i as int]);
            return false;
        }
        i = i + 1;
    }
    assert(bytes@.take(prefix@.len() as int) =~= prefix@);
    true
}

impl<'a> From<&'a str> for HighlightsMatch {
    /// Highlights every occurrence of `value`.
    fn from(value: &'a str) -> (r: HighlightsMatch)
        ensures
            r matches HighlightsMatch::Full(s) && s@ == value@,
    {
        HighlightsMatch::Full(value.to_owned())
    }
}

impl<'a> vstd::std_specs::convert::FromSpecImpl<&'a str> for HighlightsMatch {
    open spec fn obeys_from_spec() -> bool {
        false
    }

    open spec fn from_spec(v: &'a str) -> HighlightsMatch {
        HighlightsMatch::Full(choose|s: String| #![trigger s@] s@ == v@)
    }
}

} // verus!
