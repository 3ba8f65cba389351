use std::ops::Range;
use rgpui::label::{HighlightRole, HighlightsMatch, Label};

fn ranges(label: &Label, total: usize) -> Vec<Range<usize>> {
    label.highlight_ranges(total).unwrap()
}

#[test]
fn test_highlight_ranges() {
    let label = Label::new("Hello World");
    let result = ranges(&label, "Hello World".len());
    assert_eq!(result, Vec::<Range<usize>>::new());

    let label = Label::new("Hello").secondary("World");
    let total_length = "Hello World".len();
    let result = ranges(&label, total_length);
    assert_eq!(result.len(), 2);
    assert_eq!(result[0], 0..5);
    assert_eq!(result[1], 5..11);

    let label = Label::new("Hello World").highlights(HighlightsMatch::full("WORLD"));
    let result = ranges(&label, "Hello World".len());
    assert_eq!(result.len(), 1);
    assert_eq!(result[0], 6..11);

    let label = Label::new("Hello Hello Hello").highlights(HighlightsMatch::full("Hello"));
    let result = ranges(&label, "Hello Hello Hello".len());
    assert_eq!(result.len(), 3);
    assert_eq!(result[0], 0..5);
    assert_eq!(result[1], 6..11);
    assert_eq!(result[2], 12..17);

    let label = Label::new("Hello World").highlights(HighlightsMatch::full("xyz"));
    let result = ranges(&label, "Hello World".len());
    assert_eq!(result, Vec::<Range<usize>>::new());

    let label = Label::new("Hello World").highlights(HighlightsMatch::full(""));
    let result = ranges(&label, "Hello World".len());
    assert_eq!(result, Vec::<Range<usize>>::new());

    let label = Label::new("Hello").secondary("World").highlights(HighlightsMatch::full("llo"));
    let total_length = "Hello World".len();
    let result = ranges(&label, total_length);
    assert_eq!(result.len(), 3);
    assert_eq!(result[0], 0..5);
    assert_eq!(result[1], 5..11);
    assert_eq!(result[2], 2..5);

    let label = Label::new("Hello").secondary("World").highlights(HighlightsMatch::full("World"));
    let total_length = "Hello World".len();
    let result = ranges(&label, total_length);
    assert_eq!(result.len(), 3);
    assert_eq!(result[0], 0..5);
    assert_eq!(result[1], 5..11);
    assert_eq!(result[2], 6..11);

    let label = Label::new("Hello").secondary("World").highlights(HighlightsMatch::full("o W"));
    let total_length = "Hello World".len();
    let result = ranges(&label, total_length);
    assert_eq!(result.len(), 3);
    assert_eq!(result[0], 0..5);
    assert_eq!(result[1], 5..11);
    assert_eq!(result[2], 4..7);

    let label = Label::new("aaaa").highlights(HighlightsMatch::full("aa"));
    let result = ranges(&label, "aaaa".len());
    assert!(result.len() >= 2);
    assert_eq!(result[0], 0..2);
    assert_eq!(result[1], 1..3);

    let label = Label::new("你好世界，Hello World").highlights(HighlightsMatch::full("世界"));
    let result = ranges(&label, "你好世界，Hello World".len());
    assert_eq!(result.len(), 1);
    let text = "你好世界，Hello World";
    let start = text.find("世界").unwrap();
    let end = start + "世界".len();
    assert_eq!(result[0], start..end);
}

#[test]
fn test_highlight_ranges_prefix() {
    let label = Label::new("aaaa").highlights(HighlightsMatch::prefix("aa"));
    let result = ranges(&label, "aaaa".len());
    assert_eq!(result.len(), 1);
    assert_eq!(result[0], 0..2);

    let label_full = Label::new("Hello Hello").highlights(HighlightsMatch::full("Hello"));
    let result_full = ranges(&label_full, "Hello Hello".len());
    assert_eq!(result_full.len(), 2);

    let label_prefix = Label::new("Hello Hello").highlights(HighlightsMatch::prefix("Hello"));
    let result_prefix = ranges(&label_prefix, "Hello Hello".len());
    assert_eq!(result_prefix.len(), 1);
    assert_eq!(result_prefix[0], 0..5);

    let label = Label::new("Hello hello HELLO").highlights(HighlightsMatch::prefix("hello"));
    let result = ranges(&label, "Hello hello HELLO".len());
    assert_eq!(result.len(), 1);
    assert_eq!(result[0], 0..5);

    let label = Label::new("Hello World").highlights(HighlightsMatch::prefix("xyz"));
    let result = ranges(&label, "Hello World".len());
    assert_eq!(result.len(), 0);

    let label = Label::new("Hello World").highlights(HighlightsMatch::prefix(""));
    let result = ranges(&label, "Hello World".len());
    assert_eq!(result.len(), 0);

    let label = Label::new("Hello").secondary("Hello World").highlights(HighlightsMatch::prefix("Hello"));
    let total_length = "Hello Hello World".len();
    let result = ranges(&label, total_length);
    assert_eq!(result.len(), 3);
    assert_eq!(result[0], 0..5);
    assert_eq!(result[1], 5..17);
    assert_eq!(result[2], 0..5);

    let label = Label::new("abc").secondary("def abc def").highlights(HighlightsMatch::prefix("abc"));
    let total_length = "abc def abc def".len();
    let result = ranges(&label, total_length);
    assert_eq!(result.len(), 3);
    assert_eq!(result[0], 0..3);
    assert_eq!(result[1], 3..15);
    assert_eq!(result[2], 0..3);

    let label = Label::new("你好世界你好").highlights(HighlightsMatch::prefix("你好"));
    let result = ranges(&label, "你好世界你好".len());
    assert_eq!(result.len(), 1);
    assert_eq!(result[0], 0..6);

    let label = Label::new("abababab").highlights(HighlightsMatch::prefix("abab"));
    let result = ranges(&label, "abababab".len());
    assert_eq!(result.len(), 1);
    assert_eq!(result[0], 0..4);

    let label = Label::new("xyz Hello abc Hello").highlights(HighlightsMatch::prefix("Hello"));
    let result = ranges(&label, "xyz Hello abc Hello".len());
    assert_eq!(result.len(), 0);

    let prefix_match = HighlightsMatch::prefix("test");
    let full_match = HighlightsMatch::full("test");
    assert!(prefix_match.is_prefix());
    assert!(!full_match.is_prefix());

    let prefix_match = HighlightsMatch::prefix("test");
    assert_eq!(prefix_match.as_str(), "test");
}

#[test]
fn full_text_masking_and_roles() {
    let label = Label::new("Hello").secondary("World");
    assert_eq!(label.full_text(), "Hello World");
    assert_eq!(label.clone().masked(true).display_text(), "•••••••••••");
    assert_eq!(label.display_text(), "Hello World");
    let hl = label.clone().highlights(HighlightsMatch::full("llo")).measure_highlights(11).unwrap().unwrap();
    assert_eq!(hl.len(), 3);
    assert_eq!(hl[0], (0..5, HighlightRole::Main));
    assert_eq!(hl[1], (5..11, HighlightRole::Secondary));
    assert_eq!(hl[2], (2..5, HighlightRole::Matched));
    assert_eq!(Label::new("x").measure_highlights(1).unwrap(), None);
}

#[test]
fn lowercasing_that_changes_lengths_is_reported() {
    // 'İ' lower-cases to two characters, three bytes instead of two.
    let label = Label::new("İİab").highlights(HighlightsMatch::full("ab"));
    let r = label.highlight_ranges("İİab".len());
    // The search either finds the match (byte positions of the lower-cased text)
    // or reports the character-boundary problem; it never panics.
    match r {
        Ok(v) => assert!(v.iter().all(|x| x.start <= x.end)),
        Err(_) => {}
    }
}

#[test]
fn highlights_match_from_str_is_full() {
    let m: HighlightsMatch = "abc".into();
    assert_eq!(m, HighlightsMatch::full("abc"));
}
