use jwtter::token::split_segments;

fn owned(parts: &[&str]) -> Vec<String> {
    parts.iter().map(|part| part.to_string()).collect()
}

#[test]
fn empty_text_is_one_empty_segment() {
    assert_eq!(split_segments(""), owned(&[""]));
}

#[test]
fn text_without_separator_is_one_segment() {
    assert_eq!(split_segments("header"), owned(&["header"]));
}

#[test]
fn three_segments_are_split_in_order() {
    assert_eq!(split_segments("aa.bbb.c"), owned(&["aa", "bbb", "c"]));
}

#[test]
fn empty_segments_count() {
    assert_eq!(split_segments("."), owned(&["", ""]));
    assert_eq!(split_segments(".."), owned(&["", "", ""]));
    assert_eq!(split_segments("a..b"), owned(&["a", "", "b"]));
    assert_eq!(split_segments(".a."), owned(&["", "a", ""]));
}

#[test]
fn every_separator_splits() {
    assert_eq!(split_segments("a.b.c.d.e"), owned(&["a", "b", "c", "d", "e"]));
    assert_eq!(split_segments("a.b.c.d.e").len(), 5);
}

#[test]
fn only_the_full_stop_separates() {
    assert_eq!(split_segments("a,b;c:d e"), owned(&["a,b;c:d e"]));
    assert_eq!(split_segments("a\u{3002}b\u{2024}c"), owned(&["a\u{3002}b\u{2024}c"]));
}

#[test]
fn characters_beyond_ascii_stay_whole() {
    assert_eq!(
        split_segments("\u{e9}t\u{e9}.\u{1f600}.\u{4e2d}\u{6587}"),
        owned(&["\u{e9}t\u{e9}", "\u{1f600}", "\u{4e2d}\u{6587}"])
    );
}

#[test]
fn split_agrees_with_the_standard_library() {
    for text in ["", ".", "a.b", "a.b.c", "..a..", "x.y.z.w", "no separator", "\u{e9}.\u{e9}"] {
        let expected: Vec<String> = text.split('.').map(|part| part.to_string()).collect();
        assert_eq!(split_segments(text), expected);
    }
}

#[test]
fn joining_the_segments_gives_the_text_back() {
    for text in ["", ".", "a.b", "a.b.c", "..a..", "header.payload.signature"] {
        assert_eq!(split_segments(text).join("."), text);
    }
}

#[test]
fn there_is_one_segment_more_than_there_are_separators() {
    for text in ["", ".", "a.b", "a.b.c", "..a..", "x.y.z.w", "no separator", "....."] {
        let separators = text.chars().filter(|c| *c == '.').count();
        assert_eq!(split_segments(text).len(), separators + 1);
    }
}

#[test]
fn no_segment_holds_a_separator() {
    for text in [".", "a.b", "..a..", "header.payload.signature"] {
        for part in split_segments(text) {
            assert!(!part.contains('.'));
        }
    }
}
