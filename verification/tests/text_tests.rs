use mpvy::resolver::parse_info;
use mpvy::text::{
    char_is_space, chars_of, read_number, slice_string, split_spans, stands_at, trim_span,
};

fn pieces(text: &str, sep: char) -> Vec<String> {
    let chars = chars_of(text);
    split_spans(&chars, sep)
        .iter()
        .map(|(a, b)| slice_string(text, *a, *b))
        .collect()
}

fn trim(text: &str) -> String {
    let chars = chars_of(text);
    let (a, b) = trim_span(&chars, 0, chars.len());
    slice_string(text, a, b)
}

#[test]
fn characters_come_in_order() {
    assert_eq!(chars_of("aé音"), vec!['a', 'é', '音']);
    assert!(chars_of("").is_empty());
}

#[test]
fn white_space_is_what_trimming_removes() {
    for code in 0..=0x10FFFFu32 {
        if let Some(c) = char::from_u32(code) {
            assert_eq!(char_is_space(c), c.is_whitespace(), "U+{:04X}", code);
        }
    }
}

#[test]
fn splitting_agrees_with_the_standard_library() {
    for text in ["", ":", "a", "a:b", "a::b", ":a:", "::", "01:02:03", "é:音:"] {
        let expected: Vec<String> = text.split(':').map(|s| s.to_string()).collect();
        assert_eq!(pieces(text, ':'), expected, "{:?}", text);
    }
}

#[test]
fn spans_count_characters() {
    let chars = chars_of("é,音音,");
    assert_eq!(split_spans(&chars, ','), vec![(0, 1), (2, 4), (5, 5)]);
}

#[test]
fn trimming_agrees_with_the_standard_library() {
    for text in ["", " ", "a", " a", "a ", "  a b  ", "\t\r\na\u{a0}\u{3000}", "\u{2003}x\u{85}"] {
        assert_eq!(trim(text), text.trim(), "{:?}", text);
    }
}

#[test]
fn trimming_a_range_stays_inside_it() {
    let chars = chars_of("ab  cd  ef");
    assert_eq!(trim_span(&chars, 2, 8), (4, 6));
    assert_eq!(trim_span(&chars, 2, 4), (4, 4));
    assert_eq!(trim_span(&chars, 0, 10), (0, 10));
    assert_eq!(trim_span(&chars, 5, 5), (5, 5));
}

#[test]
fn numbers_are_read_from_ranges() {
    let chars = chars_of("ab123cd");
    assert_eq!(read_number(&chars, 2, 5), Some(123));
    assert_eq!(read_number(&chars, 2, 3), Some(1));
    assert_eq!(read_number(&chars, 1, 5), None);
    assert_eq!(read_number(&chars, 2, 6), None);
    assert_eq!(read_number(&chars, 3, 3), None);
}

#[test]
fn patterns_are_found_where_they_stand() {
    let text = chars_of("hello");
    assert!(stands_at(&text, 0, &chars_of("he")));
    assert!(stands_at(&text, 3, &chars_of("lo")));
    assert!(stands_at(&text, 5, &chars_of("")));
    assert!(!stands_at(&text, 4, &chars_of("lo")));
    assert!(!stands_at(&text, 1, &chars_of("he")));
    assert!(!stands_at(&text, 0, &chars_of("hello!")));
}

#[test]
fn lines_agree_with_the_standard_library() {
    for out in [
        "0:10\nT\nu\nv=i",
        "\n 0:10\r\nT\r\n\r\nv=i \n",
        "0:10\n\nu",
        "a\rb\nc",
        "only",
        "1\n2\n3\n4\n5\n6",
    ] {
        let info = parse_info(out).unwrap();
        let trimmed = out.trim().to_string();
        let mut lines = trimmed.lines();
        assert_eq!(info.duration, lines.next().unwrap_or_default(), "{:?}", out);
        assert_eq!(info.title, lines.next().unwrap_or_default(), "{:?}", out);
        assert_eq!(info.url, lines.next().unwrap_or_default(), "{:?}", out);
        let last = lines.next().unwrap_or_default();
        assert_eq!(info.id, last.rsplit('=').next().unwrap_or_default(), "{:?}", out);
    }
}
