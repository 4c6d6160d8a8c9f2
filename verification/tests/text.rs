use mfek_ipc::text::{
    chars_of, decimal, ends_with, is_whitespace, last_word, lines, same_text,
};

#[test]
fn whitespace_is_the_unicode_white_space_property() {
    for code in 0u32..=0x11_0000 {
        if let Some(c) = char::from_u32(code) {
            assert_eq!(is_whitespace(c), c.is_whitespace(), "U+{:04X}", code);
        }
    }
}

#[test]
fn characters_of_a_text() {
    assert_eq!(chars_of(""), Vec::<char>::new());
    assert_eq!(chars_of("a\u{00e9}\u{1f600}z"), vec!['a', '\u{00e9}', '\u{1f600}', 'z']);
}

#[test]
fn last_word_of_a_text() {
    assert_eq!(last_word("MFEKmetadata 1.0.0"), "1.0.0");
    assert_eq!(last_word("  one two  three \n"), "three");
    assert_eq!(last_word("single"), "single");
    assert_eq!(last_word(""), "");
    assert_eq!(last_word(" \t\r\n"), "");
    assert_eq!(last_word("a\u{2003}b\u{2028}"), "b");
    assert_eq!(last_word("x\u{200b}y"), "x\u{200b}y");
}

#[test]
fn last_word_is_what_trimming_and_splitting_at_whitespace_leave() {
    for text in ["", " ", "a", " a", "a ", "a b", "a  b ", "\ta\nb\r\n", "v 1 2 3", "\u{3000}z"] {
        let expected = text.trim().split_whitespace().last().unwrap_or("");
        assert_eq!(last_word(text), expected, "{:?}", text);
    }
}

#[test]
fn lines_end_at_line_feeds() {
    assert_eq!(lines("a\nb\nc"), vec!["a", "b", "c"]);
    assert_eq!(lines("a\nb\nc\n"), vec!["a", "b", "c"]);
    assert_eq!(lines("a\n\nb\n"), vec!["a", "", "b"]);
    assert_eq!(lines("\n"), vec![""]);
    assert_eq!(lines("\n\n"), vec!["", ""]);
    assert_eq!(lines(""), Vec::<String>::new());
    assert_eq!(lines("no end"), vec!["no end"]);
}

#[test]
fn lines_lose_a_carriage_return_before_the_line_feed_only() {
    assert_eq!(lines("a\r\nb\r\n"), vec!["a", "b"]);
    assert_eq!(lines("a\rb\n"), vec!["a\rb"]);
    assert_eq!(lines("a\r\r\n"), vec!["a\r"]);
    assert_eq!(lines("a\r"), vec!["a\r"]);
    assert_eq!(lines("\r\n"), vec![""]);
}

#[test]
fn lines_are_those_of_the_standard_library() {
    for text in ["", "\n", "a", "a\n", "a\r\n", "a\r", "\r", "a\n\r\nb", "x\ny\r\n\r\nz\r", "\u{00e9}\n\u{1f600}"] {
        let expected: Vec<String> = text.lines().map(|l| l.to_string()).collect();
        assert_eq!(lines(text), expected, "{:?}", text);
    }
}

#[test]
fn suffixes() {
    assert!(ends_with("font.ufo", ".ufo"));
    assert!(ends_with(".ufo", ".ufo"));
    assert!(ends_with("anything", ""));
    assert!(!ends_with("ufo", ".ufo"));
    assert!(!ends_with("font.ufo3", ".ufo"));
    assert!(!ends_with("font.ufo ", ".ufo"));
}

#[test]
fn texts_are_the_same_when_their_characters_are() {
    assert!(same_text("fontinfo.plist", "fontinfo.plist"));
    assert!(same_text("", ""));
    assert!(!same_text("fontinfo.plist", "Fontinfo.plist"));
    assert!(!same_text("a", "ab"));
}

#[test]
fn decimal_digits() {
    assert_eq!(decimal(0), "0");
    assert_eq!(decimal(7), "7");
    assert_eq!(decimal(10), "10");
    assert_eq!(decimal(109), "109");
    assert_eq!(decimal(1234567890), "1234567890");
    assert_eq!(decimal(usize::MAX), format!("{}", usize::MAX));
}
