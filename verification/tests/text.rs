use nanobot_desktop::text::{
    char_is_whitespace, join_text, contains_text, decimal_text, join_lines, lines_of, same_text,
    starts_with, text_of, to_chars, trimmed, trimmed_len,
};

#[test]
fn white_space_is_what_the_standard_library_says() {
    for code in 0..=0x10ffffu32 {
        if let Some(c) = char::from_u32(code) {
            assert_eq!(char_is_whitespace(c), c.is_whitespace(), "U+{code:04X}");
        }
    }
}

#[test]
fn trimming_agrees_with_the_standard_library() {
    let samples = [
        "",
        " ",
        "a",
        "  a  ",
        "\t\n a b \r\n",
        "\u{a0}x\u{2003}",
        "\u{3000}\u{3000}",
        "no-space",
        " inner  space kept ",
        "\u{feff}bom is no space ",
    ];
    for s in samples {
        assert_eq!(trimmed(s), s.trim(), "{s:?}");
        let chars: Vec<char> = s.chars().collect();
        assert_eq!(trimmed_len(&chars), s.trim_end().chars().count(), "{s:?}");
    }
}

#[test]
fn decimal_text_is_plain_decimal() {
    assert_eq!(decimal_text(0), "0");
    assert_eq!(decimal_text(7), "7");
    assert_eq!(decimal_text(10), "10");
    assert_eq!(decimal_text(4242), "4242");
    assert_eq!(decimal_text(u32::MAX as u64), "4294967295");
    assert_eq!(decimal_text(u64::MAX), "18446744073709551615");
    for n in (0..100_000u64).step_by(37) {
        assert_eq!(decimal_text(n), n.to_string());
    }
}

#[test]
fn characters_and_text_convert_both_ways() {
    let s = "h\u{e9}llo w\u{f6}rld";
    let chars = to_chars(s);
    assert_eq!(chars, s.chars().collect::<Vec<char>>());
    assert_eq!(text_of(&chars, 0, chars.len()), s);
    assert_eq!(text_of(&chars, 1, 5), "\u{e9}llo");
    assert_eq!(text_of(&chars, 3, 3), "");
}

#[test]
fn same_text_compares_characters() {
    assert!(same_text("agent", "agent"));
    assert!(!same_text("agent", "Agent"));
    assert!(!same_text("agent", "agents"));
    assert!(same_text("", ""));
}

#[test]
fn join_text_puts_one_text_after_the_other() {
    assert_eq!(join_text("Failed: ", "no such file"), "Failed: no such file");
    assert_eq!(join_text("", "x"), "x");
    assert_eq!(join_text("x", ""), "x");
}

#[test]
fn starts_with_looks_at_the_beginning() {
    let chars: Vec<char> = "prefix and more".chars().collect();
    let yes: Vec<char> = "prefix".chars().collect();
    let no: Vec<char> = "refix".chars().collect();
    let long: Vec<char> = "prefix and more and more".chars().collect();
    assert!(starts_with(&chars, &yes));
    assert!(!starts_with(&chars, &no));
    assert!(!starts_with(&chars, &long));
    assert!(starts_with(&chars, &Vec::new()));
}

#[test]
fn contains_text_finds_a_stretch() {
    assert!(contains_text("hello world", "lo wo"));
    assert!(contains_text("hello world", "hello world"));
    assert!(contains_text("hello world", ""));
    assert!(contains_text("", ""));
    assert!(contains_text("aaab", "aab"));
    assert!(!contains_text("hello world", "worlds"));
    assert!(!contains_text("short", "much longer"));
    assert!(!contains_text("", "x"));
    for (hay, pin) in [("abcabc", "cab"), ("abcabc", "cb"), ("\u{e9}t\u{e9}", "t\u{e9}")] {
        assert_eq!(contains_text(hay, pin), hay.contains(pin));
    }
}

#[test]
fn lines_are_what_the_standard_library_says() {
    let samples = [
        "",
        "\n",
        "a",
        "a\n",
        "a\nb",
        "a\r\nb\r\n",
        "a\rb",
        "a\r",
        "a\r\n",
        "\r\n\r\n",
        "\n\n\n",
        "one\n\ntwo\n",
        "x\r\r\ny",
        "last line without end\r",
        "{\"a\":1}\n{\"b\":2}\n",
    ];
    for s in samples {
        let expected: Vec<String> = s.lines().map(str::to_string).collect();
        assert_eq!(lines_of(s), expected, "{s:?}");
    }
}

#[test]
fn join_lines_puts_a_line_feed_between() {
    let lines: Vec<String> = vec!["a".into(), "".into(), "c".into()];
    assert_eq!(join_lines(&lines), "a\n\nc");
    assert_eq!(join_lines(&vec!["only".to_string()]), "only");
    assert_eq!(join_lines(&Vec::new()), "");
}
