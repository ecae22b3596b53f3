use printer_monitor::text::{
    after_last, decimal_text, has_char, parse_signed, same, same_folded, space, starts_with, trim,
};

#[test]
fn spaces_are_those_of_unicode() {
    for c in char::MIN..=char::MAX {
        assert_eq!(space(c), c.is_whitespace(), "{c:?}");
    }
}

#[test]
fn trims_as_the_standard_library_does() {
    for s in ["", " ", "a", " a ", "\u{2003}\ta b\u{a0}\n", "\u{e9} ", "  \u{1f600}"] {
        assert_eq!(trim(s), s.trim());
    }
}

#[test]
fn compares_texts() {
    assert!(same("", ""));
    assert!(same("caf\u{e9}", "caf\u{e9}"));
    assert!(!same("a", "ab"));
    assert!(!same("ab", "ac"));
    assert!(starts_with("rtsp://x", "rtsp://"));
    assert!(starts_with("x", ""));
    assert!(!starts_with("rt", "rtsp"));
    assert!(same_folded("TrUe", "true"));
    assert!(!same_folded("\u{212a}", "k"));
}

#[test]
fn finds_what_is_behind_the_last() {
    assert_eq!(after_last("a:b:c", ':'), "c");
    assert_eq!(after_last("a:", ':'), "");
    assert_eq!(after_last("abc", ':'), "abc");
    assert!(has_char("a:b", ':'));
    assert!(!has_char("", ':'));
}

#[test]
fn numbers_are_written_and_read() {
    for n in [0, 1, 9, 10, 42, 1_000_000, u64::MAX] {
        assert_eq!(decimal_text(n), n.to_string());
    }
    for n in [0, 7, 120, i64::MAX as u64] {
        assert_eq!(parse_signed(&decimal_text(n)), Some(n as i64));
    }
}

#[test]
fn reads_signed_numbers_as_the_standard_library_does() {
    for s in [
        "",
        "+",
        "-",
        "0",
        "-0",
        "+12",
        "-12",
        "0000000000000000000000000000001",
        "9223372036854775807",
        "9223372036854775808",
        "-9223372036854775808",
        "-9223372036854775809",
        "99999999999999999999999999",
        "-99999999999999999999999999",
        "1_0",
        " 1",
        "1 ",
        "\u{661}",
        "1-",
        "+-1",
    ] {
        assert_eq!(parse_signed(s), s.parse::<i64>().ok(), "{s:?}");
    }
}
