use mutui::text;

#[test]
fn white_space_is_that_of_unicode() {
    for n in 0..=0x10ffffu32 {
        if let Some(c) = char::from_u32(n) {
            assert_eq!(text::is_white_space(c), c.is_whitespace(), "{n:x}");
        }
    }
}

#[test]
fn trimming_takes_white_space_off_both_ends() {
    assert_eq!(text::trimmed("  a b \t\n"), "a b");
    assert_eq!(text::trimmed("\u{3000}x\u{a0}"), "x");
    assert_eq!(text::trimmed(" \n "), "");
    assert_eq!(text::trimmed(""), "");
}

#[test]
fn numbers_are_written_in_decimal() {
    assert_eq!(text::show(0), "0");
    assert_eq!(text::show(u64::MAX), "18446744073709551615");
    assert_eq!(text::show_int(i64::MIN), "-9223372036854775808");
    assert_eq!(text::show_int(-7), "-7");
    assert_eq!(text::show_int(1204), "1204");
    assert_eq!(text::show_successor(-1), "0");
    assert_eq!(text::show_successor(i64::MAX), "9223372036854775808");
}

#[test]
fn numbers_are_read_as_std_reads_them() {
    for s in [
        "0", "7", "-7", "+7", "007", "", "-", "+", "--1", "1a", " 1", "9223372036854775807",
        "9223372036854775808", "-9223372036854775808", "-9223372036854775809", "12 ", "1_0",
        "99999999999999999999999999",
    ] {
        assert_eq!(text::parse_i64(s), s.parse::<i64>().ok(), "{s:?}");
    }
}

#[test]
fn texts_are_split_at_each_separator() {
    assert_eq!(text::split("a/b//c", '/'), vec!["a", "b", "", "c"]);
    assert_eq!(text::split("", '/'), vec![""]);
    assert_eq!(text::split("/", '/'), vec!["", ""]);
    assert_eq!(text::last_segment("a/b/c.mp3"), "c.mp3");
    assert_eq!(text::last_segment("plain"), "plain");
    assert_eq!(text::last_segment("a/"), "");
}

#[test]
fn a_text_is_found_inside_another() {
    assert!(text::contains("hello", "ell"));
    assert!(text::contains("hello", ""));
    assert!(text::contains("aab", "ab"));
    assert!(!text::contains("hello", "hell0"));
    assert!(!text::contains("a", "aa"));
}

#[test]
fn texts_are_ordered_by_their_characters() {
    for a in ["", "a", "ab", "b", "é", "z", "\u{ffff}", "\u{10000}"] {
        for b in ["", "a", "ab", "b", "é", "z", "\u{ffff}", "\u{10000}"] {
            assert_eq!(text::order_text(a, b), a.cmp(b), "{a:?} {b:?}");
        }
    }
}

#[test]
fn padding_counts_characters() {
    assert_eq!(text::pad_right("é", 3), "é  ");
    assert_eq!(text::pad_right("abcd", 3), "abcd");
    assert_eq!(text::pad_left("7", 3), "  7");
    assert_eq!(text::pad_left("1000", 3), "1000");
}
