use atlas_measure::text::chars::{chars_of, eq_ignore_ascii_case, trim, white_space};
use atlas_measure::text::numbers::{ascii_digit, only_ascii_digits, parse_u32};
use atlas_measure::text::{decimal_string, join_with_commas, text_is};

#[test]
fn numerals_are_decimal() {
    assert_eq!(decimal_string(0), "0");
    assert_eq!(decimal_string(7), "7");
    assert_eq!(decimal_string(10), "10");
    assert_eq!(decimal_string(109), "109");
    assert_eq!(decimal_string(4_294_967_295), "4294967295");
    assert_eq!(decimal_string(u64::MAX), "18446744073709551615");
}

#[test]
fn numerals_agree_with_formatting() {
    let mut n: u64 = 1;
    for _ in 0..200 {
        assert_eq!(decimal_string(n), n.to_string());
        assert_eq!(decimal_string(n - 1), (n - 1).to_string());
        n = n.wrapping_mul(6_364_136_223_846_793_005).wrapping_add(1_442_695_040_888_963_407);
        if n == 0 {
            n = 1;
        }
    }
}

#[test]
fn lists_are_joined_with_commas() {
    let texts = |parts: &[&str]| parts.iter().map(|p| p.to_string()).collect::<Vec<String>>();
    assert_eq!(join_with_commas(&texts(&[])), "");
    assert_eq!(join_with_commas(&texts(&["a"])), "a");
    assert_eq!(join_with_commas(&texts(&["a", "b"])), "a,b");
    assert_eq!(join_with_commas(&texts(&["1", "22", "333"])), "1,22,333");
    assert_eq!(join_with_commas(&texts(&["", ""])), ",");
    assert_eq!(join_with_commas(&texts(&["", "x", ""])), ",x,");
}

#[test]
fn texts_are_compared_exactly() {
    assert!(text_is(&"all-to-all".to_string(), "all-to-all"));
    assert!(!text_is(&"All-to-all".to_string(), "all-to-all"));
    assert!(!text_is(&"all-to-al".to_string(), "all-to-all"));
    assert!(text_is(&String::new(), ""));
}

#[test]
fn characters_come_in_order() {
    assert_eq!(chars_of("a\u{e9}\u{1F600}z"), vec!['a', '\u{e9}', '\u{1F600}', 'z']);
    assert!(chars_of("").is_empty());
}

#[test]
fn white_space_is_the_unicode_property() {
    for code in 0..=0x10FFFFu32 {
        if let Some(c) = char::from_u32(code) {
            assert_eq!(white_space(c), c.is_whitespace(), "code {:#x}", code);
        }
    }
}

#[test]
fn trimming_removes_outer_white_space_only() {
    let samples = [
        "",
        " ",
        "   \t\n",
        "abc",
        "  abc",
        "abc  ",
        "  a b  c \n",
        "\u{a0}\u{2003}x\u{3000}",
        "\u{200b} x",
        "x\u{85}",
        "\u{1680}\u{e9}t\u{e9}\u{2028}\u{2029}",
        " 12 ",
    ];
    for sample in samples {
        assert_eq!(trim(sample), sample.trim(), "sample {:?}", sample);
    }
    assert_eq!(trim("  a b  c \n"), "a b  c");
    assert_eq!(trim(" \t "), "");
}

#[test]
fn digits_are_recognised() {
    for code in 0..=0x10FFFFu32 {
        if let Some(c) = char::from_u32(code) {
            assert_eq!(ascii_digit(c), c.is_ascii_digit());
        }
    }
    assert!(only_ascii_digits(""));
    assert!(only_ascii_digits("0123456789"));
    assert!(!only_ascii_digits("12a"));
    assert!(!only_ascii_digits(" 12"));
    assert!(!only_ascii_digits("\u{661}\u{662}"));
}

#[test]
fn numbers_are_read_as_the_standard_library_reads_them() {
    let samples = [
        "", "+", "-", "0", "+0", "-0", "7", "+7", "-7", "007", "42", " 42", "42 ", "4 2", "4_2",
        "4294967295", "4294967296", "+4294967295", "00000000004294967295", "99999999999999999999",
        "18446744073709551616", "1e3", "0x10", "\u{661}", "12\u{e9}", "++1", "+-1", "1+",
    ];
    for sample in samples {
        assert_eq!(parse_u32(sample), sample.parse::<u32>().ok(), "sample {:?}", sample);
    }
    assert_eq!(parse_u32("4294967295"), Some(u32::MAX));
    assert_eq!(parse_u32("4294967296"), None);
    assert_eq!(parse_u32("+15"), Some(15));
}

#[test]
fn case_of_ascii_letters_is_ignored() {
    let samples = [
        ("", ""),
        ("anchor", "anchor"),
        ("Anchor", "anchor"),
        ("ANCHOR", "aNcHoR"),
        ("anchor", "anchors"),
        ("anchor", "anchoR "),
        ("tcp", "TCP"),
        ("udp", "TCP"),
        ("\u{e9}", "\u{c9}"),
        ("k", "\u{212a}"),
        ("@", "`"),
        ("[", "{"),
        ("z", "Z"),
    ];
    for (a, b) in samples {
        assert_eq!(eq_ignore_ascii_case(a, b), a.eq_ignore_ascii_case(b), "{:?} {:?}", a, b);
    }
}
