use downfav::text::char_is_white_space;
use downfav::text::decimal_len;
use downfav::text::digit_str;
use downfav::text::hex_digit_str;
use downfav::text::json_escape;
use downfav::text::push_decimal;
use downfav::text::push_signed_zero_padded;
use downfav::text::push_zero_padded;
use downfav::text::same;
use downfav::text::str_contains;
use downfav::text::str_trim;
use downfav::text::substring;
use downfav::text::to_chars;

#[test]
fn to_chars_gives_the_characters_in_order() {
    assert_eq!(to_chars("héllo"), vec!['h', 'é', 'l', 'l', 'o']);
    assert_eq!(to_chars(""), Vec::<char>::new());
}

#[test]
fn same_compares_by_content() {
    assert!(same("span", "span"));
    assert!(same("", ""));
    assert!(!same("span", "spam"));
    assert!(!same("span", "spans"));
    assert!(!same("é", "e"));
    assert!(same("日本語", "日本語"));
}

#[test]
fn contains_finds_a_needle_anywhere() {
    assert!(str_contains("mention hashtag", "tag"));
    assert!(str_contains("tag", "tag"));
    assert!(str_contains("tagged", "tag"));
    assert!(str_contains("a tag here", "tag"));
    assert!(!str_contains("ta g", "tag"));
    assert!(!str_contains("ta", "tag"));
}

#[test]
fn contains_is_case_sensitive() {
    assert!(!str_contains("Invisible", "invisible"));
    assert!(!str_contains("TAG", "tag"));
}

#[test]
fn contains_takes_the_empty_needle_everywhere() {
    assert!(str_contains("abc", ""));
    assert!(str_contains("", ""));
    assert!(!str_contains("", "a"));
}

#[test]
fn contains_agrees_with_the_standard_library() {
    let hays = ["", "a", "ab", "aab", "abab", "ellipsis invisible", "ééé", "xéy"];
    let needles = ["", "a", "b", "ab", "ba", "aab", "invisible", "é", "éé", "éy"];
    for hay in hays {
        for needle in needles {
            assert_eq!(str_contains(hay, needle), hay.contains(needle), "{:?} in {:?}", needle, hay);
        }
    }
}

#[test]
fn white_space_is_the_unicode_property() {
    for code in 0..=0x10FFFFu32 {
        if let Some(c) = char::from_u32(code) {
            assert_eq!(char_is_white_space(c), c.is_whitespace(), "U+{:04X}", code);
        }
    }
}

#[test]
fn trim_removes_white_space_at_both_ends() {
    assert_eq!(str_trim("  hi\n\n  "), "hi");
    assert_eq!(str_trim("hi"), "hi");
    assert_eq!(str_trim("  a b  "), "a b");
    assert_eq!(str_trim("\t\r\n x"), "x");
    assert_eq!(str_trim("x \u{a0}\u{3000}"), "x");
}

#[test]
fn trim_of_white_space_is_empty() {
    assert_eq!(str_trim(""), "");
    assert_eq!(str_trim("   "), "");
    assert_eq!(str_trim("\n\n  "), "");
}

#[test]
fn trim_agrees_with_the_standard_library() {
    let samples = ["", " ", "a", " a", "a ", " a ", "\u{2003}é\u{2003}", "a\u{200b}", "\u{85}x\u{1680}", " é é "];
    for sample in samples {
        assert_eq!(str_trim(sample), sample.trim(), "{:?}", sample);
    }
}

#[test]
fn substring_counts_characters() {
    assert_eq!(substring("héllo", 1, 3), "él");
    assert_eq!(substring("héllo", 0, 5), "héllo");
    assert_eq!(substring("héllo", 2, 2), "");
}

#[test]
fn digit_str_gives_each_digit() {
    let digits = ["0", "1", "2", "3", "4", "5", "6", "7", "8", "9"];
    for d in 0..10u8 {
        assert_eq!(digit_str(d), digits[d as usize]);
    }
}

#[test]
fn decimal_is_the_usual_numeral() {
    for n in [0u64, 1, 9, 10, 11, 99, 100, 2021, 65535, 4294967295, u64::MAX] {
        let mut out = String::from("n=");
        push_decimal(&mut out, n);
        assert_eq!(out, format!("n={}", n));
        assert_eq!(decimal_len(n) as usize, format!("{}", n).len());
    }
}

#[test]
fn zero_padded_fills_up_to_the_width() {
    let mut out = String::new();
    push_zero_padded(&mut out, 7, 2);
    assert_eq!(out, "07");
    let mut out = String::new();
    push_zero_padded(&mut out, 12, 2);
    assert_eq!(out, "12");
    let mut out = String::new();
    push_zero_padded(&mut out, 123, 2);
    assert_eq!(out, "123");
    let mut out = String::new();
    push_zero_padded(&mut out, 0, 0);
    assert_eq!(out, "0");
    let mut out = String::new();
    push_zero_padded(&mut out, 5, 4);
    assert_eq!(out, "0005");
}

#[test]
fn signed_zero_padded_agrees_with_the_formatter() {
    for v in [0i64, 1, 33, 987, 2020, 9999, 10000, 262143, -1, -44, -987, -2020, -10000, i64::MIN, i64::MAX] {
        let mut out = String::new();
        push_signed_zero_padded(&mut out, v, 4);
        assert_eq!(out, format!("{:>04}", v), "{}", v);
        let mut out = String::new();
        push_signed_zero_padded(&mut out, v, 0);
        assert_eq!(out, format!("{}", v), "{}", v);
    }
}

#[test]
fn hex_digit_str_gives_each_digit() {
    let digits = ["0", "1", "2", "3", "4", "5", "6", "7", "8", "9", "a", "b", "c", "d", "e", "f"];
    for d in 0..16u8 {
        assert_eq!(hex_digit_str(d), digits[d as usize]);
    }
}

#[test]
fn json_escape_leaves_plain_text_alone() {
    assert_eq!(json_escape("one.png"), "one.png");
    assert_eq!(json_escape(""), "");
    assert_eq!(json_escape("é ü/'<>\u{7f}"), "é ü/'<>\u{7f}");
}

#[test]
fn json_escape_guards_quote_backslash_and_controls() {
    assert_eq!(json_escape("\""), "\\\"");
    assert_eq!(json_escape("\\"), "\\\\");
    assert_eq!(json_escape("a\"b\\c"), "a\\\"b\\\\c");
    assert_eq!(json_escape("\n\t\u{0}\u{1f}"), "\\u000a\\u0009\\u0000\\u001f");
    assert_eq!(json_escape(" "), " ");
}
