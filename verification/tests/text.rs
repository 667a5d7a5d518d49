use keylime_agent::codec::push_json_string;
use keylime_agent::json::{render_object, string_member, text_member, Layout};
use keylime_agent::number::{parse_decimal_u64, parse_hex_u32};
use keylime_agent::text::{
    char_is_whitespace, chars_of, find_in, is_all_alphanumeric, join_strings, push_decimal,
    split_lines, starts_with, str_eq, string_of, trimmed,
};

fn chars(s: &str) -> Vec<char> {
    s.chars().collect()
}

fn text(v: &[char]) -> String {
    v.iter().collect()
}

#[test]
fn strings_and_characters_convert_both_ways() {
    assert_eq!(chars_of("añ€😀"), vec!['a', 'ñ', '€', '😀']);
    assert_eq!(string_of(&['a', 'ñ', '€', '😀']), "añ€😀");
    assert_eq!(chars_of(""), Vec::<char>::new());
    assert!(str_eq("abc", "abc"));
    assert!(!str_eq("abc", "abd"));
    assert!(!str_eq("abc", "ab"));
}

#[test]
fn alphanumeric_follows_unicode() {
    assert!(is_all_alphanumeric("1234567890ABCDEFHIJ"));
    assert!(is_all_alphanumeric(""));
    assert!(is_all_alphanumeric("añ٣"));
    assert!(!is_all_alphanumeric("%"));
    assert!(!is_all_alphanumeric("a b"));
    assert!(!is_all_alphanumeric("a-b"));
    assert!(!is_all_alphanumeric("0x40_8000"));
}

#[test]
fn white_space_is_trimmed_at_both_ends() {
    for s in ["", " ", " a ", "\t\n a b \r\n", "a", "\u{a0}x\u{3000}", "\u{200b}x", " \u{85}\u{2028}y\u{2029}\u{1680}"] {
        assert_eq!(text(&trimmed(&chars(s))), s.trim(), "{s:?}");
    }
    for c in ['\t', '\n', '\u{b}', '\u{c}', '\r', ' ', '\u{85}', '\u{a0}', '\u{2000}', '\u{200a}', '\u{202f}', '\u{205f}', 'a', '\u{200b}', '\u{feff}', '\u{1c}', '\u{180e}'] {
        assert_eq!(char_is_whitespace(c), c.is_whitespace(), "{c:?}");
    }
}

#[test]
fn lines_end_at_line_feeds() {
    for s in ["", "a", "a\n", "a\nb", "a\r\nb\r\n", "\n", "\n\n", "a\r", "a\rb\n", "\r\n", "a\n\nb", "a\r\r\n"] {
        let got: Vec<String> = split_lines(&chars(s)).iter().map(|l| text(l)).collect();
        let expected: Vec<String> = s.lines().map(|l| l.to_string()).collect();
        assert_eq!(got, expected, "{s:?}");
    }
}

#[test]
fn first_occurrence_is_found() {
    assert_eq!(find_in(&chars("abcabc"), &chars("bc"), 0), Some(1));
    assert_eq!(find_in(&chars("abcabc"), &chars("bc"), 2), Some(4));
    assert_eq!(find_in(&chars("abcabc"), &chars("bc"), 5), None);
    assert_eq!(find_in(&chars("abcabc"), &chars(""), 0), Some(0));
    assert_eq!(find_in(&chars("abc"), &chars(""), 3), Some(3));
    assert_eq!(find_in(&chars("abc"), &chars(""), 4), None);
    assert_eq!(find_in(&chars(""), &chars("a"), 0), None);
    assert_eq!(find_in(&chars("aaa"), &chars("aaaa"), 0), None);
    assert!(starts_with(&chars("-----BEGIN"), &chars("-----")));
    assert!(!starts_with(&chars("----"), &chars("-----")));
    assert!(starts_with(&chars(""), &chars("")));
}

#[test]
fn numbers_are_written_in_decimal() {
    for n in [0u64, 1, 9, 10, 99, 100, 429, 65535, 4_294_967_295, u64::MAX] {
        let mut out = vec!['x'];
        push_decimal(&mut out, n);
        assert_eq!(text(&out), format!("x{n}"));
    }
}

#[test]
fn lists_are_joined_with_a_separator() {
    let list = |items: &[&str]| -> Vec<String> { items.iter().map(|s| s.to_string()).collect() };
    assert_eq!(join_strings(&list(&[]), ", "), "");
    assert_eq!(join_strings(&list(&["1.2"]), ", "), "1.2");
    assert_eq!(join_strings(&list(&["1.2", "3.4", ""]), ", "), "1.2, 3.4, ");
    assert_eq!(join_strings(&list(&["a", "b"]), ""), "ab");
}

#[test]
fn unsigned_numbers_are_read() {
    assert_eq!(parse_hex_u32(&chars("ffFF")), Some(0xffff));
    assert_eq!(parse_hex_u32(&chars("+0")), Some(0));
    assert_eq!(parse_hex_u32(&chars("+")), None);
    assert_eq!(parse_hex_u32(&chars("++1")), None);
    assert_eq!(parse_hex_u32(&chars("FFFFFFFF")), Some(u32::MAX));
    assert_eq!(parse_hex_u32(&chars("100000000")), None);
    assert_eq!(parse_hex_u32(&chars("ffffffffffffffffffffffffffffffffffff")), None);
    assert_eq!(parse_decimal_u64(&chars("007")), Some(7));
    assert_eq!(parse_decimal_u64(&chars("7f")), None);
    assert_eq!(parse_decimal_u64(&chars("٣")), None);
    assert_eq!(parse_decimal_u64(&chars("99999999999999999999999999999999999999999")), None);
    for s in ["0", "+5", "18446744073709551615", "18446744073709551616", "", " 1", "1 ", "-0"] {
        assert_eq!(parse_decimal_u64(&chars(s)), s.parse::<u64>().ok(), "{s:?}");
    }
    for s in ["0", "+a", "ffffffff", "FFFFFFFF0", "", "0x1", "g", "-1", "1_0"] {
        assert_eq!(parse_hex_u32(&chars(s)), u32::from_str_radix(s, 16).ok(), "{s:?}");
    }
}

#[test]
fn json_strings_are_what_a_json_library_writes() {
    let samples = [
        "",
        "plain",
        "quote \" and \\ backslash",
        "\u{0}\u{1}\u{7}\u{8}\t\n\u{b}\u{c}\r\u{e}\u{1f} \u{7f}",
        "/ é € 😀 \u{2028}",
    ];
    for s in samples {
        let mut out = Vec::new();
        push_json_string(&mut out, s);
        let expected = serde_json::Value::String(s.to_string()).to_string();
        assert_eq!(text(&out), expected, "{s:?}");
    }
}

#[test]
fn objects_are_laid_out_compact_or_indented() {
    let none = Vec::new();
    assert_eq!(text(&render_object(&none, &Layout::Compact)), "{}");
    assert_eq!(text(&render_object(&none, &Layout::Pretty(3))), "{}");
    let ms = vec![string_member("a", "x"), text_member("b", "[1,2]")];
    assert_eq!(text(&render_object(&ms, &Layout::Compact)), "{\"a\":\"x\",\"b\":[1,2]}");
    assert_eq!(
        text(&render_object(&ms, &Layout::Pretty(0))),
        "{\n  \"a\": \"x\",\n  \"b\": [1,2]\n}"
    );
    assert_eq!(
        text(&render_object(&ms, &Layout::Pretty(2))),
        "{\n      \"a\": \"x\",\n      \"b\": [1,2]\n    }"
    );
}
