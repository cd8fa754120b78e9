use media_server::text::{
    chars_eq, chars_of, concat_strs, is_whitespace, join, parse_u32, parse_u64, parse_usize, str_eq,
    strip_prefix, trim, trim_end_matches_char,
};

#[test]
fn parse_u64_accepts_plain_and_plus_signed_digits() {
    assert_eq!(parse_u64("0"), Some(0));
    assert_eq!(parse_u64("42"), Some(42));
    assert_eq!(parse_u64("+42"), Some(42));
    assert_eq!(parse_u64("007"), Some(7));
    assert_eq!(parse_u64("18446744073709551615"), Some(u64::MAX));
}

#[test]
fn parse_u64_refuses_what_from_str_refuses() {
    assert_eq!(parse_u64(""), None);
    assert_eq!(parse_u64("+"), None);
    assert_eq!(parse_u64("-1"), None);
    assert_eq!(parse_u64(" 1"), None);
    assert_eq!(parse_u64("1 "), None);
    assert_eq!(parse_u64("12a"), None);
    assert_eq!(parse_u64("18446744073709551616"), None);
    assert_eq!(parse_u64("99999999999999999999999"), None);
}

#[test]
fn parse_u64_agrees_with_std() {
    for s in ["", "+", "0", "+0", "10", "4096", "-0", "1_000", "18446744073709551615", "18446744073709551616", "٣"] {
        assert_eq!(parse_u64(s), s.parse::<u64>().ok(), "input {s:?}");
    }
}

#[test]
fn parse_u32_and_usize_bounds() {
    assert_eq!(parse_u32("4294967295"), Some(u32::MAX));
    assert_eq!(parse_u32("4294967296"), None);
    assert_eq!(parse_usize("26214400"), Some(26214400));
    assert_eq!(parse_usize("x"), None);
}

#[test]
fn trim_removes_unicode_whitespace_at_both_ends() {
    let t: String = trim("  \t true\u{3000}\n").into_iter().collect();
    assert_eq!(t, "true");
    let t: String = trim("   ").into_iter().collect();
    assert_eq!(t, "");
    let t: String = trim("a b").into_iter().collect();
    assert_eq!(t, "a b");
    for s in ["\u{85}x\u{a0}", "\u{2028} y \u{205f}", "z"] {
        let t: String = trim(s).into_iter().collect();
        assert_eq!(t, s.trim());
    }
}

#[test]
fn whitespace_matches_std() {
    for c in ['\t', '\n', '\r', ' ', '\u{85}', '\u{a0}', '\u{1680}', '\u{2003}', '\u{3000}', 'a', '\u{200b}', '_'] {
        assert_eq!(is_whitespace(c), c.is_whitespace(), "char {c:?}");
    }
}

#[test]
fn trim_end_matches_char_strips_every_trailing_slash() {
    assert_eq!(trim_end_matches_char("https://x.example///", '/'), "https://x.example");
    assert_eq!(trim_end_matches_char("https://x.example", '/'), "https://x.example");
    assert_eq!(trim_end_matches_char("///", '/'), "");
    assert_eq!(trim_end_matches_char("a/b/", '/'), "a/b");
}

#[test]
fn join_behaves_like_path_join() {
    for (base, part) in [("./storage", "giveaways"), ("./storage/", "giveaways"), ("", "x"), ("/data", "/abs"), ("a", "b.webp")] {
        let expected = std::path::Path::new(base).join(part);
        assert_eq!(join(base, part), expected.to_str().unwrap(), "{base:?} + {part:?}");
    }
}

#[test]
fn strip_prefix_matches_std() {
    assert_eq!(strip_prefix("Bearer abc", "Bearer "), Some("abc"));
    assert_eq!(strip_prefix("Bearer", "Bearer "), None);
    assert_eq!(strip_prefix("bearer abc", "Bearer "), None);
    assert_eq!(strip_prefix("Bearer ", "Bearer "), Some(""));
}

#[test]
fn string_equality_and_concatenation() {
    assert!(str_eq("héllo", "héllo"));
    assert!(!str_eq("hello", "hello "));
    assert!(chars_eq(&chars_of("ab"), &vec!['a', 'b']));
    assert_eq!(concat_strs("ab", "cd"), "abcd");
}
