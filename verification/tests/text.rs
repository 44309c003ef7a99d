use p2p_chat::number::{i32_text, parse_i32_chars, parse_u32_chars, IntErrorKind};
use p2p_chat::text::{chars_of, join_spaced_from, split_whitespace, string_of, trim_chars, u64_text};

fn chars(s: &str) -> Vec<char> {
    s.chars().collect()
}

#[test]
fn words_of_a_line() {
    assert_eq!(split_whitespace("  send  peer\thello world \n"), vec!["send", "peer", "hello", "world"]);
    assert!(split_whitespace(" \t ").is_empty());
    assert_eq!(split_whitespace("\u{3000}a\u{a0}b"), vec!["a", "b"]);
}

#[test]
fn joining_words() {
    let ws: Vec<String> = vec!["a".into(), "bb".into(), "c".into()];
    assert_eq!(join_spaced_from(&ws, 0), "a bb c");
    assert_eq!(join_spaced_from(&ws, 1), "bb c");
    assert_eq!(join_spaced_from(&ws, 3), "");
}

#[test]
fn trimming() {
    assert_eq!(string_of(&trim_chars(&chars("  x y \n"))), "x y");
    assert_eq!(string_of(&trim_chars(&chars(" \t"))), "");
    assert_eq!(string_of(&chars_of("héllo")), "héllo");
}

#[test]
fn decimal_text_round_trips() {
    for n in [0, 7, -7, 10, 1234567, i32::MAX, i32::MIN] {
        let t = i32_text(n);
        assert_eq!(t, n.to_string());
        assert_eq!(parse_i32_chars(&chars(&t)), Ok(n));
    }
    assert_eq!(u64_text(18446744073709551615), "18446744073709551615");
}

#[test]
fn integer_parse_errors() {
    assert_eq!(parse_u32_chars(&chars("4294967295")), Ok(u32::MAX));
    assert_eq!(parse_u32_chars(&chars("4294967296")), Err(IntErrorKind::PosOverflow));
    assert_eq!(parse_u32_chars(&chars("-1")), Err(IntErrorKind::InvalidDigit));
    assert_eq!(parse_u32_chars(&chars("")), Err(IntErrorKind::Empty));
    assert_eq!(parse_i32_chars(&chars("-")), Err(IntErrorKind::InvalidDigit));
    assert_eq!(parse_i32_chars(&chars("+")), Err(IntErrorKind::InvalidDigit));
}
