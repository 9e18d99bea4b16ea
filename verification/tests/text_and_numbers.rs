use resonate::number::{decimal_string, digit_to_char, parse_usize, push_decimal, push_decimal_pad2};
use resonate::text::{chars_of, has_utf8_len, is_space_char, push_str, replace_char, replace_spaces, split_chars, string_of, trim_chars};
use resonate::util::consume;

#[test]
fn decimals_render_like_format() {
    assert_eq!(decimal_string(0), "0");
    assert_eq!(decimal_string(7), "7");
    assert_eq!(decimal_string(10), "10");
    assert_eq!(decimal_string(1234567890), "1234567890");
    assert_eq!(decimal_string(u64::MAX), format!("{}", u64::MAX));
    assert_eq!(digit_to_char(9), '9');
    let mut s = String::from("n=");
    push_decimal(&mut s, 42);
    assert_eq!(s, "n=42");
    let mut p = String::new();
    push_decimal_pad2(&mut p, 5);
    push_decimal_pad2(&mut p, 59);
    push_decimal_pad2(&mut p, 123);
    assert_eq!(p, "0559123");
}

#[test]
fn parse_reads_unsigned_integers() {
    assert_eq!(parse_usize("0"), Some(0));
    assert_eq!(parse_usize("42"), Some(42));
    assert_eq!(parse_usize("+8"), Some(8));
    assert_eq!(parse_usize("007"), Some(7));
    assert_eq!(parse_usize(""), None);
    assert_eq!(parse_usize("+"), None);
    assert_eq!(parse_usize("-1"), None);
    assert_eq!(parse_usize("4 "), None);
    assert_eq!(parse_usize("1a"), None);
    assert_eq!(parse_usize("99999999999999999999999999"), None);
    assert_eq!(parse_usize(&usize::MAX.to_string()), Some(usize::MAX));
}

#[test]
fn parse_reads_back_a_rendered_number() {
    for n in [0u64, 1, 9, 10, 99, 100, 65535, 4_000_000_000] {
        assert_eq!(parse_usize(&decimal_string(n)), Some(n as usize));
    }
}

#[test]
fn character_helpers() {
    assert_eq!(chars_of("héllo"), vec!['h', 'é', 'l', 'l', 'o']);
    assert_eq!(string_of(&vec!['a', 'b']), "ab");
    let mut s = String::from("ab");
    push_str(&mut s, "cd");
    assert_eq!(s, "abcd");
    assert_eq!(replace_spaces("a b  c"), "a_b__c");
    assert_eq!(replace_char("a b", ' ', '+'), "a+b");
    assert!(is_space_char(' '));
    assert!(is_space_char('\t'));
    assert!(is_space_char('\u{3000}'));
    assert!(!is_space_char('x'));
}

#[test]
fn split_and_trim() {
    let parts = split_chars(&chars_of("a=b=c"), '=');
    assert_eq!(parts.len(), 3);
    assert_eq!(string_of(&parts[1]), "b");
    let parts = split_chars(&chars_of(""), '=');
    assert_eq!(parts.len(), 1);
    assert!(parts[0].is_empty());
    let parts = split_chars(&chars_of("x="), '=');
    assert_eq!(parts.len(), 2);
    assert_eq!(string_of(&trim_chars(&chars_of("  a b \n"))), "a b");
    assert!(trim_chars(&chars_of(" \t ")).is_empty());
}

#[test]
fn byte_lengths() {
    assert!(has_utf8_len(&chars_of("abc"), 3));
    assert!(has_utf8_len(&chars_of("é"), 2));
    assert!(has_utf8_len(&chars_of("€"), 3));
    assert!(has_utf8_len(&chars_of("😀"), 4));
    assert!(!has_utf8_len(&chars_of("abc"), 4));
}

#[test]
fn consume_empties_the_field() {
    let mut s = String::from("query");
    assert_eq!(consume(&mut s), "query");
    assert_eq!(s, "");
    assert_eq!(consume(&mut s), "");
}
