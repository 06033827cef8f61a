use cthulhu_bot::embed::{cat2, cat3, cat4};
use cthulhu_bot::text::{
    chars_of, i32_to_string, int_to_string, join_texts, pad_to, parse_decimal_u64, same_text, u64_to_string,
};
use cthulhu_bot::webhook::{bot_webhook_name, pick_webhook};

#[test]
fn decimal_text() {
    for n in [0i64, 7, -7, 10, 99, 100, -100, 1_234_567, i64::MAX, i64::MIN] {
        assert_eq!(int_to_string(n), n.to_string());
    }
    assert_eq!(i32_to_string(i32::MIN), i32::MIN.to_string());
}

#[test]
fn padding() {
    assert_eq!(pad_to("ab", 5), "ab   ");
    assert_eq!(pad_to("abcdef", 3), "abcdef");
    assert_eq!(pad_to("한글", 4), "한글  ");
    assert_eq!(pad_to("", 0), "");
}

#[test]
fn joining_and_concatenating() {
    let parts = vec!["a".to_string(), "b".to_string(), "c".to_string()];
    assert_eq!(join_texts(&parts, ", "), "a, b, c");
    assert_eq!(join_texts(&vec![], ", "), "");
    assert_eq!(cat2("a", "b"), "ab");
    assert_eq!(cat3("a", "b", "c"), "abc");
    assert_eq!(cat4("a", "b", "c", "d"), "abcd");
    assert_eq!(chars_of("가나"), vec!['가', '나']);
    assert!(same_text("x", "x"));
    assert!(!same_text("x", "y"));
}

#[test]
fn picks_bot_webhook() {
    assert_eq!(bot_webhook_name(), "cthulhu_webhook");
    let names = vec![None, Some("other".to_string()), Some("cthulhu_webhook".to_string()), Some("cthulhu_webhook".to_string())];
    assert_eq!(pick_webhook(&names), Some(2));
    assert_eq!(pick_webhook(&vec![Some("other".to_string())]), None);
}

#[test]
fn decimal_ids_read_back() {
    assert_eq!(u64_to_string(0), "0");
    assert_eq!(u64_to_string(u64::MAX), "18446744073709551615");
    assert_eq!(parse_decimal_u64("123456789012345678"), Some(123456789012345678));
    assert_eq!(parse_decimal_u64(&u64_to_string(u64::MAX)), Some(u64::MAX));
    assert_eq!(parse_decimal_u64("18446744073709551616"), None);
    assert_eq!(parse_decimal_u64("0012"), None);
    assert_eq!(parse_decimal_u64("+12"), None);
    assert_eq!(parse_decimal_u64("-1"), None);
    assert_eq!(parse_decimal_u64("12 "), None);
    assert_eq!(parse_decimal_u64(""), None);
}
