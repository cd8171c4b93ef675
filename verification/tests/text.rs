use kterm::text::{
    contains_ignoring_case, hex_head, parse_u16_or, parse_u32_or, parse_u64_or, parse_unsigned,
    push_decimal, same_ignoring_case, same_text, text_bytes, trim,
};

#[test]
fn decimals_read_back() {
    for n in [0u64, 7, 10, 255, 65536, u64::MAX] {
        let mut text = String::from("n");
        push_decimal(&mut text, n);
        assert_eq!(text, format!("n{}", n));
        assert_eq!(parse_unsigned(&text[1..], u64::MAX), Some(n));
    }
}

#[test]
fn numbers_are_parsed_as_std_does() {
    for text in ["", "+", "+5", "-1", "007", "65535", "65536", "1 ", "x", "99999999999999999999999"] {
        assert_eq!(parse_u16_or(text, 1), text.parse::<u16>().unwrap_or(1));
        assert_eq!(parse_u32_or(text, 1), text.parse::<u32>().unwrap_or(1));
        assert_eq!(parse_u64_or(text, 1), text.parse::<u64>().unwrap_or(1));
    }
}

#[test]
fn texts_are_searched_and_compared() {
    assert!(contains_ignoring_case("Bad PassWord!", "password"));
    assert!(!contains_ignoring_case("pass word", "password"));
    assert!(same_text("a", "a"));
    assert!(!same_text("a", "A"));
    assert!(same_ignoring_case("YES", "yes"));
}

#[test]
fn texts_are_cut_and_encoded() {
    assert_eq!(trim(" \t a b\r\n\u{3000}"), "a b");
    assert_eq!(trim(""), "");
    assert_eq!(text_bytes("é"), vec![0xc3, 0xa9]);
    assert_eq!(hex_head(&[0x0a, 0xff, 1], 2), "0A FF");
}
