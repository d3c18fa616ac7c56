use modsupdater::text::{
    char_is_whitespace, decimal_string, encode_hex, join_strings, parse_u64, push_padded_left,
    push_padded_right, str_chars, trim_chars,
};

#[test]
fn decimal_renders_numbers() {
    assert_eq!(decimal_string(0), "0");
    assert_eq!(decimal_string(7), "7");
    assert_eq!(decimal_string(1234567890), "1234567890");
    assert_eq!(decimal_string(u64::MAX), u64::MAX.to_string());
}

#[test]
fn hex_matches_hex_crate() {
    let data: Vec<u8> = (0u8..=255).collect();
    assert_eq!(encode_hex(&data), hex::encode(&data));
    assert_eq!(encode_hex(&[]), "");
    assert_eq!(encode_hex(&[0xbe, 0xef, 0x01]), "beef01");
}

#[test]
fn join_with_separator() {
    let parts = vec!["fabric".to_string(), "quilt".to_string()];
    assert_eq!(join_strings(&parts, ", "), "fabric, quilt");
    assert_eq!(join_strings(&[], ", "), "");
    assert_eq!(join_strings(&["one".to_string()], ", "), "one");
}

#[test]
fn parse_u64_like_std() {
    for s in ["0", "17", "+5", "", "+", "-1", " 3", "18446744073709551615", "18446744073709551616", "12a", "007"] {
        assert_eq!(parse_u64(s), s.parse::<u64>().ok(), "input {:?}", s);
    }
}

#[test]
fn trimming_matches_str_trim() {
    for s in ["", "  ", " a b ", "\t\r\nname\u{3000}", "\u{a0}x", "plain", "\u{200b}zero-width"] {
        let chars = str_chars(s);
        let trimmed: String = trim_chars(&chars).into_iter().collect();
        assert_eq!(trimmed, s.trim(), "input {:?}", s);
    }
}

#[test]
fn whitespace_matches_char_is_whitespace() {
    for c in (0u32..0x3100).filter_map(char::from_u32) {
        assert_eq!(char_is_whitespace(c), c.is_whitespace(), "char {:?}", c);
    }
}

#[test]
fn padding_matches_format_width() {
    for s in ["", "ab", "ünïcødé", "exactly-six", "a-much-longer-string"] {
        let mut left = String::new();
        push_padded_left(&mut left, s, 6);
        assert_eq!(left, format!("{:>6}", s));
        let mut right = String::new();
        push_padded_right(&mut right, s, 6);
        assert_eq!(right, format!("{:6}", s));
    }
}
