use event_engine::text::{
    decode_text, i32_to_text, parse_i32, parse_usize, text_bytes, usize_to_text, uuid_to_text,
};

#[test]
fn usize_numerals() {
    assert_eq!(usize_to_text(0), "0");
    assert_eq!(usize_to_text(7), "7");
    assert_eq!(usize_to_text(10), "10");
    assert_eq!(usize_to_text(5559), "5559");
    assert_eq!(usize_to_text(usize::MAX), usize::MAX.to_string());
}

#[test]
fn i32_numerals() {
    assert_eq!(i32_to_text(0), "0");
    assert_eq!(i32_to_text(5560), "5560");
    assert_eq!(i32_to_text(-42), "-42");
    assert_eq!(i32_to_text(i32::MIN), "-2147483648");
    assert_eq!(i32_to_text(i32::MAX), "2147483647");
}

#[test]
fn usize_parsing_matches_std() {
    for s in ["0", "17", "+17", "", "+", "-1", "1a", " 1", "007", "18446744073709551615", "18446744073709551616", "99999999999999999999999"] {
        assert_eq!(parse_usize(s), s.parse::<usize>().ok(), "input {:?}", s);
    }
}

#[test]
fn i32_parsing_matches_std() {
    for s in ["0", "-0", "+5", "-5", "", "-", "+", "2147483647", "2147483648", "-2147483648", "-2147483649", "12x", "x12", "1 2", "000123"] {
        assert_eq!(parse_i32(s), s.parse::<i32>().ok(), "input {:?}", s);
    }
}

#[test]
fn numerals_read_back() {
    for n in [0usize, 1, 9, 10, 99, 100, 123456, usize::MAX] {
        assert_eq!(parse_usize(&usize_to_text(n)), Some(n));
    }
    for n in [0i32, 1, -1, 2147483647, -2147483648, 5559] {
        assert_eq!(parse_i32(&i32_to_text(n)), Some(n));
    }
}

#[test]
fn uuid_text_is_hyphenated_lowercase() {
    assert_eq!(uuid_to_text(0), "00000000-0000-0000-0000-000000000000");
    assert_eq!(
        uuid_to_text(0xa1a2a3a4b1b2c1c2d1d2d3d4d5d6d7d8),
        "a1a2a3a4-b1b2-c1c2-d1d2-d3d4d5d6d7d8"
    );
    assert_eq!(uuid_to_text(u128::MAX), "ffffffff-ffff-ffff-ffff-ffffffffffff");
}

#[test]
fn utf8_decoding() {
    assert_eq!(decode_text(b"hello"), Some("hello".to_string()));
    assert_eq!(decode_text("h\u{e9}llo".as_bytes()), Some("h\u{e9}llo".to_string()));
    assert_eq!(decode_text(&[0xff, 0x41]), None);
    assert_eq!(decode_text(&[0xed, 0xa0, 0x80]), None);
    assert_eq!(text_bytes("h\u{e9}"), vec![0x68, 0xc3, 0xa9]);
}
