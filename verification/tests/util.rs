use ddcset::util::{parse_feature, parse_hex_string, HexError, ParseError};

#[test]
fn feature_code_in_decimal() {
    assert_eq!(parse_feature("16"), Ok(16));
    assert_eq!(parse_feature("0"), Ok(0));
    assert_eq!(parse_feature("255"), Ok(255));
    assert_eq!(parse_feature("007"), Ok(7));
    assert_eq!(parse_feature("+12"), Ok(12));
}

#[test]
fn feature_code_in_hexadecimal() {
    assert_eq!(parse_feature("0x10"), Ok(0x10));
    assert_eq!(parse_feature("0xff"), Ok(0xff));
    assert_eq!(parse_feature("0xFF"), Ok(0xff));
    assert_eq!(parse_feature("0xA"), Ok(10));
    assert_eq!(parse_feature("0x000df"), Ok(0xdf));
    assert_eq!(parse_feature("0x+1f"), Ok(0x1f));
}

#[test]
fn feature_code_must_not_be_empty() {
    assert_eq!(parse_feature(""), Err(ParseError::Empty));
    assert_eq!(parse_feature("0x"), Err(ParseError::Empty));
}

#[test]
fn feature_code_must_be_digits() {
    assert_eq!(parse_feature("abc"), Err(ParseError::InvalidDigit));
    assert_eq!(parse_feature("1f"), Err(ParseError::InvalidDigit));
    assert_eq!(parse_feature("0xg0"), Err(ParseError::InvalidDigit));
    assert_eq!(parse_feature("0X10"), Err(ParseError::InvalidDigit));
    assert_eq!(parse_feature("-1"), Err(ParseError::InvalidDigit));
    assert_eq!(parse_feature("+"), Err(ParseError::InvalidDigit));
    assert_eq!(parse_feature("-"), Err(ParseError::InvalidDigit));
    assert_eq!(parse_feature("0x-"), Err(ParseError::InvalidDigit));
    assert_eq!(parse_feature("++1"), Err(ParseError::InvalidDigit));
    assert_eq!(parse_feature(" 1"), Err(ParseError::InvalidDigit));
    assert_eq!(parse_feature("1 "), Err(ParseError::InvalidDigit));
    assert_eq!(parse_feature("1_0"), Err(ParseError::InvalidDigit));
    assert_eq!(parse_feature("٣"), Err(ParseError::InvalidDigit));
}

#[test]
fn feature_code_must_fit_a_byte() {
    assert_eq!(parse_feature("256"), Err(ParseError::Overflow));
    assert_eq!(parse_feature("0x100"), Err(ParseError::Overflow));
    assert_eq!(parse_feature("99999999999999999999"), Err(ParseError::Overflow));
}

#[test]
fn feature_code_fault_is_the_first_from_the_left() {
    // too large before the letter is reached
    assert_eq!(parse_feature("999x"), Err(ParseError::Overflow));
    // the letter comes before the number is too large
    assert_eq!(parse_feature("2x56"), Err(ParseError::InvalidDigit));
    assert_eq!(parse_feature("25x"), Err(ParseError::InvalidDigit));
}

#[test]
fn feature_code_agrees_with_the_standard_parser() {
    let texts = [
        "", "0", "7", "42", "255", "256", "300", "+5", "-5", "+", "-", "0x", "0x0", "0x7f", "0xfF",
        "0x100", "0xzz", "12a", "a12", "999x", "0x+", "0x-1", "0009", "0x0000ff", " 7", "1.5",
    ];
    for text in texts {
        let expected = if let Some(hex) = text.strip_prefix("0x") {
            u8::from_str_radix(hex, 16).ok()
        } else {
            text.parse::<u8>().ok()
        };
        assert_eq!(parse_feature(text).ok(), expected, "{:?}", text);
    }
}

#[test]
fn hex_string_gives_bytes() {
    assert_eq!(parse_hex_string("6b697769"), Ok(vec![0x6b, 0x69, 0x77, 0x69]));
    assert_eq!(parse_hex_string("00ff"), Ok(vec![0x00, 0xff]));
    assert_eq!(parse_hex_string("F9b4Ca"), Ok(vec![0xf9, 0xb4, 0xca]));
    assert_eq!(parse_hex_string(""), Ok(vec![]));
}

#[test]
fn hex_string_of_odd_length_is_refused() {
    assert_eq!(parse_hex_string("1"), Err(HexError::OddLength));
    assert_eq!(parse_hex_string("abc"), Err(HexError::OddLength));
    // the length is looked at before the digits
    assert_eq!(parse_hex_string("xyz"), Err(HexError::OddLength));
}

#[test]
fn hex_string_names_the_first_invalid_character() {
    assert_eq!(
        parse_hex_string("12g4"),
        Err(HexError::InvalidHexCharacter { c: 'g', index: 2 })
    );
    assert_eq!(
        parse_hex_string("zz"),
        Err(HexError::InvalidHexCharacter { c: 'z', index: 0 })
    );
    assert_eq!(
        parse_hex_string("0x10"),
        Err(HexError::InvalidHexCharacter { c: 'x', index: 1 })
    );
    assert_eq!(
        parse_hex_string("a "),
        Err(HexError::InvalidHexCharacter { c: ' ', index: 1 })
    );
}

#[test]
fn hex_string_counts_bytes_not_characters() {
    // "é" is two bytes, 0xc3 and 0xa9: the text has an even number of bytes
    assert_eq!(
        parse_hex_string("é"),
        Err(HexError::InvalidHexCharacter { c: '\u{c3}', index: 0 })
    );
    assert_eq!(parse_hex_string("1é"), Err(HexError::OddLength));
}
