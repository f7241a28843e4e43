//! How the values of the command line are read: codes of controls, and the
//! bytes of a table.

use vstd::prelude::*;
use vstd::string::{StrSliceExecFns, StringSliceAdditionalSpecFns};
use crate::feature::FeatureCode;

verus! {

/// The bytes of a table, as they are given on the command line in
/// hexadecimal.
pub type HexString = Vec<u8>;

/// Why a text is not the hexadecimal form of a sequence of bytes.
#[derive(Clone, Copy, Debug, PartialEq, Eq)]
pub enum HexError {
    /// The byte `c` at the position `index` of the text is no hexadecimal
    /// digit.
    InvalidHexCharacter { c: char, index: usize },
    /// The text has an odd number of bytes, and two digits make a byte.
    OddLength,
    /// The text does not have the length of what it is decoded into.
    InvalidStringLength,
}

/// The number that a hexadecimal digit stands for: `byte` is the digit as it
/// stands in the text, in either case.
pub open spec fn hex_value(byte: u8) -> Option<int> {
    if 0x30 <= byte <= 0x39 {
        Some(byte - 0x30)
    } else if 0x61 <= byte <= 0x66 {
        Some(byte - 0x61 + 10)
    } else if 0x41 <= byte <= 0x46 {
        Some(byte - 0x41 + 10)
    } else {
        None
    }
}

/// The position of the first byte from `from` on that is no hexadecimal
/// digit, if there is one.
pub open spec fn first_invalid(text: Seq<u8>, from: int) -> Option<int>
    decreases text.len() - from,
{
    if from < 0 || from >= text.len() {
        None
    } else if hex_value(text[from]) is None {
        Some(from)
    } else {
        first_invalid(text, from + 1)
    }
}

/// The bytes that `text` stands for in hexadecimal, two digits to a byte
/// and the high digit first. A text of odd length stands for nothing; in a
/// text of even length the first byte that is no digit is the fault.
pub open spec fn decoded(text: Seq<u8>) -> Result<Seq<u8>, HexError> {
    if text.len() % 2 != 0 {
        Err(HexError::OddLength)
    } else {
        match first_invalid(text, 0) {
            Some(index) => Err(
                HexError::InvalidHexCharacter { c: text[index] as char, index: index as usize },
            ),
            None => Ok(
                Seq::new(
                    text.len() / 2,
                    |i: int|
                        (hex_value(text[2 * i]).unwrap() * 16 + hex_value(
                            text[2 * i + 1],
                        ).unwrap()) as u8,
                ),
            ),
        }
    }
}

/// Reads the bytes of a table from their hexadecimal form.
pub fn parse_hex_string(s: &str) -> (bytes: Result<HexString, HexError>)
    ensures
        match bytes {
            Ok(bytes) => decoded(s.spec_bytes()) == Ok::<Seq<u8>, HexError>(bytes@),
            Err(error) => decoded(s.spec_bytes()) == Err::<Seq<u8>, HexError>(error),
        },
{
    decode(s)
}

/// `hex::decode`, on the bytes of the text. It refuses a text with an odd
/// number of bytes as `OddLength`. Otherwise it takes the bytes in pairs
/// from the left; each byte must be one of `0` to `9`, `a` to `f` or `A` to
/// `F`, and the first that is not is reported with its position, as the
/// character of the same number. A pair gives sixteen times the first
/// digit plus the second.
#[verifier::external_body]
fn decode(text: &str) -> (bytes: Result<Vec<u8>, HexError>)
    ensures
        match bytes {
            Ok(bytes) => decoded(text.spec_bytes()) == Ok::<Seq<u8>, HexError>(bytes@),
            Err(error) => decoded(text.spec_bytes()) == Err::<Seq<u8>, HexError>(error),
        },
{
    match hex::decode(text) {
        Ok(bytes) => Ok(bytes),
        Err(hex::FromHexError::InvalidHexCharacter { c, index }) => Err(
            HexError::InvalidHexCharacter { c, index },
        ),
        Err(hex::FromHexError::OddLength) => Err(HexError::OddLength),
        Err(hex::FromHexError::InvalidStringLength) => Err(HexError::InvalidStringLength),
    }
}

/// Why a text is not the code of a control.
#[derive(Clone, Copy, Debug, PartialEq, Eq, Structural)]
pub enum ParseError {
    /// There is no text.
    Empty,
    /// A character is no digit, or a sign stands where a digit should.
    InvalidDigit,
    /// The number is larger than a code can be.
    Overflow,
}

/// The number that `c` stands for as a digit in the given radix: the
/// decimal digits, then the letters of either case from ten on.
pub open spec fn digit_value(c: char, radix: int) -> Option<int> {
    let value = if '0' <= c <= '9' {
        c as int - '0' as int
    } else if 'a' <= c <= 'z' {
        c as int - 'a' as int + 10
    } else if 'A' <= c <= 'Z' {
        c as int - 'A' as int + 10
    } else {
        radix
    };
    if value < radix {
        Some(value)
    } else {
        None
    }
}

/// The number that `digits` stand for in the given radix, as far as it is
/// the code of a control. The digits are taken from the left, and the first
/// that is no digit, or that makes the number larger than 255, is the
/// fault.
pub open spec fn number(digits: Seq<char>, radix: int) -> Result<int, ParseError>
    decreases digits.len(),
{
    if digits.len() == 0 {
        Ok(0)
    } else {
        match number(digits.drop_last(), radix) {
            Err(error) => Err(error),
            Ok(front) => match digit_value(digits.last(), radix) {
                None => Err(ParseError::InvalidDigit),
                Some(digit) => if front * radix + digit > 255 {
                    Err(ParseError::Overflow)
                } else {
                    Ok(front * radix + digit)
                },
            },
        }
    }
}

/// The number that `text` stands for in the given radix: digits, with a
/// plus sign before them or without. No text at all stands for nothing, and
/// neither does a sign alone.
pub open spec fn unsigned(text: Seq<char>, radix: int) -> Result<int, ParseError> {
    if text.len() == 0 {
        Err(ParseError::Empty)
    } else if text.len() == 1 && (text[0] == '+' || text[0] == '-') {
        Err(ParseError::InvalidDigit)
    } else if text[0] == '+' {
        number(text.skip(1), radix)
    } else {
        number(text, radix)
    }
}

/// Whether `text` begins with `0x`.
pub open spec fn prefixed(text: Seq<char>) -> bool {
    text.len() >= 2 && text[0] == '0' && text[1] == 'x'
}

/// The code that `text` stands for: hexadecimal behind `0x`, decimal
/// otherwise.
pub open spec fn feature(text: Seq<char>) -> Result<int, ParseError> {
    if prefixed(text) {
        unsigned(text.skip(2), 16)
    } else {
        unsigned(text, 10)
    }
}

/// Reads the code of a control: a decimal number, or a hexadecimal one
/// behind `0x`.
pub fn parse_feature(s: &str) -> (code: Result<FeatureCode, ParseError>)
    ensures
        match code {
            Ok(code) => feature(s@) == Ok::<int, ParseError>(code as int),
            Err(error) => feature(s@) == Err::<int, ParseError>(error),
        },
{
    let len = s.unicode_len();
    assert(s@.skip(0) =~= s@);
    if len >= 2 && s.get_char(0) == '0' && s.get_char(1) == 'x' {
        parse_unsigned(s, 2, len, 16)
    } else {
        parse_unsigned(s, 0, len, 10)
    }
}

fn to_digit(c: char, radix: u32) -> (digit: Option<u32>)
    requires
        2 <= radix <= 36,
    ensures
        match digit {
            Some(digit) => digit_value(c, radix as int) == Some(digit as int),
            None => digit_value(c, radix as int) is None,
        },
{
    let value = if '0' <= c && c <= '9' {
        c as u32 - '0' as u32
    } else if 'a' <= c && c <= 'z' {
        c as u32 - 'a' as u32 + 10
    } else if 'A' <= c && c <= 'Z' {
        c as u32 - 'A' as u32 + 10
    } else {
        radix
    };
    if value < radix {
        Some(value)
    } else {
        None
    }
}

/// Reads the number that stands in `s` from the position `from` on.
fn parse_unsigned(s: &str, from: usize, len: usize, radix: u32) -> (code: Result<
    FeatureCode,
    ParseError,
>)
    requires
        len == s@.len(),
        from <= len,
        2 <= radix <= 36,
    ensures
        match code {
            Ok(code) => unsigned(s@.skip(from as int), radix as int) == Ok::<int, ParseError>(
                code as int,
            ),
            Err(error) => unsigned(s@.skip(from as int), radix as int) == Err::<
                int,
                ParseError,
            >(error),
        },
{
    let ghost text = s@.skip(from as int);
    if from == len {
        return Err(ParseError::Empty);
    }
    let first = s.get_char(from);
    assert(text[0] == first);
    if len - from == 1 && (first == '+' || first == '-') {
        return Err(ParseError::InvalidDigit);
    }
    let start = if first == '+' {
        from + 1
    } else {
        from
    };
    let ghost digits = s@.skip(start as int);
    assert(digits =~= if first == '+' {
        text.skip(1)
    } else {
        text
    });
    assert(unsigned(text, radix as int) == number(digits, radix as int));
    let mut value: u32 = 0;
    let mut i = start;
    while i < len
        invariant
            start <= i <= len,
            len == s@.len(),
            2 <= radix <= 36,
            digits == s@.skip(start as int),
            unsigned(s@.skip(from as int), radix as int) == number(digits, radix as int),
            value <= 255,
            number(digits.take(i - start), radix as int) == Ok::<int, ParseError>(value as int),
        decreases len - i,
    {
        let c = s.get_char(i);
        proof {
            let next = digits.take(i - start + 1);
            assert(next.drop_last() =~= digits.take(i - start));
            assert(next.last() == c);
            lemma_failed_prefix(digits, radix as int, i - start + 1);
        }
        match to_digit(c, radix) {
            None => {
                return Err(ParseError::InvalidDigit);
            },
            Some(digit) => {
                assert(value * radix <= 255 * 36) by (nonlinear_arith)
                    requires
                        value <= 255,
                        radix <= 36,
                ;
                let next = value * radix + digit;
                if next > 255 {
                    return Err(ParseError::Overflow);
                }
                value = next;
            },
        }
        i += 1;
    }
    assert(digits.take(i - start) =~= digits);
    Ok(value as u8)
}

/// Digits that fail fail wherever they are continued: the fault of a part
/// taken from the left is the fault of the whole.
proof fn lemma_failed_prefix(digits: Seq<char>, radix: int, end: int)
    requires
        0 <= end <= digits.len(),
    ensures
        number(digits.take(end), radix) matches Err(error) ==> number(digits, radix) == Err::<
            int,
            ParseError,
        >(error),
    decreases digits.len() - end,
{
    if end < digits.len() {
        assert(digits.take(end + 1).drop_last() =~= digits.take(end));
        lemma_failed_prefix(digits, radix, end + 1);
    } else {
        assert(digits.take(end) =~= digits);
    }
}

} // verus!
