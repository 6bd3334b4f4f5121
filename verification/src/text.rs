//! Text helpers: UTF-8 checking and hexadecimal digits.

use vstd::prelude::*;
use vstd::string::{StringExecFns, StringSliceAdditionalSpecFns};
use vstd::utf8::valid_utf8;

verus! {

/// Reads bytes as text.
///
/// Calls `core::str::from_utf8`, which yields a string slice over the
/// same bytes exactly when they are valid UTF-8, and turns its error into
/// `None`.
#[verifier::external_body]
pub(crate) fn utf8_text(bytes: &[u8]) -> (text: Option<&str>)
    ensures
        text is Some <==> valid_utf8(bytes@),
        text matches Some(s) ==> s.spec_bytes() == bytes@,
{
    core::str::from_utf8(bytes).ok()
}

/// The text that bytes are read as when every sequence that is not valid
/// UTF-8 is replaced by the replacement character.
pub uninterp spec fn utf8_lossy(bytes: Seq<u8>) -> Seq<char>;

/// Reads bytes as text, replacing what is not valid UTF-8.
///
/// Calls `String::from_utf8_lossy`, whose result depends on the bytes
/// alone, and copies it into an owned string.
#[verifier::external_body]
pub(crate) fn lossy_text(bytes: &[u8]) -> (text: String)
    ensures
        text@ == utf8_lossy(bytes@),
{
    String::from_utf8_lossy(bytes).to_string()
}

/// The upper-case hexadecimal digit for a value below 16, as a character.
pub open spec fn upper_hex(value: int) -> char {
    if value == 0 {
        '0'
    } else if value == 1 {
        '1'
    } else if value == 2 {
        '2'
    } else if value == 3 {
        '3'
    } else if value == 4 {
        '4'
    } else if value == 5 {
        '5'
    } else if value == 6 {
        '6'
    } else if value == 7 {
        '7'
    } else if value == 8 {
        '8'
    } else if value == 9 {
        '9'
    } else if value == 10 {
        'A'
    } else if value == 11 {
        'B'
    } else if value == 12 {
        'C'
    } else if value == 13 {
        'D'
    } else if value == 14 {
        'E'
    } else {
        'F'
    }
}

/// A byte as two upper-case hexadecimal digits.
pub open spec fn byte_text(byte: u8) -> Seq<char> {
    seq![upper_hex(byte as int / 16), upper_hex(byte as int % 16)]
}

/// The upper-case hexadecimal digit for a value below 16, as text.
pub fn upper_hex_str(value: u8) -> (digit: &'static str)
    requires
        value < 16,
    ensures
        digit@ == seq![upper_hex(value as int)],
{
    proof {
        reveal_strlit("0");
        reveal_strlit("1");
        reveal_strlit("2");
        reveal_strlit("3");
        reveal_strlit("4");
        reveal_strlit("5");
        reveal_strlit("6");
        reveal_strlit("7");
        reveal_strlit("8");
        reveal_strlit("9");
        reveal_strlit("A");
        reveal_strlit("B");
        reveal_strlit("C");
        reveal_strlit("D");
        reveal_strlit("E");
        reveal_strlit("F");
    }
    let digit = if value == 0 {
        "0"
    } else if value == 1 {
        "1"
    } else if value == 2 {
        "2"
    } else if value == 3 {
        "3"
    } else if value == 4 {
        "4"
    } else if value == 5 {
        "5"
    } else if value == 6 {
        "6"
    } else if value == 7 {
        "7"
    } else if value == 8 {
        "8"
    } else if value == 9 {
        "9"
    } else if value == 10 {
        "A"
    } else if value == 11 {
        "B"
    } else if value == 12 {
        "C"
    } else if value == 13 {
        "D"
    } else if value == 14 {
        "E"
    } else {
        "F"
    };
    assert(digit@ =~= seq![upper_hex(value as int)]);
    digit
}

/// The ASCII code of the upper-case hexadecimal digit for a value below 16.
pub open spec fn upper_hex_code(value: int) -> u8 {
    if value < 10 {
        (0x30 + value) as u8
    } else {
        (0x41 + value - 10) as u8
    }
}

/// The ASCII code of the upper-case hexadecimal digit for a value below 16.
pub fn upper_hex_ascii(value: u8) -> (code: u8)
    requires
        value < 16,
    ensures
        code == upper_hex_code(value as int),
{
    if value < 10 {
        0x30 + value
    } else {
        0x41 + value - 10
    }
}


/// A natural number in decimal, without leading zeros.
pub open spec fn decimal_text(value: nat) -> Seq<char>
    decreases value,
{
    if value < 10 {
        seq![upper_hex(value as int)]
    } else {
        decimal_text(value / 10).push(upper_hex(value as int % 10))
    }
}

/// An integer in decimal, with a minus sign where it is negative.
pub open spec fn signed_text(value: int) -> Seq<char> {
    if value < 0 {
        seq!['-'] + decimal_text((-value) as nat)
    } else {
        decimal_text(value as nat)
    }
}

/// Appends a number in decimal.
pub fn append_decimal(text: &mut String, value: u64)
    ensures
        final(text)@ == old(text)@ + decimal_text(value as nat),
    decreases value,
{
    if value >= 10 {
        append_decimal(text, value / 10);
    }
    text.append(upper_hex_str((value % 10) as u8));
    assert(text@ =~= old(text)@ + decimal_text(value as nat));
}

/// Appends an integer in decimal, with a minus sign where it is negative.
pub fn append_signed(text: &mut String, value: i32)
    ensures
        final(text)@ == old(text)@ + signed_text(value as int),
{
    if value < 0 {
        proof {
            reveal_strlit("-");
        }
        text.append("-");
        append_decimal(text, (-(value as i64)) as u64);
        assert(text@ =~= old(text)@ + signed_text(value as int));
    } else {
        append_decimal(text, value as u64);
    }
}

} // verus!
