//! Device addresses as text: six bytes in hexadecimal, separated by colons.

use vstd::prelude::*;
use vstd::string::StringSliceAdditionalSpecFns;
use vstd::string::StringExecFns;
use crate::ble::types::BleAddress;
use crate::text::{byte_text, upper_hex, upper_hex_code, upper_hex_str};

verus! {

/// The byte that separates the fields of an address.
pub const SEPARATOR: u8 = 0x3A;

/// The byte of a plus sign.
pub const PLUS: u8 = 0x2B;

/// The value of a hexadecimal digit, in either case.
pub open spec fn hex_digit(byte: u8) -> Option<int> {
    if 0x30 <= byte <= 0x39 {
        Some(byte - 0x30)
    } else if 0x41 <= byte <= 0x46 {
        Some(byte - 0x41 + 10)
    } else if 0x61 <= byte <= 0x66 {
        Some(byte - 0x61 + 10)
    } else {
        None
    }
}

/// The number that a run of hexadecimal digits writes, or `None` where a
/// byte of the run is no such digit. The empty run writes 0.
pub open spec fn hex_value(digits: Seq<u8>) -> Option<int>
    decreases digits.len(),
{
    if digits.len() == 0 {
        Some(0)
    } else {
        match (hex_value(digits.drop_last()), hex_digit(digits.last())) {
            (Some(value), Some(digit)) => Some(16 * value + digit),
            _ => None,
        }
    }
}

/// The digits of a field: the field without its leading plus sign, if it has one.
pub open spec fn field_digits(field: Seq<u8>) -> Seq<u8> {
    if field.len() > 0 && field[0] == PLUS {
        field.skip(1)
    } else {
        field
    }
}

/// The byte that a field writes: an optional plus sign and at least one
/// hexadecimal digit, which together write a number up to 255.
pub open spec fn hex_byte(field: Seq<u8>) -> Option<u8> {
    let digits = field_digits(field);
    if digits.len() == 0 {
        None
    } else {
        match hex_value(digits) {
            Some(value) => if value <= 255 {
                Some(value as u8)
            } else {
                None
            },
            None => None,
        }
    }
}

/// The fields of a text: the runs of bytes between its separators. A
/// text with `n` separators has `n + 1` fields, empty ones included.
pub open spec fn fields(text: Seq<u8>) -> Seq<Seq<u8>>
    decreases text.len(),
{
    if text.len() == 0 {
        seq![Seq::empty()]
    } else {
        let before = fields(text.drop_last());
        if text.last() == SEPARATOR {
            before.push(Seq::empty())
        } else {
            before.drop_last().push(before.last().push(text.last()))
        }
    }
}

/// Whether every one of the first six fields writes a byte.
pub open spec fn all_bytes(parts: Seq<Seq<u8>>) -> bool {
    forall|k: int| 0 <= k < parts.len() && k < 6 ==> hex_byte(#[trigger] parts[k]) is Some
}

/// The address that a text writes: exactly six fields, each of which
/// writes a byte.
pub open spec fn parse_address(text: Seq<u8>) -> Option<Seq<u8>> {
    let parts = fields(text);
    if parts.len() == 6 && all_bytes(parts) {
        Some(Seq::new(6, |k: int| hex_byte(parts[k]).unwrap()))
    } else {
        None
    }
}

/// The value of a hexadecimal digit.
pub fn hex_digit_value(byte: u8) -> (value: Option<u8>)
    ensures
        match value {
            Some(digit) => hex_digit(byte) == Some(digit as int) && digit < 16,
            None => hex_digit(byte) is None,
        },
{
    if 0x30 <= byte && byte <= 0x39 {
        Some(byte - 0x30)
    } else if 0x41 <= byte && byte <= 0x46 {
        Some(byte - 0x41 + 10)
    } else if 0x61 <= byte && byte <= 0x66 {
        Some(byte - 0x61 + 10)
    } else {
        None
    }
}

/// A run of digits writes a number no smaller than any of its beginnings does.
pub proof fn lemma_hex_value_grows(digits: Seq<u8>, count: int)
    requires
        0 <= count <= digits.len(),
        hex_value(digits) is Some,
    ensures
        hex_value(digits.take(count)) is Some,
        0 <= hex_value(digits.take(count)).unwrap() <= hex_value(digits).unwrap(),
    decreases digits.len(),
{
    if count == digits.len() {
        assert(digits.take(count) =~= digits);
        if digits.len() > 0 {
            lemma_hex_value_grows(digits.drop_last(), count - 1);
        }
    } else {
        lemma_hex_value_grows(digits.drop_last(), count);
        assert(digits.drop_last().take(count) =~= digits.take(count));
    }
}

/// Reads the byte that the field `text[from..to]` writes.
pub fn parse_hex_byte(text: &[u8], from: usize, to: usize) -> (value: Option<u8>)
    requires
        from <= to <= text@.len(),
    ensures
        value == hex_byte(text@.subrange(from as int, to as int)),
{
    let ghost field = text@.subrange(from as int, to as int);
    let first: usize = if from < to && text[from] == PLUS {
        from + 1
    } else {
        from
    };
    let ghost digits = text@.subrange(first as int, to as int);
    assert(digits =~= field_digits(field));
    if first == to {
        return None;
    }
    let mut value: u32 = 0;
    let mut at: usize = first;
    while at < to
        invariant
            from <= first <= at <= to <= text@.len(),
            first < to,
            digits == text@.subrange(first as int, to as int),
            digits == field_digits(text@.subrange(from as int, to as int)),
            hex_value(digits.take(at - first)) == Some(value as int),
            value <= 255,
        decreases to - at,
    {
        let ghost seen = digits.take(at - first + 1);
        assert(seen.drop_last() =~= digits.take(at - first));
        assert(seen.last() == text@[at as int]);
        match hex_digit_value(text[at]) {
            Some(digit) => {
                value = 16 * value + digit as u32;
                if value > 255 {
                    proof {
                        if hex_value(digits) is Some {
                            lemma_hex_value_grows(digits, at - first + 1);
                        }
                    }
                    return None;
                }
            },
            None => {
                proof {
                    if hex_value(digits) is Some {
                        lemma_hex_value_grows(digits, at - first + 1);
                    }
                }
                return None;
            },
        }
        at += 1;
    }
    assert(digits.take(at - first) =~= digits);
    Some(value as u8)
}

impl BleAddress {
    /// Create a BLE address from a string like "AA:BB:CC:DD:EE:FF".
    ///
    /// The string must hold six fields separated by colons. Each field
    /// is one byte in hexadecimal, in either case; it may have leading
    /// zeros and a leading plus sign.
    pub fn from_str(s: &str) -> (address: Option<Self>)
        ensures
            match address {
                Some(found) => parse_address(s.spec_bytes()) == Some(found.bytes@),
                None => parse_address(s.spec_bytes()) is None,
            },
    {
        let text = s.as_bytes();
        let mut bytes: [u8; 6] = [0u8; 6];
        let mut valid = true;
        let mut count: usize = 0;
        let mut start: usize = 0;
        let mut at: usize = 0;
        let ghost mut done: Seq<Seq<u8>> = Seq::empty();
        assert(text@.take(0) =~= Seq::<u8>::empty());
        assert(fields(text@.take(0)) =~= done.push(text@.subrange(0, 0)));
        while at < text.len()
            invariant
                start <= at <= text@.len(),
                count == done.len(),
                count <= at,
                fields(text@.take(at as int)) == done.push(text@.subrange(start as int, at as int)),
                valid <==> all_bytes(done),
                valid ==> forall|k: int|
                    0 <= k < done.len() && k < 6 ==> hex_byte(#[trigger] done[k]) == Some(
                        bytes@[k],
                    ),
            decreases text@.len() - at,
        {
            let ghost before = fields(text@.take(at as int));
            assert(text@.take(at + 1).drop_last() =~= text@.take(at as int));
            assert(text@.take(at + 1).last() == text@[at as int]);
            if text[at] == SEPARATOR {
                let value = parse_hex_byte(text, start, at);
                let ghost field = text@.subrange(start as int, at as int);
                if count < 6 {
                    match value {
                        Some(byte) => {
                            bytes[count] = byte;
                        },
                        None => {
                            proof {
                                if all_bytes(done.push(field)) {
                                    assert(done.push(field)[count as int] == field);
                                }
                            }
                            valid = false;
                        },
                    }
                }
                proof {
                    let next = done.push(field);
                    assert(text@.subrange(at + 1, at + 1) =~= Seq::<u8>::empty());
                    assert(fields(text@.take(at + 1)) == before.push(Seq::<u8>::empty()));
                    assert(fields(text@.take(at + 1)) =~= next.push(
                        text@.subrange(at + 1, at + 1),
                    ));
                    assert forall|k: int| 0 <= k < next.len() && k < 6 && valid implies hex_byte(
                        #[trigger] next[k],
                    ) == Some(bytes@[k]) by {
                        if k < done.len() {
                            assert(next[k] == done[k]);
                        }
                    }
                    if !valid && all_bytes(next) {
                        assert forall|k: int| 0 <= k < done.len() && k < 6 implies hex_byte(
                            #[trigger] done[k],
                        ) is Some by {
                            assert(next[k] == done[k]);
                        }
                    }
                    done = next;
                }
                count += 1;
                start = at + 1;
            } else {
                proof {
                    assert(before.drop_last() =~= done);
                    assert(before.last().push(text@[at as int]) =~= text@.subrange(
                        start as int,
                        at + 1,
                    ));
                }
            }
            at += 1;
        }
        assert(text@.take(at as int) =~= text@);
        let value = parse_hex_byte(text, start, at);
        let ghost last = text@.subrange(start as int, at as int);
        let ghost parts = done.push(last);
        assert(parts == fields(text@));
        if count != 5 {
            return None;
        }
        match value {
            Some(byte) => {
                bytes[5] = byte;
            },
            None => {
                assert(parts[5] == last);
                return None;
            },
        }
        if !valid {
            proof {
                if all_bytes(parts) {
                    assert forall|k: int| 0 <= k < done.len() && k < 6 implies hex_byte(
                        #[trigger] done[k],
                    ) is Some by {
                        assert(parts[k] == done[k]);
                    }
                }
            }
            return None;
        }
        proof {
            assert forall|k: int| 0 <= k < 6 implies hex_byte(#[trigger] parts[k]) == Some(
                bytes@[k],
            ) by {
                if k < 5 {
                    assert(parts[k] == done[k]);
                }
            }
            assert(bytes@ =~= Seq::new(6, |k: int| hex_byte(parts[k]).unwrap()));
        }
        Some(BleAddress { bytes })
    }
}


/// An address as text: its six bytes as two upper-case hexadecimal
/// digits each, separated by colons.
pub open spec fn address_text(bytes: Seq<u8>) -> Seq<char> {
    byte_text(bytes[0]) + seq![':'] + byte_text(bytes[1]) + seq![':'] + byte_text(bytes[2])
        + seq![':'] + byte_text(bytes[3]) + seq![':'] + byte_text(bytes[4]) + seq![':']
        + byte_text(bytes[5])
}

/// Appends a byte as two upper-case hexadecimal digits.
pub fn append_byte(text: &mut String, byte: u8)
    ensures
        final(text)@ == old(text)@ + byte_text(byte),
{
    text.append(upper_hex_str(byte / 16));
    text.append(upper_hex_str(byte % 16));
    assert(text@ =~= old(text)@ + byte_text(byte));
}

impl BleAddress {
    /// The address as text, like "AA:BB:CC:DD:EE:FF".
    pub fn to_string(&self) -> (text: String)
        ensures
            text@ == address_text(self.bytes@),
    {
        proof {
            reveal_strlit(":");
        }
        let mut text = String::new();
        append_byte(&mut text, self.bytes[0]);
        text.append(":");
        append_byte(&mut text, self.bytes[1]);
        text.append(":");
        append_byte(&mut text, self.bytes[2]);
        text.append(":");
        append_byte(&mut text, self.bytes[3]);
        text.append(":");
        append_byte(&mut text, self.bytes[4]);
        text.append(":");
        append_byte(&mut text, self.bytes[5]);
        assert(text@ =~= address_text(self.bytes@));
        text
    }
}


/// A byte as the ASCII codes of its two upper-case hexadecimal digits.
pub open spec fn byte_field(byte: u8) -> Seq<u8> {
    seq![upper_hex_code(byte as int / 16), upper_hex_code(byte as int % 16)]
}

/// A text always has a field.
pub proof fn lemma_fields_nonempty(text: Seq<u8>)
    ensures
        fields(text).len() >= 1,
    decreases text.len(),
{
    if text.len() > 0 {
        lemma_fields_nonempty(text.drop_last());
    }
}

/// Bytes without a separator that follow a text lengthen its last field.
pub proof fn lemma_fields_extend(text: Seq<u8>, more: Seq<u8>)
    requires
        forall|i: int| 0 <= i < more.len() ==> more[i] != SEPARATOR,
    ensures
        fields(text + more) == fields(text).drop_last().push(fields(text).last() + more),
    decreases more.len(),
{
    lemma_fields_nonempty(text);
    if more.len() == 0 {
        assert(text + more =~= text);
        assert(fields(text).last() + more =~= fields(text).last());
        assert(fields(text).drop_last().push(fields(text).last()) =~= fields(text));
    } else {
        let front = more.drop_last();
        lemma_fields_extend(text, front);
        assert((text + more).drop_last() =~= text + front);
        assert((text + more).last() == more.last());
        assert(fields(text).last() + more =~= (fields(text).last() + front).push(more.last()));
        let before = fields(text + front);
        assert(before.drop_last() =~= fields(text).drop_last());
    }
}

/// A field without a separator that follows a text and a separator is a
/// field of its own.
pub proof fn lemma_fields_append(text: Seq<u8>, field: Seq<u8>)
    requires
        forall|i: int| 0 <= i < field.len() ==> field[i] != SEPARATOR,
    ensures
        fields(text + seq![SEPARATOR] + field) == fields(text).push(field),
{
    let ended = text + seq![SEPARATOR];
    assert(ended.drop_last() =~= text);
    assert(fields(ended) == fields(text).push(Seq::<u8>::empty()));
    lemma_fields_extend(ended, field);
    assert(fields(ended).drop_last() =~= fields(text));
    assert(Seq::<u8>::empty() + field =~= field);
}

/// The two digits of a byte write that byte.
pub proof fn lemma_byte_field_is_read_back(byte: u8)
    ensures
        hex_byte(byte_field(byte)) == Some(byte),
        forall|i: int| 0 <= i < byte_field(byte).len() ==> byte_field(byte)[i] != SEPARATOR,
{
    let field = byte_field(byte);
    assert(field_digits(field) == field);
    assert(field.drop_last() =~= seq![field[0]]);
    assert(field.drop_last().drop_last() =~= Seq::<u8>::empty());
    assert(hex_value(field.drop_last().drop_last()) == Some(0int));
    assert(hex_value(field.drop_last()) == Some(byte as int / 16)) by {
        assert(field.drop_last().last() == field[0]);
    }
    assert(hex_value(field) == Some(byte as int));
}

/// An address that is written as text is read back from that text: the
/// six bytes that `from_str` reads from what `to_string` wrote are the
/// address.
pub proof fn lemma_address_text_is_read_back(bytes: Seq<u8>)
    requires
        bytes.len() == 6,
    ensures
        parse_address(vstd::utf8::encode_utf8(address_text(bytes))) == Some(bytes),
{
    let chars = address_text(bytes);
    let text = vstd::utf8::encode_utf8(chars);
    let sep = seq![SEPARATOR];
    let written = byte_field(bytes[0]) + sep + byte_field(bytes[1]) + sep + byte_field(bytes[2])
        + sep + byte_field(bytes[3]) + sep + byte_field(bytes[4]) + sep + byte_field(bytes[5]);
    assert(chars.len() == 17);
    assert forall|i: int| 0 <= i < chars.len() implies '\0' <= #[trigger] chars[i]
        <= '\u{7f}' && chars[i] as u8 == written[i] by {
        lemma_hex_characters();
    }
    assert(vstd::utf8::is_ascii_chars(chars));
    vstd::utf8::is_ascii_chars_encode_utf8(chars);
    assert(text =~= written);
    lemma_byte_field_is_read_back(bytes[0]);
    lemma_byte_field_is_read_back(bytes[1]);
    lemma_byte_field_is_read_back(bytes[2]);
    lemma_byte_field_is_read_back(bytes[3]);
    lemma_byte_field_is_read_back(bytes[4]);
    lemma_byte_field_is_read_back(bytes[5]);
    let t0 = byte_field(bytes[0]);
    lemma_fields_extend(Seq::<u8>::empty(), t0);
    assert(Seq::<u8>::empty() + t0 =~= t0);
    assert(fields(Seq::<u8>::empty()) =~= seq![Seq::<u8>::empty()]);
    assert(fields(t0) =~= seq![t0]);
    lemma_fields_append(t0, byte_field(bytes[1]));
    let t1 = t0 + sep + byte_field(bytes[1]);
    lemma_fields_append(t1, byte_field(bytes[2]));
    let t2 = t1 + sep + byte_field(bytes[2]);
    lemma_fields_append(t2, byte_field(bytes[3]));
    let t3 = t2 + sep + byte_field(bytes[3]);
    lemma_fields_append(t3, byte_field(bytes[4]));
    let t4 = t3 + sep + byte_field(bytes[4]);
    lemma_fields_append(t4, byte_field(bytes[5]));
    let parts = fields(written);
    assert(parts =~= seq![
        byte_field(bytes[0]),
        byte_field(bytes[1]),
        byte_field(bytes[2]),
        byte_field(bytes[3]),
        byte_field(bytes[4]),
        byte_field(bytes[5]),
    ]);
    assert(all_bytes(parts));
    assert(Seq::new(6, |k: int| hex_byte(parts[k]).unwrap()) =~= bytes);
}

/// The hexadecimal digits as characters have the ASCII codes of the
/// hexadecimal digits, and so has the colon.
pub proof fn lemma_hex_characters()
    ensures
        forall|value: int|
            0 <= value < 16 ==> (#[trigger] upper_hex(value)) as u8 == upper_hex_code(value)
                && '\0' <= upper_hex(value) <= '\u{7f}',
        ':' as u8 == SEPARATOR,
{
}

} // verus!
