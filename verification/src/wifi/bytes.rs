//! Integers in a byte buffer, in either byte order.
//!
//! Netlink carries its integers in the byte order of the host, so every
//! reader and writer here is told the order.

use vstd::prelude::*;

verus! {

/// The order of the bytes of an integer.
#[derive(Debug, Clone, Copy, PartialEq, Eq, Structural)]
pub enum ByteOrder {
    /// Least significant byte first.
    Little,
    /// Most significant byte first.
    Big,
}

/// The 16-bit integer whose bytes, least significant first, are `b0` and `b1`.
pub open spec fn join16(b0: u8, b1: u8) -> u16 {
    (b0 as int + 256 * (b1 as int)) as u16
}

/// The 32-bit integer whose bytes, least significant first, are `b0` to `b3`.
pub open spec fn join32(b0: u8, b1: u8, b2: u8, b3: u8) -> u32 {
    (b0 as int + 256 * (b1 as int) + 65536 * (b2 as int) + 16777216 * (b3 as int)) as u32
}

/// The 16-bit integer at `at`.
pub open spec fn u16_at(data: Seq<u8>, at: int, order: ByteOrder) -> u16 {
    match order {
        ByteOrder::Little => join16(data[at], data[at + 1]),
        ByteOrder::Big => join16(data[at + 1], data[at]),
    }
}

/// The 32-bit integer at `at`.
pub open spec fn u32_at(data: Seq<u8>, at: int, order: ByteOrder) -> u32 {
    match order {
        ByteOrder::Little => join32(data[at], data[at + 1], data[at + 2], data[at + 3]),
        ByteOrder::Big => join32(data[at + 3], data[at + 2], data[at + 1], data[at]),
    }
}

/// A 32-bit pattern read as a signed number in two's complement.
pub open spec fn signed32(value: u32) -> i32 {
    if value < 0x8000_0000 {
        value as i32
    } else {
        (value as int - 0x1_0000_0000) as i32
    }
}

/// The signed 32-bit integer at `at`.
pub open spec fn i32_at(data: Seq<u8>, at: int, order: ByteOrder) -> i32 {
    signed32(u32_at(data, at, order))
}

/// The bytes of a 16-bit integer.
pub open spec fn u16_bytes(value: u16, order: ByteOrder) -> Seq<u8> {
    match order {
        ByteOrder::Little => seq![(value % 256) as u8, (value / 256) as u8],
        ByteOrder::Big => seq![(value / 256) as u8, (value % 256) as u8],
    }
}

/// The bytes of a 32-bit integer.
pub open spec fn u32_bytes(value: u32, order: ByteOrder) -> Seq<u8> {
    match order {
        ByteOrder::Little => seq![
            (value % 256) as u8,
            (value / 256 % 256) as u8,
            (value / 65536 % 256) as u8,
            (value / 16777216) as u8,
        ],
        ByteOrder::Big => seq![
            (value / 16777216) as u8,
            (value / 65536 % 256) as u8,
            (value / 256 % 256) as u8,
            (value % 256) as u8,
        ],
    }
}

/// An 8-bit pattern read as a signed number in two's complement.
pub open spec fn signed8(value: u8) -> i8 {
    if value < 0x80 {
        value as i8
    } else {
        (value as int - 0x100) as i8
    }
}

/// A 16-bit pattern read as a signed number in two's complement.
pub open spec fn signed16(value: u16) -> i16 {
    if value < 0x8000 {
        value as i16
    } else {
        (value as int - 0x1_0000) as i16
    }
}

/// Reads an 8-bit pattern as a signed number.
pub fn to_signed8(value: u8) -> (signed: i8)
    ensures
        signed == signed8(value),
{
    if value < 0x80 {
        value as i8
    } else {
        (value as i16 - 0x100) as i8
    }
}

/// Reads a 16-bit pattern as a signed number.
pub fn to_signed16(value: u16) -> (signed: i16)
    ensures
        signed == signed16(value),
{
    if value < 0x8000 {
        value as i16
    } else {
        (value as i32 - 0x1_0000) as i16
    }
}

/// Reads the 16-bit integer at `at`.
pub fn read_u16(data: &[u8], at: usize, order: ByteOrder) -> (value: u16)
    requires
        at + 2 <= data@.len(),
    ensures
        value == u16_at(data@, at as int, order),
{
    let first: u16 = data[at] as u16;
    let second: u16 = data[at + 1] as u16;
    match order {
        ByteOrder::Little => first + 256 * second,
        ByteOrder::Big => second + 256 * first,
    }
}

/// Reads the 32-bit integer at `at`.
pub fn read_u32(data: &[u8], at: usize, order: ByteOrder) -> (value: u32)
    requires
        at + 4 <= data@.len(),
    ensures
        value == u32_at(data@, at as int, order),
{
    let b0: u32 = data[at] as u32;
    let b1: u32 = data[at + 1] as u32;
    let b2: u32 = data[at + 2] as u32;
    let b3: u32 = data[at + 3] as u32;
    match order {
        ByteOrder::Little => b0 + 256 * b1 + 65536 * b2 + 16777216 * b3,
        ByteOrder::Big => b3 + 256 * b2 + 65536 * b1 + 16777216 * b0,
    }
}

/// Reads a 32-bit pattern as a signed number.
pub fn to_signed32(value: u32) -> (signed: i32)
    ensures
        signed == signed32(value),
{
    if value < 0x8000_0000 {
        value as i32
    } else {
        (value as i64 - 0x1_0000_0000) as i32
    }
}

/// Reads the signed 32-bit integer at `at`.
pub fn read_i32(data: &[u8], at: usize, order: ByteOrder) -> (value: i32)
    requires
        at + 4 <= data@.len(),
    ensures
        value == i32_at(data@, at as int, order),
{
    to_signed32(read_u32(data, at, order))
}

/// Appends the bytes of a 16-bit integer.
pub fn push_u16(buffer: &mut Vec<u8>, value: u16, order: ByteOrder)
    ensures
        final(buffer)@ == old(buffer)@ + u16_bytes(value, order),
{
    let low = (value % 256) as u8;
    let high = (value / 256) as u8;
    match order {
        ByteOrder::Little => {
            buffer.push(low);
            buffer.push(high);
        },
        ByteOrder::Big => {
            buffer.push(high);
            buffer.push(low);
        },
    }
    assert(buffer@ =~= old(buffer)@ + u16_bytes(value, order));
}

/// Appends the bytes of a 32-bit integer.
pub fn push_u32(buffer: &mut Vec<u8>, value: u32, order: ByteOrder)
    ensures
        final(buffer)@ == old(buffer)@ + u32_bytes(value, order),
{
    let b0 = (value % 256) as u8;
    let b1 = (value / 256 % 256) as u8;
    let b2 = (value / 65536 % 256) as u8;
    let b3 = (value / 16777216) as u8;
    match order {
        ByteOrder::Little => {
            buffer.push(b0);
            buffer.push(b1);
            buffer.push(b2);
            buffer.push(b3);
        },
        ByteOrder::Big => {
            buffer.push(b3);
            buffer.push(b2);
            buffer.push(b1);
            buffer.push(b0);
        },
    }
    assert(buffer@ =~= old(buffer)@ + u32_bytes(value, order));
}

/// What is written is what is read back.
pub proof fn lemma_u16_round_trip(value: u16, order: ByteOrder)
    ensures
        u16_at(u16_bytes(value, order), 0, order) == value,
{
}

/// What is written is what is read back.
pub proof fn lemma_u32_round_trip(value: u32, order: ByteOrder)
    ensures
        u32_at(u32_bytes(value, order), 0, order) == value,
{
}

} // verus!
