//! Sixteen-bit fields as they travel on the wire: low byte first.

use vstd::prelude::*;

verus! {

/// The low byte of a 16-bit value.
pub open spec fn low_byte(value: u16) -> u8 {
    (value % 256) as u8
}

/// The high byte of a 16-bit value.
pub open spec fn high_byte(value: u16) -> u8 {
    (value / 256) as u8
}

/// The 16-bit value whose low byte is `low` and whose high byte is `high`.
pub open spec fn le16(low: u8, high: u8) -> u16 {
    (low as int + 256 * (high as int)) as u16
}

/// The low byte of a 16-bit value.
pub fn low_byte_of(value: u16) -> (byte: u8)
    ensures
        byte == low_byte(value),
{
    (value % 256) as u8
}

/// The high byte of a 16-bit value.
pub fn high_byte_of(value: u16) -> (byte: u8)
    ensures
        byte == high_byte(value),
{
    (value / 256) as u8
}

/// Reads the little-endian 16-bit field that starts at `at`.
pub fn read_le16(bytes: &[u8], at: usize) -> (value: u16)
    requires
        at + 1 < bytes@.len(),
    ensures
        value == le16(bytes@[at as int], bytes@[at + 1]),
{
    let low: u16 = bytes[at] as u16;
    let high: u16 = bytes[at + 1] as u16;
    low + 256 * high
}

/// Splitting a value into its two bytes and joining them gives the value back.
pub proof fn lemma_le16_of_bytes(value: u16)
    ensures
        le16(low_byte(value), high_byte(value)) == value,
{
}

/// Joining two bytes and splitting the value gives the bytes back.
pub proof fn lemma_bytes_of_le16(low: u8, high: u8)
    ensures
        low_byte(le16(low, high)) == low,
        high_byte(le16(low, high)) == high,
{
}

} // verus!
