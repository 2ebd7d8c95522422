//! Little-endian encoding of 64-bit values.

use vstd::prelude::*;

verus! {

/// The number that eight bytes spell, least significant byte first.
pub open spec fn le_u64(bytes: Seq<u8>) -> int
    recommends
        bytes.len() >= 8,
{
    bytes[0] + bytes[1] * 0x100 + bytes[2] * 0x1_0000 + bytes[3] * 0x100_0000 + bytes[4]
        * 0x1_0000_0000 + bytes[5] * 0x100_0000_0000 + bytes[6] * 0x1_0000_0000_0000 + bytes[7]
        * 0x100_0000_0000_0000
}

/// The byte of `value` at position `index`, counting from the least
/// significant one.
pub open spec fn le_byte(value: u64, index: int) -> u8
    recommends
        0 <= index < 8,
{
    if index == 0 {
        (value % 0x100) as u8
    } else if index == 1 {
        (value / 0x100 % 0x100) as u8
    } else if index == 2 {
        (value / 0x1_0000 % 0x100) as u8
    } else if index == 3 {
        (value / 0x100_0000 % 0x100) as u8
    } else if index == 4 {
        (value / 0x1_0000_0000 % 0x100) as u8
    } else if index == 5 {
        (value / 0x100_0000_0000 % 0x100) as u8
    } else if index == 6 {
        (value / 0x1_0000_0000_0000 % 0x100) as u8
    } else {
        (value / 0x100_0000_0000_0000 % 0x100) as u8
    }
}

/// The eight bytes of `value`, least significant byte first.
pub open spec fn le_bytes(value: u64) -> Seq<u8> {
    Seq::new(8, |index: int| le_byte(value, index))
}

/// Reads the first eight bytes of `data` as a little-endian number.
pub fn read_u64_le(data: &[u8]) -> (value: u64)
    requires
        data@.len() >= 8,
    ensures
        value == le_u64(data@),
{
    let b0: u64 = data[0] as u64;
    let b1: u64 = data[1] as u64;
    let b2: u64 = data[2] as u64;
    let b3: u64 = data[3] as u64;
    let b4: u64 = data[4] as u64;
    let b5: u64 = data[5] as u64;
    let b6: u64 = data[6] as u64;
    let b7: u64 = data[7] as u64;
    b0 + b1 * 0x100 + b2 * 0x1_0000 + b3 * 0x100_0000 + b4 * 0x1_0000_0000 + b5 * 0x100_0000_0000
        + b6 * 0x1_0000_0000_0000 + b7 * 0x100_0000_0000_0000
}

/// Writes `value` as eight bytes, least significant byte first.
pub fn write_u64_le(value: u64) -> (bytes: Vec<u8>)
    ensures
        bytes@ == le_bytes(value),
{
    let mut bytes: Vec<u8> = Vec::new();
    bytes.push((value % 0x100) as u8);
    bytes.push((value / 0x100 % 0x100) as u8);
    bytes.push((value / 0x1_0000 % 0x100) as u8);
    bytes.push((value / 0x100_0000 % 0x100) as u8);
    bytes.push((value / 0x1_0000_0000 % 0x100) as u8);
    bytes.push((value / 0x100_0000_0000 % 0x100) as u8);
    bytes.push((value / 0x1_0000_0000_0000 % 0x100) as u8);
    bytes.push((value / 0x100_0000_0000_0000 % 0x100) as u8);
    assert(bytes@ =~= le_bytes(value));
    bytes
}

} // verus!
