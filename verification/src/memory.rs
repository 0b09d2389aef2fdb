//! Reading numbers and pointers out of bytes copied from the inspected
//! process. Every accessor checks the bounds and answers `None` rather than
//! read past the end of what it was given.

use vstd::prelude::*;
use crate::address::{Address, AddressWidth};

verus! {

/// The unsigned 16-bit number stored little-endian at `at`.
pub open spec fn le16(bytes: Seq<u8>, at: int) -> int {
    bytes[at] + 0x100 * bytes[at + 1]
}

/// The unsigned 32-bit number stored little-endian at `at`.
pub open spec fn le32(bytes: Seq<u8>, at: int) -> int {
    le16(bytes, at) + 0x1_0000 * le16(bytes, at + 2)
}

/// The unsigned 64-bit number stored little-endian at `at`.
pub open spec fn le64(bytes: Seq<u8>, at: int) -> int {
    le32(bytes, at) + 0x1_0000_0000 * le32(bytes, at + 4)
}

/// The 32-bit number stored little-endian at `at`, read as two's complement.
pub open spec fn le32_signed(bytes: Seq<u8>, at: int) -> int {
    if le32(bytes, at) < 0x8000_0000 {
        le32(bytes, at)
    } else {
        le32(bytes, at) - 0x1_0000_0000
    }
}

/// Whether `len` bytes starting at `at` lie inside `bytes`.
pub open spec fn in_bounds(bytes: Seq<u8>, at: int, len: int) -> bool {
    0 <= at && at + len <= bytes.len()
}

/// The pointer of the given width stored little-endian at `at`.
pub open spec fn pointer_at(width: AddressWidth, bytes: Seq<u8>, at: int) -> Address {
    match width {
        AddressWidth::Narrow => Address::Narrow(le32(bytes, at) as u32),
        AddressWidth::Wide => Address::Wide(le64(bytes, at) as u64),
    }
}

/// The little-endian numbers of the widths used here fit their types.
pub proof fn lemma_le_ranges(bytes: Seq<u8>, at: int)
    ensures
        0 <= le16(bytes, at) <= 0xFFFF,
        0 <= le32(bytes, at) <= 0xFFFF_FFFF,
        0 <= le64(bytes, at) <= 0xFFFF_FFFF_FFFF_FFFF,
        -0x8000_0000 <= le32_signed(bytes, at) <= 0x7FFF_FFFF,
{
}

/// Reads an unsigned 16-bit little-endian number.
pub fn read_u16(bytes: &[u8], at: usize) -> (value: Option<u16>)
    ensures
        value.is_some() <==> in_bounds(bytes@, at as int, 2),
        value.is_some() ==> value.unwrap() == le16(bytes@, at as int),
{
    if bytes.len() < 2 || at > bytes.len() - 2 {
        return None;
    }
    let low: u16 = bytes[at] as u16;
    let high: u16 = bytes[at + 1] as u16;
    Some(low + 0x100 * high)
}

/// Reads an unsigned 32-bit little-endian number.
pub fn read_u32(bytes: &[u8], at: usize) -> (value: Option<u32>)
    ensures
        value.is_some() <==> in_bounds(bytes@, at as int, 4),
        value.is_some() ==> value.unwrap() == le32(bytes@, at as int),
{
    if bytes.len() < 4 || at > bytes.len() - 4 {
        return None;
    }
    let b0: u32 = bytes[at] as u32;
    let b1: u32 = bytes[at + 1] as u32;
    let b2: u32 = bytes[at + 2] as u32;
    let b3: u32 = bytes[at + 3] as u32;
    Some((b0 + 0x100 * b1) + 0x1_0000 * (b2 + 0x100 * b3))
}

/// Reads a signed 32-bit little-endian number.
pub fn read_i32(bytes: &[u8], at: usize) -> (value: Option<i32>)
    ensures
        value.is_some() <==> in_bounds(bytes@, at as int, 4),
        value.is_some() ==> value.unwrap() == le32_signed(bytes@, at as int),
{
    match read_u32(bytes, at) {
        Some(raw) => {
            if raw < 0x8000_0000 {
                Some(raw as i32)
            } else {
                let folded: i64 = raw as i64 - 0x1_0000_0000;
                Some(folded as i32)
            }
        },
        None => None,
    }
}

/// Reads an unsigned 64-bit little-endian number.
pub fn read_u64(bytes: &[u8], at: usize) -> (value: Option<u64>)
    ensures
        value.is_some() <==> in_bounds(bytes@, at as int, 8),
        value.is_some() ==> value.unwrap() == le64(bytes@, at as int),
{
    if bytes.len() < 8 || at > bytes.len() - 8 {
        return None;
    }
    let low = read_u32(bytes, at);
    let high = read_u32(bytes, at + 4);
    match (low, high) {
        (Some(low), Some(high)) => Some(low as u64 + 0x1_0000_0000 * (high as u64)),
        _ => None,
    }
}

/// Reads a pointer of the given width.
pub fn read_pointer(width: AddressWidth, bytes: &[u8], at: usize) -> (pointer: Option<Address>)
    ensures
        pointer.is_some() <==> in_bounds(bytes@, at as int, width.pointer_len()),
        pointer.is_some() ==> pointer.unwrap() == pointer_at(width, bytes@, at as int),
{
    match width {
        AddressWidth::Narrow => match read_u32(bytes, at) {
            Some(value) => Some(Address::Narrow(value)),
            None => None,
        },
        AddressWidth::Wide => match read_u64(bytes, at) {
            Some(value) => Some(Address::Wide(value)),
            None => None,
        },
    }
}

} // verus!
