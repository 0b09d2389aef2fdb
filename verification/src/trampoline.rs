//! Recovering the function that an exported stub forwards to.
//!
//! A stub is a few instructions long and holds one relative branch to the
//! real function. The bytes of the stub are searched for the encoding of
//! that branch; its displacement, counted from the end of the instruction,
//! gives the target.

use vstd::prelude::*;
use crate::address::{Address, AddressWidth};
use crate::memory::{le32_signed, read_i32};
use crate::raw_offset::{RawOffset, lemma_displaced_twice, lemma_displaced_exact};

verus! {

/// The length in bytes of a relative branch instruction: the opcode and a
/// 32-bit displacement.
pub const BRANCH_LEN: usize = 5;

/// The number of bytes that are compared at each position.
///
/// In the 32-bit space the branch is a call that the stub's epilogue
/// follows, nine bytes in all. In the 64-bit space it is a jump alone.
pub open spec fn window_len(width: AddressWidth) -> int {
    match width {
        AddressWidth::Narrow => 9,
        AddressWidth::Wide => 5,
    }
}

/// Whether the forwarding branch of a stub stands at `index`.
///
/// 32-bit: `E8 rel32` (call), `5D` (pop), `C2 imm16` (ret) with the high byte
/// of the immediate zero. 64-bit: `E9 rel32` (jmp).
pub open spec fn branch_at(width: AddressWidth, bytes: Seq<u8>, index: int) -> bool {
    &&& 0 <= index
    &&& index + window_len(width) <= bytes.len()
    &&& match width {
        AddressWidth::Narrow => {
            &&& bytes[index] == 0xE8
            &&& bytes[index + 5] == 0x5D
            &&& bytes[index + 6] == 0xC2
            &&& bytes[index + 8] == 0x00
        },
        AddressWidth::Wide => bytes[index] == 0xE9,
    }
}

/// The displacement of the branch whose opcode stands at `index`.
pub open spec fn displacement(bytes: Seq<u8>, index: int) -> int {
    le32_signed(bytes, index + 1)
}

/// The lowest position at or after `from` where a branch stands.
pub open spec fn first_branch(width: AddressWidth, bytes: Seq<u8>, from: int) -> Option<int>
    decreases bytes.len() - from,
{
    if from < 0 || from + window_len(width) > bytes.len() {
        None
    } else if branch_at(width, bytes, from) {
        Some(from)
    } else {
        first_branch(width, bytes, from + 1)
    }
}

/// The function that the stub at `wrapper` forwards to, where `bytes` are the
/// bytes found at `wrapper`: the end of the first branch instruction moved by
/// its displacement.
pub open spec fn wrapped_function(wrapper: Address, bytes: Seq<u8>) -> Option<Address> {
    match first_branch(wrapper.space_width(), bytes, 0) {
        Some(index) => Some(wrapper.displaced(index + 5 + displacement(bytes, index))),
        None => None,
    }
}

/// What `first_branch` finds is a branch, and none stands between `from` and
/// it; where it finds nothing, none stands at or after `from`.
pub proof fn lemma_first_branch(width: AddressWidth, bytes: Seq<u8>, from: int)
    requires
        0 <= from,
    ensures
        match first_branch(width, bytes, from) {
            Some(index) => {
                &&& from <= index
                &&& branch_at(width, bytes, index)
                &&& forall|earlier: int| from <= earlier < index ==> !branch_at(width, bytes, earlier)
            },
            None => forall|index: int| from <= index ==> !branch_at(width, bytes, index),
        },
    decreases bytes.len() - from,
{
    if from + window_len(width) > bytes.len() {
    } else if branch_at(width, bytes, from) {
    } else {
        lemma_first_branch(width, bytes, from + 1);
    }
}

/// Whether the branch pattern for `width` stands at `index`, which the caller
/// has checked to leave room for the whole window.
fn is_branch(width: AddressWidth, bytes: &[u8], index: usize) -> (found: bool)
    requires
        index + window_len(width) <= bytes@.len(),
    ensures
        found == branch_at(width, bytes@, index as int),
{
    match width {
        AddressWidth::Narrow => {
            bytes[index] == 0xE8 && bytes[index + 5] == 0x5D && bytes[index + 6] == 0xC2
                && bytes[index + 8] == 0x00
        },
        AddressWidth::Wide => bytes[index] == 0xE9,
    }
}

/// Searches the bytes of the stub at `wrapper` for its forwarding branch and
/// returns the branch target, or `None` where the bytes hold no such branch.
///
/// The positions are tried in ascending order and the first that matches
/// decides. The target is `wrapper + index + 5 + displacement`, taken in the
/// address space of `wrapper`.
pub fn get_wrapped_function(wrapper: Address, bytes: &[u8]) -> (target: Option<Address>)
    ensures
        target == wrapped_function(wrapper, bytes@),
{
    let width = wrapper.width();
    let window: usize = match width {
        AddressWidth::Narrow => 9,
        AddressWidth::Wide => 5,
    };
    if bytes.len() < window {
        return None;
    }
    let last: usize = bytes.len() - window;
    let mut index: usize = 0;
    while index <= last
        invariant
            width == wrapper.space_width(),
            window == window_len(width),
            bytes@.len() >= window,
            last == bytes@.len() - window,
            last + window <= usize::MAX,
            index <= last + 1,
            first_branch(width, bytes@, 0) == first_branch(width, bytes@, index as int),
        decreases last + 1 - index,
    {
        if is_branch(width, bytes, index) {
            let relative: i32 = read_i32(bytes, index + 1).unwrap();
            proof {
                lemma_displaced_twice(wrapper, relative as int, index as int + BRANCH_LEN as int);
            }
            return Some(wrapper.raw_offset(relative as isize).raw_add(index + BRANCH_LEN));
        }
        index = index + 1;
    }
    None
}

/// Where the branch stands at `index` and nowhere before it, the target is
/// the end of that instruction moved by its displacement; where that sum is
/// an address of the space, it is the target as a plain number.
pub proof fn lemma_target_of_branch(wrapper: Address, bytes: Seq<u8>, index: int)
    requires
        branch_at(wrapper.space_width(), bytes, index),
        forall|earlier: int| 0 <= earlier < index ==> !branch_at(wrapper.space_width(), bytes, earlier),
    ensures
        wrapped_function(wrapper, bytes) == Some(
            wrapper.displaced(index + 5 + displacement(bytes, index)),
        ),
        0 <= wrapper.to_int() + index + 5 + displacement(bytes, index)
            < wrapper.space_width().space() ==> wrapped_function(wrapper, bytes).unwrap().to_int()
            == wrapper.to_int() + index + 5 + displacement(bytes, index),
{
    lemma_first_branch(wrapper.space_width(), bytes, 0);
    let target = index + 5 + displacement(bytes, index);
    if 0 <= wrapper.to_int() + target < wrapper.space_width().space() {
        lemma_displaced_exact(wrapper, target);
    }
}

/// Bytes in which no branch stands give no target.
pub proof fn lemma_no_branch(wrapper: Address, bytes: Seq<u8>)
    requires
        forall|index: int| !branch_at(wrapper.space_width(), bytes, index),
    ensures
        wrapped_function(wrapper, bytes).is_none(),
{
    lemma_first_branch(wrapper.space_width(), bytes, 0);
}

} // verus!
