//! Moving an address by a number of bytes.

use vstd::prelude::*;
use crate::address::Address;

verus! {

/// Byte-wise displacement of an address-like value.
pub trait RawOffset: Sized {
    /// The value `count` bytes further on (or back, for a negative `count`),
    /// wrapping round at the ends of the address space.
    spec fn displaced(self, count: int) -> Self;

    /// Moves by a signed number of bytes.
    fn raw_offset(self, count: isize) -> (moved: Self)
        ensures
            moved == self.displaced(count as int),
    ;

    /// Moves forward by an unsigned number of bytes.
    fn raw_add(self, count: usize) -> (moved: Self)
        ensures
            moved == self.displaced(count as int),
    ;
}

impl RawOffset for Address {
    open spec fn displaced(self, count: int) -> Address {
        Address::wrapped(self.space_width(), self.to_int() + count)
    }

    fn raw_offset(self, count: isize) -> (moved: Address) {
        match self {
            Address::Narrow(a) => {
                let lifted: i128 = a as i128 + count as i128 + 0x1_0000_0000_0000_0000i128;
                let reduced: u128 = (lifted as u128) % 0x1_0000_0000u128;
                assert(reduced == (a + count) % 0x1_0000_0000);
                Address::Narrow(reduced as u32)
            },
            Address::Wide(a) => {
                let lifted: i128 = a as i128 + count as i128 + 0x1_0000_0000_0000_0000i128;
                let reduced: u128 = (lifted as u128) % 0x1_0000_0000_0000_0000u128;
                assert(reduced == (a + count) % 0x1_0000_0000_0000_0000);
                Address::Wide(reduced as u64)
            },
        }
    }

    fn raw_add(self, count: usize) -> (moved: Address) {
        match self {
            Address::Narrow(a) => {
                let sum: u128 = a as u128 + count as u128;
                Address::Narrow((sum % 0x1_0000_0000u128) as u32)
            },
            Address::Wide(a) => {
                let sum: u128 = a as u128 + count as u128;
                Address::Wide((sum % 0x1_0000_0000_0000_0000u128) as u64)
            },
        }
    }
}

/// Two moves in a row are one move by the sum.
pub proof fn lemma_displaced_twice(a: Address, first: int, second: int)
    ensures
        a.displaced(first).displaced(second) == a.displaced(first + second),
{
}

/// Where the sum stays inside the address space, a move is plain addition.
pub proof fn lemma_displaced_exact(a: Address, count: int)
    requires
        0 <= a.to_int() + count < a.space_width().space(),
    ensures
        a.displaced(count).to_int() == a.to_int() + count,
        a.displaced(count).space_width() == a.space_width(),
{
}

} // verus!
