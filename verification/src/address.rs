//! Addresses of the process under inspection, tagged with the width of its
//! address space.

use vstd::prelude::*;

verus! {

/// The two address spaces the system lays its structures out for.
#[derive(Clone, Copy, PartialEq, Eq, Structural, Debug)]
pub enum AddressWidth {
    /// 32-bit addresses.
    Narrow,
    /// 64-bit addresses.
    Wide,
}

impl AddressWidth {
    /// The number of addresses in the space: one more than the largest address.
    pub open spec fn space(self) -> int {
        match self {
            AddressWidth::Narrow => 0x1_0000_0000,
            AddressWidth::Wide => 0x1_0000_0000_0000_0000,
        }
    }

    /// The size of a pointer in bytes, as a mathematical integer.
    pub open spec fn pointer_len(self) -> int {
        match self {
            AddressWidth::Narrow => 4,
            AddressWidth::Wide => 8,
        }
    }

    /// The size of a pointer in bytes.
    pub fn pointer_size(self) -> (size: usize)
        ensures
            size == self.pointer_len(),
    {
        match self {
            AddressWidth::Narrow => 4,
            AddressWidth::Wide => 8,
        }
    }
}

/// An address in the inspected process. The variant fixes the address space,
/// so every value of the type is a valid address of its space.
#[derive(Clone, Copy, PartialEq, Eq, Structural, Debug)]
pub enum Address {
    /// An address of the 32-bit space.
    Narrow(u32),
    /// An address of the 64-bit space.
    Wide(u64),
}

impl Address {
    /// The address space this address belongs to.
    pub open spec fn space_width(self) -> AddressWidth {
        match self {
            Address::Narrow(_) => AddressWidth::Narrow,
            Address::Wide(_) => AddressWidth::Wide,
        }
    }

    /// The address as a mathematical integer.
    pub open spec fn to_int(self) -> int {
        match self {
            Address::Narrow(a) => a as int,
            Address::Wide(a) => a as int,
        }
    }

    /// The address of the given space that `position` denotes once it is
    /// reduced modulo the size of the space.
    pub open spec fn wrapped(width: AddressWidth, position: int) -> Address {
        match width {
            AddressWidth::Narrow => Address::Narrow((position % 0x1_0000_0000) as u32),
            AddressWidth::Wide => Address::Wide((position % 0x1_0000_0000_0000_0000) as u64),
        }
    }

    /// The address space this address belongs to.
    pub fn width(&self) -> (width: AddressWidth)
        ensures
            width == self.space_width(),
    {
        match self {
            Address::Narrow(_) => AddressWidth::Narrow,
            Address::Wide(_) => AddressWidth::Wide,
        }
    }

    /// The address as a number.
    pub fn value(&self) -> (value: u64)
        ensures
            value == self.to_int(),
    {
        match self {
            Address::Narrow(a) => *a as u64,
            Address::Wide(a) => *a,
        }
    }

    /// Whether this is the null address of its space.
    pub fn is_null(&self) -> (null: bool)
        ensures
            null == (self.to_int() == 0),
    {
        match self {
            Address::Narrow(a) => *a == 0,
            Address::Wide(a) => *a == 0,
        }
    }

    /// The address of the given space with the given number, or `None` where
    /// the number is not an address of that space.
    pub fn new(width: AddressWidth, value: u64) -> (address: Option<Address>)
        ensures
            address.is_some() <==> value < width.space(),
            address.is_some() ==> address.unwrap().space_width() == width
                && address.unwrap().to_int() == value,
    {
        match width {
            AddressWidth::Narrow => {
                if value <= 0xFFFF_FFFF {
                    Some(Address::Narrow(value as u32))
                } else {
                    None
                }
            },
            AddressWidth::Wide => Some(Address::Wide(value)),
        }
    }
}

} // verus!
