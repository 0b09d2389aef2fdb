//! Where the loader keeps what the module walk reads, for each address width.
//!
//! The offsets are data: one table per width, read by the same code.

use vstd::prelude::*;
use crate::address::AddressWidth;

verus! {

/// Offsets and sizes, in bytes, of the loader's bookkeeping.
///
/// A module record is addressed by its initialization-order links; `base` and
/// `name` count from there.
#[derive(Clone, Copy, PartialEq, Eq, Structural, Debug)]
pub struct Layout {
    /// The size of a pointer.
    pub pointer: usize,
    /// In the process block: where the pointer to the loader data stands.
    pub loader: usize,
    /// In the loader data: where the head of the initialization-order list
    /// stands.
    pub modules: usize,
    /// In a module record: where the pointer to the module's base stands.
    pub base: usize,
    /// In a module record: where the descriptor of the module's name stands.
    pub name: usize,
    /// The size of a name descriptor: two 16-bit lengths, padding up to the
    /// size of a pointer, and the pointer to the characters.
    pub descriptor: usize,
    /// In a name descriptor: where the pointer to the characters stands.
    pub buffer: usize,
}

impl AddressWidth {
    /// The layout for this width.
    pub open spec fn layout_of(self) -> Layout {
        match self {
            AddressWidth::Narrow => Layout {
                pointer: 4,
                loader: 0x0C,
                modules: 0x1C,
                base: 8,
                name: 28,
                descriptor: 8,
                buffer: 4,
            },
            AddressWidth::Wide => Layout {
                pointer: 8,
                loader: 0x18,
                modules: 0x30,
                base: 16,
                name: 56,
                descriptor: 16,
                buffer: 8,
            },
        }
    }

    /// The layout for this width.
    pub fn layout(self) -> (layout: Layout)
        ensures
            layout == self.layout_of(),
    {
        match self {
            AddressWidth::Narrow => Layout {
                pointer: 4,
                loader: 0x0C,
                modules: 0x1C,
                base: 8,
                name: 28,
                descriptor: 8,
                buffer: 4,
            },
            AddressWidth::Wide => Layout {
                pointer: 8,
                loader: 0x18,
                modules: 0x30,
                base: 16,
                name: 56,
                descriptor: 16,
                buffer: 8,
            },
        }
    }
}

/// In both layouts the record fields stand where the record's shape puts
/// them: the base two pointers after the links, the name descriptor seven
/// pointers after them, the descriptor two pointers long with the characters'
/// pointer in its second half.
pub proof fn lemma_layout_shape(width: AddressWidth)
    ensures
        width.layout_of().pointer == width.pointer_len(),
        width.layout_of().base == 2 * width.pointer_len(),
        width.layout_of().name == 7 * width.pointer_len(),
        width.layout_of().descriptor == 2 * width.pointer_len(),
        width.layout_of().buffer == width.pointer_len(),
{
}

} // verus!
