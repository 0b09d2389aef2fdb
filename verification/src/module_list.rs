//! Finding a loaded module by walking the loader's own list of modules.
//!
//! The walk is a conversation. The walker says which bytes of the process it
//! needs next; the caller reads them and hands them over; the walker decides
//! what that means. It ends with the base address of the module whose name
//! matches, or with the news that the list came round to its head without a
//! match.

use vstd::prelude::*;
use crate::address::Address;
use crate::memory::{le16, pointer_at, read_pointer, read_u16};
use crate::raw_offset::RawOffset;

verus! {

/// A request for `length` bytes of the process starting at `address`.
#[derive(Clone, Copy, PartialEq, Eq, Structural, Debug)]
pub struct MemoryRead {
    /// Where to start reading.
    pub address: Address,
    /// How many bytes to read.
    pub length: usize,
}

/// How far a walk over the module list has come.
#[derive(Clone, Copy, PartialEq, Eq, Structural, Debug)]
pub enum WalkState {
    /// Waiting for the pointer to the loader data, read from the process
    /// block at `process`.
    Loader { process: Address },
    /// Waiting for the forward link stored at `at`; `head` is where the list
    /// starts and ends.
    Link { head: Address, at: Address },
    /// Waiting for the name descriptor of the record at `node`.
    Descriptor { head: Address, node: Address },
    /// Waiting for the `units` 16-bit characters of the name, stored at
    /// `buffer`.
    Name { head: Address, node: Address, buffer: Address, units: u16 },
    /// The name matched; waiting for the pointer to the module's base.
    Base { head: Address, node: Address },
    /// The module was found, at this base address.
    Found(Address),
    /// The list holds no module of that name.
    NotFound,
}

/// The text that a sequence of UTF-16 code units decodes to, an unpaired
/// surrogate giving U+FFFD.
pub uninterp spec fn utf16_lossy(units: Seq<u16>) -> Seq<char>;

/// The upper-case form of a text under the Unicode case mapping.
pub uninterp spec fn uppercase(text: Seq<char>) -> Seq<char>;

/// Decodes UTF-16 with std's `String::from_utf16_lossy`. Not proved: that the
/// result is the decoding named `utf16_lossy`, a function of the code units
/// alone.
#[verifier::external_body]
fn decode_utf16_lossy(units: &[u16]) -> (text: String)
    ensures
        text@ == utf16_lossy(units@),
{
    String::from_utf16_lossy(units)
}

/// Upper-cases with std's `str::to_uppercase`. Not proved: that the result is
/// the mapping named `uppercase`, a function of the text alone.
#[verifier::external_body]
pub(crate) fn to_uppercase(text: &str) -> (upper: String)
    ensures
        upper@ == uppercase(text@),
{
    text.to_uppercase()
}

/// The 16-bit code units that `bytes` hold, little-endian, a last odd byte
/// left out.
pub open spec fn wide_units(bytes: Seq<u8>) -> Seq<u16> {
    Seq::new((bytes.len() / 2) as nat, |k: int| le16(bytes, 2 * k) as u16)
}

/// Whether the module name stored as `units` is the wanted one. `target` is
/// the wanted name in upper case; the stored name is decoded and upper-cased
/// before the two are compared, so that case does not matter.
pub open spec fn name_matches(units: Seq<u16>, target: Seq<char>) -> bool {
    uppercase(utf16_lossy(units)) == target
}

impl WalkState {
    /// Whether the walk has ended.
    pub open spec fn is_done(self) -> bool {
        self is Found || self is NotFound
    }

    /// The bytes that the walk is waiting for, `None` once it has ended.
    pub open spec fn pending(self) -> Option<MemoryRead> {
        match self {
            WalkState::Loader { process } => {
                let layout = process.space_width().layout_of();
                Some(
                    MemoryRead {
                        address: process.displaced(layout.loader as int),
                        length: layout.pointer,
                    },
                )
            },
            WalkState::Link { head, at } => Some(
                MemoryRead { address: at, length: at.space_width().layout_of().pointer },
            ),
            WalkState::Descriptor { head, node } => {
                let layout = node.space_width().layout_of();
                Some(
                    MemoryRead {
                        address: node.displaced(layout.name as int),
                        length: layout.descriptor,
                    },
                )
            },
            WalkState::Name { head, node, buffer, units } => Some(
                MemoryRead { address: buffer, length: (2 * units) as usize },
            ),
            WalkState::Base { head, node } => {
                let layout = node.space_width().layout_of();
                Some(
                    MemoryRead {
                        address: node.displaced(layout.base as int),
                        length: layout.pointer,
                    },
                )
            },
            WalkState::Found(_) => None,
            WalkState::NotFound => None,
        }
    }

    /// Where the walk goes from a record whose name has been compared: to the
    /// record's base if it matched, to the next link if not.
    pub open spec fn after_name(self, matched: bool) -> WalkState {
        match self {
            WalkState::Name { head, node, buffer, units } => {
                if matched {
                    WalkState::Base { head, node }
                } else {
                    WalkState::Link { head, at: node }
                }
            },
            _ => self,
        }
    }

    /// Where the walk goes when the bytes it asked for arrive.
    ///
    /// A walk that has ended stays as it is. A reply that has not the length
    /// asked for cannot be read, and the walk ends without a result.
    pub open spec fn after_reply(self, target: Seq<char>, reply: Seq<u8>) -> WalkState {
        if self.is_done() {
            self
        } else if reply.len() != self.pending().unwrap().length {
            WalkState::NotFound
        } else {
            match self {
                WalkState::Loader { process } => {
                    let width = process.space_width();
                    let head = pointer_at(width, reply, 0).displaced(
                        width.layout_of().modules as int,
                    );
                    WalkState::Link { head, at: head }
                },
                WalkState::Link { head, at } => {
                    let width = at.space_width();
                    let next = pointer_at(width, reply, 0);
                    if next == head {
                        WalkState::NotFound
                    } else if next.displaced(width.layout_of().name as int).to_int() == 0 {
                        WalkState::Link { head, at: next }
                    } else {
                        WalkState::Descriptor { head, node: next }
                    }
                },
                WalkState::Descriptor { head, node } => {
                    let width = node.space_width();
                    WalkState::Name {
                        head,
                        node,
                        buffer: pointer_at(width, reply, width.layout_of().buffer as int),
                        units: (le16(reply, 0) / 2) as u16,
                    }
                },
                WalkState::Name { head, node, buffer, units } => self.after_name(
                    name_matches(wide_units(reply), target),
                ),
                WalkState::Base { head, node } => WalkState::Found(
                    pointer_at(node.space_width(), reply, 0),
                ),
                _ => self,
            }
        }
    }

    /// The bytes that the walk is waiting for, `None` once it has ended.
    pub fn request(&self) -> (read: Option<MemoryRead>)
        ensures
            read == self.pending(),
    {
        match self {
            WalkState::Loader { process } => {
                let layout = process.width().layout();
                Some(MemoryRead { address: process.raw_add(layout.loader), length: layout.pointer })
            },
            WalkState::Link { head, at } => Some(
                MemoryRead { address: *at, length: at.width().layout().pointer },
            ),
            WalkState::Descriptor { head, node } => {
                let layout = node.width().layout();
                Some(MemoryRead { address: node.raw_add(layout.name), length: layout.descriptor })
            },
            WalkState::Name { head, node, buffer, units } => {
                let count: usize = *units as usize;
                Some(MemoryRead { address: *buffer, length: 2 * count })
            },
            WalkState::Base { head, node } => {
                let layout = node.width().layout();
                Some(MemoryRead { address: node.raw_add(layout.base), length: layout.pointer })
            },
            WalkState::Found(_) => None,
            WalkState::NotFound => None,
        }
    }

    /// Moves on from a record whose name has been compared with the wanted
    /// one.
    pub fn resume_after_name(self, matched: bool) -> (next: WalkState)
        ensures
            next == self.after_name(matched),
    {
        match self {
            WalkState::Name { head, node, buffer, units } => {
                if matched {
                    WalkState::Base { head, node }
                } else {
                    WalkState::Link { head, at: node }
                }
            },
            _ => self,
        }
    }

    /// Takes the bytes that were asked for and moves the walk on. `target` is
    /// the wanted module name in upper case.
    pub fn resume(self, target: &String, reply: &[u8]) -> (next: WalkState)
        ensures
            next == self.after_reply(target@, reply@),
    {
        let expected = match self.request() {
            Some(read) => read.length,
            None => {
                return self;
            },
        };
        if reply.len() != expected {
            return WalkState::NotFound;
        }
        match self {
            WalkState::Loader { process } => {
                let width = process.width();
                let loader = read_pointer(width, reply, 0).unwrap();
                let head = loader.raw_add(width.layout().modules);
                WalkState::Link { head, at: head }
            },
            WalkState::Link { head, at } => {
                let width = at.width();
                let next = read_pointer(width, reply, 0).unwrap();
                if next == head {
                    WalkState::NotFound
                } else if next.raw_add(width.layout().name).is_null() {
                    WalkState::Link { head, at: next }
                } else {
                    WalkState::Descriptor { head, node: next }
                }
            },
            WalkState::Descriptor { head, node } => {
                let width = node.width();
                let length: u16 = read_u16(reply, 0).unwrap();
                let buffer = read_pointer(width, reply, width.layout().buffer).unwrap();
                WalkState::Name { head, node, buffer, units: length / 2 }
            },
            WalkState::Name { head, node, buffer, units } => {
                let name = decode_units(reply);
                let matched = module_name_matches(name.as_slice(), target);
                self.resume_after_name(matched)
            },
            WalkState::Base { head, node } => WalkState::Found(
                read_pointer(node.width(), reply, 0).unwrap(),
            ),
            WalkState::Found(_) => self,
            WalkState::NotFound => self,
        }
    }
}

/// Collects the 16-bit code units that `bytes` hold, little-endian.
pub fn decode_units(bytes: &[u8]) -> (units: Vec<u16>)
    ensures
        units@ == wide_units(bytes@),
{
    let count: usize = bytes.len() / 2;
    let mut units: Vec<u16> = Vec::new();
    let mut k: usize = 0;
    while k < count
        invariant
            count == bytes@.len() / 2,
            bytes@.len() <= usize::MAX,
            k <= count,
            units@.len() == k,
            forall|j: int| 0 <= j < k ==> units@[j] == le16(bytes@, 2 * j) as u16,
        decreases count - k,
    {
        let low: u16 = bytes[2 * k] as u16;
        let high: u16 = bytes[2 * k + 1] as u16;
        units.push(low + 0x100 * high);
        k = k + 1;
    }
    assert(units@ =~= wide_units(bytes@));
    units
}

/// Whether a module name as the loader stores it is the wanted one, whatever
/// the case of its letters. `target` is the wanted name in upper case.
pub fn module_name_matches(name: &[u16], target: &String) -> (matched: bool)
    ensures
        matched == name_matches(name@, target@),
{
    let decoded = decode_utf16_lossy(name);
    let upper = to_uppercase(decoded.as_str());
    upper == *target
}

/// A walk over the module list in search of one module.
pub struct ModuleWalk {
    /// The wanted name, in upper case.
    pub target: String,
    /// How far the walk has come.
    pub state: WalkState,
}

/// Starts the search for the module called `name`, whatever the case of its
/// letters, in the process whose process block stands at `process`.
///
/// Nothing has been read yet: the walk returned is waiting for the pointer to
/// the loader data.
pub fn get_module_handle(name: &str, process: Address) -> (walk: ModuleWalk)
    ensures
        walk.target@ == uppercase(name@),
        walk.state == (WalkState::Loader { process }),
{
    ModuleWalk { target: to_uppercase(name), state: WalkState::Loader { process } }
}

impl ModuleWalk {
    /// The bytes that the walk needs next, `None` once it has ended.
    pub fn request(&self) -> (read: Option<MemoryRead>)
        ensures
            read == self.state.pending(),
    {
        self.state.request()
    }

    /// Hands the walk the bytes it asked for.
    pub fn supply(&mut self, reply: &[u8])
        ensures
            final(self).target == old(self).target,
            final(self).state == old(self).state.after_reply(old(self).target@, reply@),
    {
        self.state = self.state.resume(&self.target, reply);
    }

    /// What the walk has found: `None` while it is under way, `Some(None)`
    /// where no module has the name, `Some(Some(base))` where the module
    /// stands at `base`.
    pub fn outcome(&self) -> (outcome: Option<Option<Address>>)
        ensures
            outcome == match self.state {
                WalkState::Found(base) => Some(Some(base)),
                WalkState::NotFound => Some(None::<Address>),
                _ => None,
            },
    {
        match self.state {
            WalkState::Found(base) => Some(Some(base)),
            WalkState::NotFound => Some(None),
            _ => None,
        }
    }
}

} // verus!
