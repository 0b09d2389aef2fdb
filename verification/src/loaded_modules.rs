//! What the module walk finds, stated against a model of the process.
//!
//! The walk itself sees only the bytes it is handed. Here the memory of the
//! process is a mathematical object, the module list is a sequence of
//! records that this memory holds, and the walk is run against honest reads
//! of that memory. The theorems say that it ends where it should.

use vstd::prelude::*;
use crate::address::Address;
use crate::memory::{le16, lemma_le_ranges, pointer_at};
use crate::module_list::{name_matches, wide_units, WalkState};
use crate::raw_offset::RawOffset;

verus! {

/// The memory of the process, byte by byte.
pub struct Memory {
    /// The byte at each address, addresses taken as numbers.
    pub bytes: Map<int, u8>,
}

impl Memory {
    /// The `length` bytes that start at `address`.
    pub open spec fn read(self, address: Address, length: nat) -> Seq<u8> {
        Seq::new(length, |k: int| self.bytes[address.displaced(k).to_int()])
    }

    /// The pointer stored at `at`, of the width of `at`.
    pub open spec fn pointer(self, at: Address) -> Address {
        pointer_at(
            at.space_width(),
            self.read(at, at.space_width().layout_of().pointer as nat),
            0,
        )
    }
}

/// One module as the loader records it.
pub struct ModuleRecord {
    /// Where the record's initialization-order links stand.
    pub node: Address,
    /// The base address of the module.
    pub base: Address,
    /// The module's name, in UTF-16 code units.
    pub name: Seq<u16>,
    /// Where the characters of the name stand.
    pub buffer: Address,
}

/// The head of the initialization-order list: the list field of the loader
/// data that the process block at `process` points to.
pub open spec fn list_head(memory: Memory, process: Address) -> Address {
    let layout = process.space_width().layout_of();
    memory.pointer(process.displaced(layout.loader as int)).displaced(layout.modules as int)
}

/// Whether the memory holds `record` as a record of the list that starts at
/// `head`: the record is not the head itself, its name descriptor gives the
/// length of the name in bytes and points to its characters, and its base
/// field holds the base.
pub open spec fn holds_record(memory: Memory, head: Address, record: ModuleRecord) -> bool {
    let width = head.space_width();
    let layout = width.layout_of();
    let descriptor = memory.read(record.node.displaced(layout.name as int), layout.descriptor as nat);
    &&& record.node.space_width() == width
    &&& record.node != head
    &&& record.node.displaced(layout.name as int).to_int() != 0
    &&& le16(descriptor, 0) / 2 == record.name.len()
    &&& pointer_at(width, descriptor, layout.buffer as int) == record.buffer
    &&& wide_units(memory.read(record.buffer, 2 * record.name.len())) == record.name
    &&& memory.pointer(record.node.displaced(layout.base as int)) == record.base
}

/// Where the link before record `index` stands: in the head for the first
/// record, in the record before for the others.
pub open spec fn link_before(head: Address, records: Seq<ModuleRecord>, index: int) -> Address {
    if index <= 0 {
        head
    } else {
        records[index - 1].node
    }
}

/// What the link before record `index` points to: that record, or the head
/// once the records are used up.
pub open spec fn link_target(head: Address, records: Seq<ModuleRecord>, index: int) -> Address {
    if index < records.len() {
        records[index].node
    } else {
        head
    }
}

/// Whether the memory holds exactly `records`, in this order, as the circular
/// list that starts and ends at `head`.
pub open spec fn holds_list(memory: Memory, head: Address, records: Seq<ModuleRecord>) -> bool {
    &&& forall|i: int| 0 <= i < records.len() ==> holds_record(memory, head, #[trigger] records[i])
    &&& forall|i: int|
        0 <= i <= records.len() ==> memory.pointer(#[trigger] link_before(head, records, i))
            == link_target(head, records, i)
}

/// The base of the first record at or after `from` whose name matches.
pub open spec fn first_named(records: Seq<ModuleRecord>, target: Seq<char>, from: int) -> Option<
    Address,
>
    decreases records.len() - from,
{
    if from < 0 || from >= records.len() {
        None
    } else if name_matches(records[from].name, target) {
        Some(records[from].base)
    } else {
        first_named(records, target, from + 1)
    }
}

/// The state in which a walk ends that has this result.
pub open spec fn ended(result: Option<Address>) -> WalkState {
    match result {
        Some(base) => WalkState::Found(base),
        None => WalkState::NotFound,
    }
}

/// The state of a walk after at most `steps` requests have been answered
/// from `memory`.
pub open spec fn run(state: WalkState, target: Seq<char>, memory: Memory, steps: nat) -> WalkState
    decreases steps,
{
    if steps == 0 {
        state
    } else {
        match state.pending() {
            Some(read) => run(
                state.after_reply(target, memory.read(read.address, read.length as nat)),
                target,
                memory,
                (steps - 1) as nat,
            ),
            None => state,
        }
    }
}

/// A walk that has ended stays where it is.
pub proof fn lemma_run_ended(result: Option<Address>, target: Seq<char>, memory: Memory, steps: nat)
    ensures
        run(ended(result), target, memory, steps) == ended(result),
{
}

/// One answered request takes the run one state further.
proof fn lemma_run_step(state: WalkState, target: Seq<char>, memory: Memory, steps: nat)
    requires
        steps > 0,
        state.pending().is_some(),
    ensures
        run(state, target, memory, steps) == run(
            state.after_reply(
                target,
                memory.read(
                    state.pending().unwrap().address,
                    state.pending().unwrap().length as nat,
                ),
            ),
            target,
            memory,
            (steps - 1) as nat,
        ),
{
}

/// Following a link leads to the record it points to, or ends the walk where
/// it points back to the head.
proof fn lemma_follow_link(memory: Memory, head: Address, at: Address, target: Seq<char>)
    requires
        at.space_width() == head.space_width(),
        memory.pointer(at) == head || memory.pointer(at).displaced(
            head.space_width().layout_of().name as int,
        ).to_int() != 0,
    ensures
        (WalkState::Link { head, at }).pending().is_some(),
        (WalkState::Link { head, at }).after_reply(
            target,
            memory.read(
                (WalkState::Link { head, at }).pending().unwrap().address,
                (WalkState::Link { head, at }).pending().unwrap().length as nat,
            ),
        ) == if memory.pointer(at) == head {
            WalkState::NotFound
        } else {
            WalkState::Descriptor { head, node: memory.pointer(at) }
        },
{
}

/// Reading the name descriptor of a record tells where its name stands and
/// how long it is.
proof fn lemma_read_descriptor(
    memory: Memory,
    head: Address,
    record: ModuleRecord,
    target: Seq<char>,
)
    requires
        holds_record(memory, head, record),
    ensures
        (WalkState::Descriptor { head, node: record.node }).pending().is_some(),
        (WalkState::Descriptor { head, node: record.node }).after_reply(
            target,
            memory.read(
                (WalkState::Descriptor { head, node: record.node }).pending().unwrap().address,
                (WalkState::Descriptor { head, node: record.node }).pending().unwrap().length as nat,
            ),
        ) == (WalkState::Name {
            head,
            node: record.node,
            buffer: record.buffer,
            units: record.name.len() as u16,
        }),
        record.name.len() <= 0x7FFF,
{
    let layout = head.space_width().layout_of();
    let descriptor = memory.read(
        record.node.displaced(layout.name as int),
        layout.descriptor as nat,
    );
    lemma_le_ranges(descriptor, 0);
}

/// Reading the name of a record decides between its base and the next link.
proof fn lemma_read_name(memory: Memory, head: Address, record: ModuleRecord, target: Seq<char>)
    requires
        holds_record(memory, head, record),
        record.name.len() <= 0x7FFF,
    ensures
        (WalkState::Name {
            head,
            node: record.node,
            buffer: record.buffer,
            units: record.name.len() as u16,
        }).pending().is_some(),
        (WalkState::Name {
            head,
            node: record.node,
            buffer: record.buffer,
            units: record.name.len() as u16,
        }).after_reply(
            target,
            memory.read(
                (WalkState::Name {
                    head,
                    node: record.node,
                    buffer: record.buffer,
                    units: record.name.len() as u16,
                }).pending().unwrap().address,
                (WalkState::Name {
                    head,
                    node: record.node,
                    buffer: record.buffer,
                    units: record.name.len() as u16,
                }).pending().unwrap().length as nat,
            ),
        ) == if name_matches(record.name, target) {
            WalkState::Base { head, node: record.node }
        } else {
            WalkState::Link { head, at: record.node }
        },
{
    let units = record.name.len() as u16;
    let state = WalkState::Name { head, node: record.node, buffer: record.buffer, units };
    assert(state.pending().unwrap().length as nat == 2 * record.name.len());
}

/// Reading the base field of a record ends the walk with the module's base.
proof fn lemma_read_base(memory: Memory, head: Address, record: ModuleRecord, target: Seq<char>)
    requires
        holds_record(memory, head, record),
    ensures
        (WalkState::Base { head, node: record.node }).pending().is_some(),
        (WalkState::Base { head, node: record.node }).after_reply(
            target,
            memory.read(
                (WalkState::Base { head, node: record.node }).pending().unwrap().address,
                (WalkState::Base { head, node: record.node }).pending().unwrap().length as nat,
            ),
        ) == WalkState::Found(record.base),
{
}

/// From the link before record `index`, the walk ends at the first record at
/// or after `index` whose name matches, or without a result if there is none.
proof fn lemma_walk_from(
    memory: Memory,
    head: Address,
    records: Seq<ModuleRecord>,
    target: Seq<char>,
    index: int,
    steps: nat,
)
    requires
        holds_list(memory, head, records),
        0 <= index <= records.len(),
        steps >= 3 * (records.len() - index) + 1,
    ensures
        run(
            WalkState::Link { head, at: link_before(head, records, index) },
            target,
            memory,
            steps,
        ) == ended(first_named(records, target, index)),
    decreases records.len() - index,
{
    let at = link_before(head, records, index);
    let link = WalkState::Link { head, at };
    if index > 0 {
        assert(holds_record(memory, head, records[index - 1]));
    }
    assert(memory.pointer(at) == link_target(head, records, index));
    if index < records.len() {
        assert(holds_record(memory, head, records[index]));
    }
    lemma_follow_link(memory, head, at, target);
    lemma_run_step(link, target, memory, steps);
    if index == records.len() {
        lemma_run_ended(None, target, memory, (steps - 1) as nat);
    } else {
        let record = records[index];
        let descriptor = WalkState::Descriptor { head, node: record.node };
        lemma_read_descriptor(memory, head, record, target);
        lemma_run_step(descriptor, target, memory, (steps - 1) as nat);
        let name = WalkState::Name {
            head,
            node: record.node,
            buffer: record.buffer,
            units: record.name.len() as u16,
        };
        lemma_read_name(memory, head, record, target);
        lemma_run_step(name, target, memory, (steps - 2) as nat);
        if name_matches(record.name, target) {
            let base = WalkState::Base { head, node: record.node };
            lemma_read_base(memory, head, record, target);
            lemma_run_step(base, target, memory, (steps - 3) as nat);
            lemma_run_ended(Some(record.base), target, memory, (steps - 4) as nat);
        } else {
            assert(record.node == link_before(head, records, index + 1));
            lemma_walk_from(memory, head, records, target, index + 1, (steps - 3) as nat);
        }
    }
}

/// The walk is right: run against a memory that holds `records` as the
/// module list of the process, it ends with the base of the first module whose
/// name matches, and with no result where no name matches. It needs the
/// pointer to the loader data, three reads for each module passed over, and
/// one more to end.
pub proof fn lemma_walk_finds_first(
    memory: Memory,
    process: Address,
    records: Seq<ModuleRecord>,
    target: Seq<char>,
    steps: nat,
)
    requires
        holds_list(memory, list_head(memory, process), records),
        steps >= 3 * records.len() + 2,
    ensures
        run(WalkState::Loader { process }, target, memory, steps) == ended(
            first_named(records, target, 0),
        ),
{
    let width = process.space_width();
    let layout = width.layout_of();
    let start = WalkState::Loader { process };
    let head = list_head(memory, process);
    let reply = memory.read(process.displaced(layout.loader as int), layout.pointer as nat);
    let after = start.after_reply(target, reply);
    assert(after == WalkState::Link { head, at: head });
    assert(run(start, target, memory, steps) == run(after, target, memory, (steps - 1) as nat));
    lemma_walk_from(memory, head, records, target, 0, (steps - 1) as nat);
}

/// Where nothing at or after `from` has the wanted name, nothing is found
/// there.
pub proof fn lemma_none_named(records: Seq<ModuleRecord>, target: Seq<char>, from: int)
    requires
        forall|i: int| 0 <= i < records.len() ==> !name_matches(#[trigger] records[i].name, target),
    ensures
        first_named(records, target, from).is_none(),
    decreases records.len() - from,
{
    if 0 <= from < records.len() {
        lemma_none_named(records, target, from + 1);
    }
}

/// A name that no loaded module has is reported as not found: the walk comes
/// round to the head of the list and ends there.
pub proof fn lemma_absent_is_not_found(
    memory: Memory,
    process: Address,
    records: Seq<ModuleRecord>,
    target: Seq<char>,
    steps: nat,
)
    requires
        holds_list(memory, list_head(memory, process), records),
        forall|i: int| 0 <= i < records.len() ==> !name_matches(#[trigger] records[i].name, target),
        steps >= 3 * records.len() + 2,
    ensures
        run(WalkState::Loader { process }, target, memory, steps) == WalkState::NotFound,
{
    lemma_none_named(records, target, 0);
    lemma_walk_finds_first(memory, process, records, target, steps);
}

} // verus!
