//! What registering and unregistering do to the system's handler chain,
//! stated against a model of the chain.
//!
//! The chain itself belongs to the system and is changed only by the two
//! resolved functions. The model says what those calls are taken to do: the
//! registering call puts a new entry in front of the chain or behind it, as
//! its selector says, and names the entry by the handle it returns; the
//! unregistering call takes the entry of that handle out. Handlers run in
//! the order of the chain.

use vstd::prelude::*;
use crate::raw::{AddCall, RemoveCall, VectoredHandlers, CONTINUE_HANDLER};
use crate::Order;

verus! {

/// One registered handler.
pub struct Entry {
    /// What the registering call returned for it.
    pub handle: usize,
    /// The address of the handler.
    pub handler: usize,
}

/// The chain of handlers, the one that runs first in front.
pub struct Chain {
    /// The entries, in the order in which their handlers run.
    pub entries: Seq<Entry>,
}

/// The entries without those of the given handle.
pub open spec fn without(entries: Seq<Entry>, handle: usize) -> Seq<Entry>
    decreases entries.len(),
{
    if entries.len() == 0 {
        entries
    } else if entries.last().handle == handle {
        without(entries.drop_last(), handle)
    } else {
        without(entries.drop_last(), handle).push(entries.last())
    }
}

/// Whether an entry of the given handle is among the entries.
pub open spec fn among(entries: Seq<Entry>, handle: usize) -> bool {
    exists|i: int| 0 <= i < entries.len() && (#[trigger] entries[i]).handle == handle
}

impl Chain {
    /// Whether the chain holds an entry of this handle.
    pub open spec fn holds(self, handle: usize) -> bool {
        among(self.entries, handle)
    }

    /// The chain after the registering call `call` has returned `handle`.
    pub open spec fn after_add(self, call: AddCall, handle: usize) -> Chain {
        let entry = Entry { handle, handler: call.handler };
        if call.first_handler != 0 {
            Chain { entries: seq![entry] + self.entries }
        } else {
            Chain { entries: self.entries.push(entry) }
        }
    }

    /// The chain after the unregistering call `call`.
    pub open spec fn after_remove(self, call: RemoveCall) -> Chain {
        Chain { entries: without(self.entries, call.handle) }
    }

    /// Whether the handler registered as `earlier` runs before the one
    /// registered as `later`.
    pub open spec fn runs_before(self, earlier: usize, later: usize) -> bool {
        exists|i: int, j: int|
            #![trigger self.entries[i], self.entries[j]]
            0 <= i < j < self.entries.len() && self.entries[i].handle == earlier
                && self.entries[j].handle == later
    }
}

/// The call that registers the handler at `handler` at the place that `order`
/// names, with the resolved functions `handlers`.
pub open spec fn registering_call(handlers: VectoredHandlers, order: Order, handler: usize) -> AddCall {
    AddCall {
        function: handlers.add,
        first_handler: order.selector(),
        handler,
        handler_type: CONTINUE_HANDLER,
    }
}

/// The call that unregisters the handler that was registered as `handle`.
pub open spec fn unregistering_call(handlers: VectoredHandlers, handle: usize) -> RemoveCall {
    RemoveCall { function: handlers.remove, handle, handler_type: CONTINUE_HANDLER }
}

/// Taking out a handle that is not among the entries changes nothing.
pub proof fn lemma_without_absent(entries: Seq<Entry>, handle: usize)
    requires
        !among(entries, handle),
    ensures
        without(entries, handle) == entries,
    decreases entries.len(),
{
    if entries.len() > 0 {
        let last = entries.last();
        assert(entries[entries.len() - 1] == last);
        assert(!among(entries.drop_last(), handle)) by {
            if among(entries.drop_last(), handle) {
                let i = choose|i: int|
                    0 <= i < entries.drop_last().len() && (#[trigger] entries.drop_last()[i]).handle
                        == handle;
                assert(entries[i].handle == handle);
            }
        }
        lemma_without_absent(entries.drop_last(), handle);
        assert(entries.drop_last().push(last) =~= entries);
    }
}

/// What is left after a handle is taken out holds no entry of it, and every
/// entry left was there before.
pub proof fn lemma_without_removes(entries: Seq<Entry>, handle: usize)
    ensures
        !among(without(entries, handle), handle),
        forall|other: usize|
            other != handle ==> (among(without(entries, handle), other) <==> among(entries, other)),
    decreases entries.len(),
{
    if entries.len() > 0 {
        let rest = entries.drop_last();
        let last = entries.last();
        lemma_without_removes(rest, handle);
        let kept = without(rest, handle);
        assert forall|other: usize| other != handle implies (among(without(entries, handle), other)
            <==> among(entries, other)) by {
            if among(entries, other) {
                let i = choose|i: int| 0 <= i < entries.len() && (#[trigger] entries[i]).handle == other;
                if i < rest.len() {
                    assert(rest[i].handle == other);
                    assert(among(rest, other));
                    assert(among(kept, other));
                    let k = choose|k: int| 0 <= k < kept.len() && (#[trigger] kept[k]).handle == other;
                    if last.handle != handle {
                        assert(kept.push(last)[k].handle == other);
                    }
                } else {
                    assert(last.handle == other);
                    assert(kept.push(last)[kept.len() as int].handle == other);
                }
            }
            if among(without(entries, handle), other) {
                let result = without(entries, handle);
                let k = choose|k: int| 0 <= k < result.len() && (#[trigger] result[k]).handle == other;
                if last.handle != handle && k == kept.len() {
                    assert(entries[entries.len() - 1].handle == other);
                } else {
                    assert(kept[k].handle == other);
                    assert(among(rest, other));
                    let i = choose|i: int| 0 <= i < rest.len() && (#[trigger] rest[i]).handle == other;
                    assert(entries[i].handle == other);
                }
            }
        }
        if last.handle != handle {
            assert(!among(kept.push(last), handle)) by {
                if among(kept.push(last), handle) {
                    let k = choose|k: int|
                        0 <= k < kept.push(last).len() && (#[trigger] kept.push(last)[k]).handle
                            == handle;
                    assert(kept[k].handle == handle);
                }
            }
        }
    }
}

/// A handler registered with `Order::First` runs before one registered with
/// `Order::Last`, whichever of the two is registered first and whatever the
/// chain held before.
pub proof fn lemma_first_runs_before_last(
    chain: Chain,
    handlers: VectoredHandlers,
    front: usize,
    front_handle: usize,
    back: usize,
    back_handle: usize,
)
    ensures
        chain.after_add(registering_call(handlers, Order::First, front), front_handle).after_add(
            registering_call(handlers, Order::Last, back),
            back_handle,
        ).runs_before(front_handle, back_handle),
        chain.after_add(registering_call(handlers, Order::Last, back), back_handle).after_add(
            registering_call(handlers, Order::First, front),
            front_handle,
        ).runs_before(front_handle, back_handle),
{
    let first_then_last = chain.after_add(
        registering_call(handlers, Order::First, front),
        front_handle,
    ).after_add(registering_call(handlers, Order::Last, back), back_handle);
    let n = chain.entries.len() as int;
    assert(first_then_last.entries.len() == n + 2);
    assert(first_then_last.entries[0].handle == front_handle);
    assert(first_then_last.entries[n + 1].handle == back_handle);
    let last_then_first = chain.after_add(
        registering_call(handlers, Order::Last, back),
        back_handle,
    ).after_add(registering_call(handlers, Order::First, front), front_handle);
    assert(last_then_first.entries.len() == n + 2);
    assert(last_then_first.entries[0].handle == front_handle);
    assert(last_then_first.entries[n + 1].handle == back_handle);
}

/// A handler registered with `Order::First` runs before every handler that
/// was on the chain, and one registered with `Order::Last` after every one.
pub proof fn lemma_order_against_the_chain(
    chain: Chain,
    handlers: VectoredHandlers,
    handler: usize,
    handle: usize,
    other: usize,
)
    requires
        chain.holds(other),
    ensures
        chain.after_add(registering_call(handlers, Order::First, handler), handle).runs_before(
            handle,
            other,
        ),
        chain.after_add(registering_call(handlers, Order::Last, handler), handle).runs_before(
            other,
            handle,
        ),
{
    let i = choose|i: int| 0 <= i < chain.entries.len() && (#[trigger] chain.entries[i]).handle == other;
    let in_front = chain.after_add(registering_call(handlers, Order::First, handler), handle);
    assert(in_front.entries[0].handle == handle);
    assert(in_front.entries[i + 1].handle == other);
    let behind = chain.after_add(registering_call(handlers, Order::Last, handler), handle);
    assert(behind.entries[i].handle == other);
    assert(behind.entries[chain.entries.len() as int].handle == handle);
}

/// Releasing a registration takes its handler off the chain and leaves every
/// other handler on it. Where the handle was new when registration returned
/// it, the chain is again what it was before the registration.
pub proof fn lemma_release_undoes_registration(
    chain: Chain,
    handlers: VectoredHandlers,
    order: Order,
    handler: usize,
    handle: usize,
)
    ensures
        !chain.after_add(registering_call(handlers, order, handler), handle).after_remove(
            unregistering_call(handlers, handle),
        ).holds(handle),
        forall|other: usize|
            other != handle ==> (chain.after_add(
                registering_call(handlers, order, handler),
                handle,
            ).after_remove(unregistering_call(handlers, handle)).holds(other) <==> chain.holds(other)),
        !chain.holds(handle) ==> chain.after_add(
            registering_call(handlers, order, handler),
            handle,
        ).after_remove(unregistering_call(handlers, handle)) == chain,
{
    let added = chain.after_add(registering_call(handlers, order, handler), handle);
    let entry = Entry { handle, handler };
    lemma_without_removes(added.entries, handle);
    assert forall|other: usize| other != handle implies (among(added.entries, other) <==> among(
        chain.entries,
        other,
    )) by {
        if among(chain.entries, other) {
            let i = choose|i: int|
                0 <= i < chain.entries.len() && (#[trigger] chain.entries[i]).handle == other;
            if order.is_first() {
                assert(added.entries[i + 1].handle == other);
            } else {
                assert(added.entries[i].handle == other);
            }
        }
        if among(added.entries, other) {
            let k = choose|k: int|
                0 <= k < added.entries.len() && (#[trigger] added.entries[k]).handle == other;
            if order.is_first() {
                assert(chain.entries[k - 1].handle == other);
            } else {
                assert(chain.entries[k].handle == other);
            }
        }
    }
    if !chain.holds(handle) {
        lemma_without_front(entry, chain.entries);
        lemma_without_absent(chain.entries, handle);
        if !order.is_first() {
            assert(added.entries.drop_last() =~= chain.entries);
        }
    }
}

/// Taking a handle out of entries that begin with an entry of it takes that
/// entry out with the others.
proof fn lemma_without_front(entry: Entry, entries: Seq<Entry>)
    ensures
        without(seq![entry] + entries, entry.handle) == without(entries, entry.handle),
    decreases entries.len(),
{
    let whole = seq![entry] + entries;
    if entries.len() == 0 {
        assert(whole.drop_last() =~= entries);
        assert(whole.last() == entry);
    } else {
        assert(whole.drop_last() =~= seq![entry] + entries.drop_last());
        assert(whole.last() == entries.last());
        lemma_without_front(entry, entries.drop_last());
    }
}

} // verus!
