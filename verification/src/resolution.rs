//! What the registry resolves, stated against a model of the process.
//!
//! The process is its memory and the exports of its modules. The registry is
//! run against honest answers to its requests, and the theorem says which two
//! functions it ends with, or which failure.

use vstd::prelude::*;
use crate::address::Address;
use crate::loaded_modules::{
    ended, first_named, holds_list, lemma_run_ended, lemma_walk_finds_first, list_head, run,
    Memory, ModuleRecord,
};
use crate::module_list::WalkState;
use crate::raw::{Failure, Request, Resolution, Step, Symbol, VectoredHandlers, STUB_WINDOW};

verus! {

/// The process as the registry gets to see it.
pub struct Process {
    /// The memory of the process.
    pub memory: Memory,
    /// The address of each exported symbol, by module base and symbol.
    pub exports: Map<(Address, Symbol), Address>,
}

impl Process {
    /// The address that the module at `module` exports `symbol` at, if it
    /// exports it.
    pub open spec fn export(self, module: Address, symbol: Symbol) -> Option<Address> {
        if self.exports.dom().contains((module, symbol)) {
            Some(self.exports[(module, symbol)])
        } else {
            None
        }
    }

    /// The bytes of the stub at `stub` that are searched.
    pub open spec fn stub(self, stub: Address) -> Seq<u8> {
        self.memory.read(stub, STUB_WINDOW as nat)
    }

    /// The step that the honest answer to `request` makes the resolution
    /// take.
    pub open spec fn answer(self, state: Resolution, target: Seq<char>, request: Request) -> Step {
        match request {
            Request::Read(read) => state.after_bytes(
                target,
                self.memory.read(read.address, read.length as nat),
            ),
            Request::Export { module, symbol } => state.after_export(self.export(module, symbol)),
        }
    }

    /// What is to be resolved from the module at `module`: the targets of
    /// its two stubs, or the failure to find a stub or its branch.
    pub open spec fn resolved_from(self, module: Address) -> Result<VectoredHandlers, Failure> {
        match (
            self.export(module, Symbol::AddContinueHandler),
            self.export(module, Symbol::RemoveContinueHandler),
        ) {
            (Some(add_stub), Some(remove_stub)) => match (
                Resolution::unwrapped(add_stub, self.stub(add_stub)),
                Resolution::unwrapped(remove_stub, self.stub(remove_stub)),
            ) {
                (Some(add), Some(remove)) => Ok(VectoredHandlers { add, remove }),
                _ => Err(Failure::PatternNotFound),
            },
            _ => Err(Failure::SymbolNotFound),
        }
    }

    /// What is to be resolved, given where the system module was found, if
    /// it was.
    pub open spec fn resolved(self, module: Option<Address>) -> Result<VectoredHandlers, Failure> {
        match module {
            Some(module) => self.resolved_from(module),
            None => Err(Failure::ModuleNotFound),
        }
    }
}

/// The step in which a resolution with this result ends: ready with the two
/// functions, or given up with the failure.
pub open spec fn concluded(result: Result<VectoredHandlers, Failure>) -> Step {
    match result {
        Ok(handlers) => Resolution::proceed(Resolution::Ready(handlers)),
        Err(failure) => Resolution::give_up(failure),
    }
}

/// Where a resolution stands after at most `steps` of its requests have been
/// answered honestly. It stops at the first failure and when no work is left.
pub open spec fn resolve(state: Resolution, target: Seq<char>, process: Process, steps: nat) -> Step
    decreases steps,
{
    if steps == 0 {
        Resolution::proceed(state)
    } else {
        match state.pending() {
            Some(request) => {
                let step = process.answer(state, target, request);
                if step.failure.is_some() {
                    step
                } else {
                    resolve(step.state, target, process, (steps - 1) as nat)
                }
            },
            None => Resolution::proceed(state),
        }
    }
}

/// Once the system module is found, four answers conclude the resolution:
/// two exports and two stubs.
proof fn lemma_resolve_from_module(
    module: Address,
    target: Seq<char>,
    process: Process,
    steps: nat,
)
    requires
        steps >= 4,
    ensures
        resolve(Resolution::AddExport { module }, target, process, steps) == concluded(
            process.resolved_from(module),
        ),
{
    let first = Resolution::AddExport { module };
    match process.export(module, Symbol::AddContinueHandler) {
        None => {},
        Some(add_stub) => {
            let second = Resolution::RemoveExport { module, add_stub };
            assert(resolve(first, target, process, steps) == resolve(
                second,
                target,
                process,
                (steps - 1) as nat,
            ));
            match process.export(module, Symbol::RemoveContinueHandler) {
                None => {},
                Some(remove_stub) => {
                    let third = Resolution::AddStub { add_stub, remove_stub };
                    assert(resolve(second, target, process, (steps - 1) as nat) == resolve(
                        third,
                        target,
                        process,
                        (steps - 2) as nat,
                    ));
                    let add = Resolution::unwrapped(add_stub, process.stub(add_stub));
                    let fourth = Resolution::RemoveStub { add, remove_stub };
                    assert(resolve(third, target, process, (steps - 2) as nat) == resolve(
                        fourth,
                        target,
                        process,
                        (steps - 3) as nat,
                    ));
                    let last = fourth.after_bytes(target, process.stub(remove_stub));
                    if last.failure.is_none() {
                        assert(resolve(fourth, target, process, (steps - 3) as nat) == resolve(
                            last.state,
                            target,
                            process,
                            (steps - 4) as nat,
                        ));
                    }
                },
            }
        },
    }
}

/// While the module list is walked, the resolution goes the way of the walk,
/// and goes on from where the walk ends.
proof fn lemma_resolve_while_locating(
    walk: WalkState,
    target: Seq<char>,
    process: Process,
    result: Option<Address>,
    reads: nat,
    steps: nat,
)
    requires
        !walk.is_done(),
        run(walk, target, process.memory, reads) == ended(result),
        steps >= reads + 4,
    ensures
        resolve(Resolution::Locating(walk), target, process, steps) == concluded(
            process.resolved(result),
        ),
    decreases reads,
{
    let read = walk.pending().unwrap();
    let onward = walk.after_reply(target, process.memory.read(read.address, read.length as nat));
    let state = Resolution::Locating(walk);
    assert(state.pending() == Some(Request::Read(read)));
    assert(reads > 0);
    assert(run(walk, target, process.memory, reads) == run(
        onward,
        target,
        process.memory,
        (reads - 1) as nat,
    ));
    match onward {
        WalkState::Found(module) => {
            lemma_run_ended(Some(module), target, process.memory, (reads - 1) as nat);
            assert(result == Some(module));
            lemma_resolve_from_module(module, target, process, (steps - 1) as nat);
        },
        WalkState::NotFound => {
            lemma_run_ended(None, target, process.memory, (reads - 1) as nat);
            assert(result.is_none());
        },
        _ => {
            lemma_resolve_while_locating(
                onward,
                target,
                process,
                result,
                (reads - 1) as nat,
                (steps - 1) as nat,
            );
        },
    }
}

/// The resolution is right. Begun in a process whose memory holds `records`
/// as its module list, and answered honestly, a registry that knew nothing
/// ends ready with the functions that the two stubs of the first module of
/// the wanted name forward to. It gives up, and is again as it was before it
/// began, where no module has the name, where the module lacks one of the
/// exports, or where one of the stubs holds no branch.
pub proof fn lemma_resolution(
    process: Process,
    block: Address,
    records: Seq<ModuleRecord>,
    target: Seq<char>,
    steps: nat,
)
    requires
        holds_list(process.memory, list_head(process.memory, block), records),
        steps >= 3 * records.len() + 6,
    ensures
        resolve(Resolution::Uninitialized.after_begin(block), target, process, steps) == concluded(
            process.resolved(first_named(records, target, 0)),
        ),
{
    let reads = 3 * records.len() + 2;
    lemma_walk_finds_first(process.memory, block, records, target, reads);
    lemma_resolve_while_locating(
        WalkState::Loader { process: block },
        target,
        process,
        first_named(records, target, 0),
        reads,
        steps,
    );
}

} // verus!
