//! The registry of the two functions behind the system's handler chain: how
//! they are found, once, and what a call of either is handed.
//!
//! Finding them takes three kinds of work that only the caller can do, reading
//! process memory, looking an export up in a module, and calling through an
//! address. The registry decides which work is needed next and what its
//! result means.

use vstd::prelude::*;
use crate::address::Address;
use crate::module_list::{MemoryRead, WalkState, to_uppercase, uppercase};
use crate::trampoline::{get_wrapped_function, wrapped_function};

verus! {

/// The handler type that both functions are told: continue handlers, which
/// run on the same chain mechanism as exception handlers do.
pub const CONTINUE_HANDLER: i32 = 0;

/// How many bytes of an exported stub are searched for its branch. Stubs are
/// well under this length.
pub const STUB_WINDOW: usize = 0x50;

/// The module that exports the stubs.
pub const SYSTEM_MODULE: &'static str = "ntdll.dll";

/// The two functions that the registry resolves.
#[derive(Clone, Copy, PartialEq, Eq, Structural, Debug)]
pub struct VectoredHandlers {
    /// The function that puts a handler on the chain.
    pub add: Address,
    /// The function that takes a handler off the chain.
    pub remove: Address,
}

/// The two exported stubs that forward to the functions wanted.
#[derive(Clone, Copy, PartialEq, Eq, Structural, Debug)]
pub enum Symbol {
    /// The stub that registers a continue handler.
    AddContinueHandler,
    /// The stub that unregisters a continue handler.
    RemoveContinueHandler,
}

impl Symbol {
    /// The name under which the stub is exported.
    pub open spec fn exported_as(self) -> Seq<char> {
        match self {
            Symbol::AddContinueHandler => "RtlAddVectoredContinueHandler"@,
            Symbol::RemoveContinueHandler => "RtlRemoveVectoredContinueHandler"@,
        }
    }

    /// The name under which the stub is exported.
    pub fn name(&self) -> (name: &'static str)
        ensures
            name@ == self.exported_as(),
    {
        match self {
            Symbol::AddContinueHandler => "RtlAddVectoredContinueHandler",
            Symbol::RemoveContinueHandler => "RtlRemoveVectoredContinueHandler",
        }
    }
}

/// Work that the registry needs done before it can go on.
#[derive(Clone, Copy, PartialEq, Eq, Structural, Debug)]
pub enum Request {
    /// Read these bytes of the process.
    Read(MemoryRead),
    /// Look up, by its exact name, the address that the module at `module`
    /// exports `symbol` at.
    Export { module: Address, symbol: Symbol },
}

/// Why the two functions could not be resolved.
#[derive(Clone, Copy, PartialEq, Eq, Structural, Debug)]
pub enum Failure {
    /// No loaded module has the name of the system module.
    ModuleNotFound,
    /// The module does not export one of the two stubs.
    SymbolNotFound,
    /// One of the two stubs holds no forwarding branch.
    PatternNotFound,
}

/// How far the resolution has come.
#[derive(Clone, Copy, PartialEq, Eq, Structural, Debug)]
pub enum Resolution {
    /// Nothing is known and nothing has been asked for.
    Uninitialized,
    /// The module list is being walked in search of the system module.
    Locating(WalkState),
    /// Waiting for the address of the registering stub.
    AddExport { module: Address },
    /// Waiting for the address of the unregistering stub.
    RemoveExport { module: Address, add_stub: Address },
    /// Waiting for the bytes of the registering stub.
    AddStub { add_stub: Address, remove_stub: Address },
    /// Waiting for the bytes of the unregistering stub; `add` is what the
    /// registering stub was found to forward to.
    RemoveStub { add: Option<Address>, remove_stub: Address },
    /// Both functions are known.
    Ready(VectoredHandlers),
}

/// A step of the resolution: where it stands afterwards, and the failure, if
/// the step ended it.
pub struct Step {
    /// The state after the step.
    pub state: Resolution,
    /// Why the resolution failed, if this step made it fail.
    pub failure: Option<Failure>,
}

impl Resolution {
    /// A step that moves to `state` without failing.
    pub open spec fn proceed(state: Resolution) -> Step {
        Step { state, failure: None }
    }

    /// A step that gives the resolution up. Nothing of the failed attempt is
    /// kept: the state is the one before any work was done.
    pub open spec fn give_up(failure: Failure) -> Step {
        Step { state: Resolution::Uninitialized, failure: Some(failure) }
    }

    /// The work that the resolution is waiting for, `None` where it waits for
    /// none: before it has begun and once it is ready.
    pub open spec fn pending(self) -> Option<Request> {
        match self {
            Resolution::Uninitialized => None,
            Resolution::Locating(walk) => match walk.pending() {
                Some(read) => Some(Request::Read(read)),
                None => None,
            },
            Resolution::AddExport { module } => Some(
                Request::Export { module, symbol: Symbol::AddContinueHandler },
            ),
            Resolution::RemoveExport { module, add_stub } => Some(
                Request::Export { module, symbol: Symbol::RemoveContinueHandler },
            ),
            Resolution::AddStub { add_stub, remove_stub } => Some(
                Request::Read(MemoryRead { address: add_stub, length: STUB_WINDOW }),
            ),
            Resolution::RemoveStub { add, remove_stub } => Some(
                Request::Read(MemoryRead { address: remove_stub, length: STUB_WINDOW }),
            ),
            Resolution::Ready(_) => None,
        }
    }

    /// The state after a request to begin: a resolution that has not begun
    /// starts to walk the module list of the process whose process block
    /// stands at `process`; one that is under way or ready stays as it is.
    pub open spec fn after_begin(self, process: Address) -> Resolution {
        match self {
            Resolution::Uninitialized => Resolution::Locating(WalkState::Loader { process }),
            _ => self,
        }
    }

    /// What the stub at `stub` forwards to, where `reply` is what was read of
    /// it. A reply that has not the length asked for holds no stub.
    pub open spec fn unwrapped(stub: Address, reply: Seq<u8>) -> Option<Address> {
        if reply.len() == STUB_WINDOW {
            wrapped_function(stub, reply)
        } else {
            None
        }
    }

    /// The step taken when bytes of the process arrive. `target` is the name
    /// of the system module in upper case.
    ///
    /// A state that waits for no bytes stays as it is.
    pub open spec fn after_bytes(self, target: Seq<char>, reply: Seq<u8>) -> Step {
        match self {
            Resolution::Locating(walk) => {
                match walk.after_reply(target, reply) {
                    WalkState::Found(module) => Self::proceed(Resolution::AddExport { module }),
                    WalkState::NotFound => Self::give_up(Failure::ModuleNotFound),
                    onward => Self::proceed(Resolution::Locating(onward)),
                }
            },
            Resolution::AddStub { add_stub, remove_stub } => Self::proceed(
                Resolution::RemoveStub { add: Self::unwrapped(add_stub, reply), remove_stub },
            ),
            Resolution::RemoveStub { add, remove_stub } => {
                match (add, Self::unwrapped(remove_stub, reply)) {
                    (Some(add), Some(remove)) => Self::proceed(
                        Resolution::Ready(VectoredHandlers { add, remove }),
                    ),
                    _ => Self::give_up(Failure::PatternNotFound),
                }
            },
            _ => Self::proceed(self),
        }
    }

    /// The step taken when the answer to an export lookup arrives: the
    /// address, or `None` where the module exports no such symbol.
    ///
    /// A state that waits for no export stays as it is.
    pub open spec fn after_export(self, address: Option<Address>) -> Step {
        match self {
            Resolution::AddExport { module } => match address {
                Some(add_stub) => Self::proceed(Resolution::RemoveExport { module, add_stub }),
                None => Self::give_up(Failure::SymbolNotFound),
            },
            Resolution::RemoveExport { module, add_stub } => match address {
                Some(remove_stub) => Self::proceed(Resolution::AddStub { add_stub, remove_stub }),
                None => Self::give_up(Failure::SymbolNotFound),
            },
            _ => Self::proceed(self),
        }
    }

    /// The two functions, once both are known.
    pub open spec fn resolved(self) -> Option<VectoredHandlers> {
        match self {
            Resolution::Ready(handlers) => Some(handlers),
            _ => None,
        }
    }

    /// Whether the state is one that a resolution can be in: while the module
    /// list is walked, the walk has not ended.
    pub open spec fn wf(self) -> bool {
        match self {
            Resolution::Locating(walk) => !walk.is_done(),
            _ => true,
        }
    }

    /// Whether the resolution has begun and has not yet ended.
    pub open spec fn under_way(self) -> bool {
        !(self is Uninitialized) && !(self is Ready)
    }
}

/// Every step leads from a state that a resolution can be in to another such
/// state, and a step that does not fail never leads back to the beginning.
pub proof fn lemma_steps_keep_wf(
    state: Resolution,
    target: Seq<char>,
    process: Address,
    reply: Seq<u8>,
    address: Option<Address>,
)
    requires
        state.wf(),
    ensures
        state.after_begin(process).wf(),
        state.after_bytes(target, reply).state.wf(),
        state.after_export(address).state.wf(),
        !(state.after_begin(process) is Uninitialized),
        !(state is Uninitialized) && state.after_bytes(target, reply).failure.is_none() ==> !(
        state.after_bytes(target, reply).state is Uninitialized),
        !(state is Uninitialized) && state.after_export(address).failure.is_none() ==> !(
        state.after_export(address).state is Uninitialized),
{
}

/// A resolution that is under way never stalls: it always has a request
/// pending. So a registry that asks for nothing either has not begun or is
/// ready.
pub proof fn lemma_never_stalls(state: Resolution)
    requires
        state.wf(),
    ensures
        state.pending().is_some() <==> state.under_way(),
{
}

/// Something that happens to a registry: one call of one of its methods.
pub enum Event {
    /// A request to begin, for the process whose process block stands here.
    Begin(Address),
    /// Bytes of the process arrive.
    Bytes(Seq<u8>),
    /// The answer to an export lookup arrives.
    Export(Option<Address>),
}

impl Resolution {
    /// The state after one event.
    pub open spec fn after_event(self, target: Seq<char>, event: Event) -> Resolution {
        match event {
            Event::Begin(process) => self.after_begin(process),
            Event::Bytes(reply) => self.after_bytes(target, reply).state,
            Event::Export(address) => self.after_export(address).state,
        }
    }

    /// The state after a run of events, the first of them first.
    pub open spec fn after_events(self, target: Seq<char>, events: Seq<Event>) -> Resolution
        decreases events.len(),
    {
        if events.len() == 0 {
            self
        } else {
            self.after_event(target, events[0]).after_events(target, events.skip(1))
        }
    }
}

/// A run of events can be cut in two and taken one part after the other.
pub proof fn lemma_events_in_parts(
    state: Resolution,
    target: Seq<char>,
    before: Seq<Event>,
    after: Seq<Event>,
)
    ensures
        state.after_events(target, before + after) == state.after_events(
            target,
            before,
        ).after_events(target, after),
    decreases before.len(),
{
    if before.len() == 0 {
        assert(before + after =~= after);
    } else {
        assert((before + after).skip(1) =~= before.skip(1) + after);
        lemma_events_in_parts(
            state.after_event(target, before[0]),
            target,
            before.skip(1),
            after,
        );
    }
}

/// A registry that is ready stays ready with the same two functions, whatever
/// happens to it, and asks for no work.
pub proof fn lemma_ready_stays(
    handlers: VectoredHandlers,
    target: Seq<char>,
    events: Seq<Event>,
)
    ensures
        Resolution::Ready(handlers).after_events(target, events) == Resolution::Ready(handlers),
        Resolution::Ready(handlers).pending().is_none(),
    decreases events.len(),
{
    if events.len() > 0 {
        lemma_ready_stays(handlers, target, events.skip(1));
    }
}

/// The two functions are resolved at most once: from the moment a registry
/// holds them, every later look at it, after whatever further events, finds
/// the same two, and the registry asks for no more work.
pub proof fn lemma_resolved_once(
    state: Resolution,
    target: Seq<char>,
    before: Seq<Event>,
    after: Seq<Event>,
)
    requires
        state.after_events(target, before).resolved().is_some(),
    ensures
        state.after_events(target, before + after).resolved() == state.after_events(
            target,
            before,
        ).resolved(),
        state.after_events(target, before + after).pending().is_none(),
{
    lemma_events_in_parts(state, target, before, after);
    lemma_ready_stays(state.after_events(target, before).resolved().unwrap(), target, after);
}

/// A request to begin sets work going only in a registry that has done none:
/// one that is under way or ready is left as it is.
pub proof fn lemma_begin_once(state: Resolution, first: Address, second: Address)
    ensures
        state.after_begin(first).after_begin(second) == state.after_begin(first),
{
}

/// Reads the forwarding target out of the bytes read of a stub.
fn unwrap_stub(stub: Address, reply: &[u8]) -> (target: Option<Address>)
    ensures
        target == Resolution::unwrapped(stub, reply@),
{
    if reply.len() == STUB_WINDOW {
        get_wrapped_function(stub, reply)
    } else {
        None
    }
}

/// The cache of the two resolved functions, with the state of the work that
/// fills it.
///
/// The functions are resolved at most once. A registry that is ready never
/// asks for work again and never changes.
pub struct Registry {
    /// The name of the system module, in upper case.
    pub target: String,
    /// How far the resolution has come.
    pub state: Resolution,
}

impl Registry {
    /// Whether the registry looks for the system module and is in a state
    /// that a resolution can be in.
    pub open spec fn wf(self) -> bool {
        &&& self.target@ == uppercase(SYSTEM_MODULE@)
        &&& self.state.wf()
    }

    /// A registry that knows nothing yet.
    pub fn new() -> (registry: Registry)
        ensures
            registry.wf(),
            registry.state == Resolution::Uninitialized,
    {
        Registry { target: to_uppercase(SYSTEM_MODULE), state: Resolution::Uninitialized }
    }

    /// Begins to resolve the two functions in the process whose process block
    /// stands at `process`, unless that has begun before.
    pub fn find_handlers(&mut self, process: Address)
        ensures
            final(self).target == old(self).target,
            final(self).state == old(self).state.after_begin(process),
            old(self).wf() ==> final(self).wf(),
    {
        match self.state {
            Resolution::Uninitialized => {
                self.state = Resolution::Locating(WalkState::Loader { process });
            },
            _ => {},
        }
    }

    /// The work that has to be done before the registry can go on, `None`
    /// where none is needed.
    pub fn request(&self) -> (request: Option<Request>)
        ensures
            request == self.state.pending(),
    {
        match self.state {
            Resolution::Uninitialized => None,
            Resolution::Locating(walk) => match walk.request() {
                Some(read) => Some(Request::Read(read)),
                None => None,
            },
            Resolution::AddExport { module } => Some(
                Request::Export { module, symbol: Symbol::AddContinueHandler },
            ),
            Resolution::RemoveExport { module, add_stub } => Some(
                Request::Export { module, symbol: Symbol::RemoveContinueHandler },
            ),
            Resolution::AddStub { add_stub, remove_stub } => Some(
                Request::Read(MemoryRead { address: add_stub, length: STUB_WINDOW }),
            ),
            Resolution::RemoveStub { add, remove_stub } => Some(
                Request::Read(MemoryRead { address: remove_stub, length: STUB_WINDOW }),
            ),
            Resolution::Ready(_) => None,
        }
    }

    /// Hands the registry bytes that it asked for. Returns the failure if
    /// they end the resolution without a result; the registry is then as it
    /// was before the resolution began.
    pub fn supply_bytes(&mut self, reply: &[u8]) -> (failure: Option<Failure>)
        ensures
            final(self).target == old(self).target,
            final(self).state == old(self).state.after_bytes(old(self).target@, reply@).state,
            failure == old(self).state.after_bytes(old(self).target@, reply@).failure,
            old(self).wf() ==> final(self).wf(),
    {
        match self.state {
            Resolution::Locating(walk) => {
                match walk.resume(&self.target, reply) {
                    WalkState::Found(module) => {
                        self.state = Resolution::AddExport { module };
                        None
                    },
                    WalkState::NotFound => {
                        self.state = Resolution::Uninitialized;
                        Some(Failure::ModuleNotFound)
                    },
                    onward => {
                        self.state = Resolution::Locating(onward);
                        None
                    },
                }
            },
            Resolution::AddStub { add_stub, remove_stub } => {
                self.state = Resolution::RemoveStub {
                    add: unwrap_stub(add_stub, reply),
                    remove_stub,
                };
                None
            },
            Resolution::RemoveStub { add, remove_stub } => {
                match (add, unwrap_stub(remove_stub, reply)) {
                    (Some(add), Some(remove)) => {
                        self.state = Resolution::Ready(VectoredHandlers { add, remove });
                        None
                    },
                    _ => {
                        self.state = Resolution::Uninitialized;
                        Some(Failure::PatternNotFound)
                    },
                }
            },
            _ => None,
        }
    }

    /// Hands the registry the answer to an export lookup that it asked for.
    /// Returns the failure if the answer ends the resolution without a
    /// result; the registry is then as it was before the resolution began.
    pub fn supply_export(&mut self, address: Option<Address>) -> (failure: Option<Failure>)
        ensures
            final(self).target == old(self).target,
            final(self).state == old(self).state.after_export(address).state,
            failure == old(self).state.after_export(address).failure,
            old(self).wf() ==> final(self).wf(),
    {
        match self.state {
            Resolution::AddExport { module } => match address {
                Some(add_stub) => {
                    self.state = Resolution::RemoveExport { module, add_stub };
                    None
                },
                None => {
                    self.state = Resolution::Uninitialized;
                    Some(Failure::SymbolNotFound)
                },
            },
            Resolution::RemoveExport { module, add_stub } => match address {
                Some(remove_stub) => {
                    self.state = Resolution::AddStub { add_stub, remove_stub };
                    None
                },
                None => {
                    self.state = Resolution::Uninitialized;
                    Some(Failure::SymbolNotFound)
                },
            },
            _ => None,
        }
    }

    /// The two functions, once both are known.
    pub fn handlers(&self) -> (handlers: Option<VectoredHandlers>)
        ensures
            handlers == self.state.resolved(),
    {
        match self.state {
            Resolution::Ready(handlers) => Some(handlers),
            _ => None,
        }
    }
}

/// A call of the registering function, for the caller to make.
#[derive(Clone, Copy, PartialEq, Eq, Structural, Debug)]
pub struct AddCall {
    /// The function to call.
    pub function: Address,
    /// Non-zero to put the handler in front of the chain, zero to put it
    /// behind.
    pub first_handler: i32,
    /// The address of the handler.
    pub handler: usize,
    /// The kind of handler.
    pub handler_type: i32,
}

/// A call of the unregistering function, for the caller to make.
#[derive(Clone, Copy, PartialEq, Eq, Structural, Debug)]
pub struct RemoveCall {
    /// The function to call.
    pub function: Address,
    /// What the registering function returned for the handler.
    pub handle: usize,
    /// The kind of handler.
    pub handler_type: i32,
}

/// The call that registers `vectored_handler` as a continue handler, in front
/// of the chain if `first_handler` is set and behind it if not.
pub fn add_vectored_exception_handler(
    handlers: &VectoredHandlers,
    first_handler: bool,
    vectored_handler: usize,
) -> (call: AddCall)
    ensures
        call == (AddCall {
            function: handlers.add,
            first_handler: if first_handler { 1i32 } else { 0i32 },
            handler: vectored_handler,
            handler_type: CONTINUE_HANDLER,
        }),
{
    AddCall {
        function: handlers.add,
        first_handler: if first_handler { 1 } else { 0 },
        handler: vectored_handler,
        handler_type: CONTINUE_HANDLER,
    }
}

/// The call that unregisters the continue handler for which registration
/// returned `vectored_handler`.
pub fn remove_vectored_exception_handler(
    handlers: &VectoredHandlers,
    vectored_handler: usize,
) -> (call: RemoveCall)
    ensures
        call == (RemoveCall {
            function: handlers.remove,
            handle: vectored_handler,
            handler_type: CONTINUE_HANDLER,
        }),
{
    RemoveCall {
        function: handlers.remove,
        handle: vectored_handler,
        handler_type: CONTINUE_HANDLER,
    }
}

} // verus!
