//! Scoped registration of vectored continue handlers, resolved without going
//! through any exported entry point that a third party could have redirected.
//!
//! The crate holds the decisions: how the loaded-module list is walked, which
//! bytes of an exported stub name the function it forwards to, how the resolved
//! pair of functions is cached, and what is handed to them. It never touches
//! process memory itself. Every read of memory and every call through a
//! resolved address is described by a value that the caller carries out.

use vstd::prelude::*;
use crate::chain::{registering_call, unregistering_call};
use crate::raw::{
    add_vectored_exception_handler, remove_vectored_exception_handler, AddCall, RemoveCall,
    VectoredHandlers,
};

pub mod address;
pub mod chain;
pub mod layout;
pub mod loaded_modules;
pub mod memory;
pub mod module_list;
pub mod raw;
pub mod raw_offset;
pub mod resolution;
pub mod trampoline;

verus! {

/// Where in the handler chain a new handler is inserted.
#[derive(Clone, Copy, PartialEq, Eq, Structural, Debug)]
pub enum Order {
    /// In front of every handler already registered.
    First,
    /// Behind every handler already registered.
    Last,
}

impl Order {
    /// Whether the handler goes to the front of the chain.
    pub open spec fn is_first(self) -> bool {
        self == Order::First
    }

    /// The front/back selector in the form the registration function takes it:
    /// 1 for the front of the chain, 0 for its back.
    pub open spec fn selector(self) -> i32 {
        if self.is_first() {
            1
        } else {
            0
        }
    }

    /// Whether the handler goes to the front of the chain.
    pub fn first(&self) -> (front: bool)
        ensures
            front == self.is_first(),
    {
        match self {
            Order::First => true,
            Order::Last => false,
        }
    }
}

/// A handler, tagged with the description of exception information that it
/// is written against. The tag tells the shapes apart; the address is all
/// that is registered.
#[derive(Clone, Copy, PartialEq, Eq, Structural, Debug)]
pub enum Handler {
    /// A handler that takes an untyped pointer.
    Void(usize),
    /// A handler written against the `winapi` description.
    Winapi(usize),
    /// A handler written against the `windows-sys` description.
    Windows(usize),
}

impl Handler {
    /// The address of the handler's code.
    pub open spec fn entry(self) -> usize {
        match self {
            Handler::Void(address) => address,
            Handler::Winapi(address) => address,
            Handler::Windows(address) => address,
        }
    }

    /// The address of the handler's code.
    pub fn address(&self) -> (address: usize)
        ensures
            address == self.entry(),
    {
        match self {
            Handler::Void(address) => *address,
            Handler::Winapi(address) => *address,
            Handler::Windows(address) => *address,
        }
    }
}

/// The call that registers the handler at `handler` at the place in the chain
/// that `order` names.
pub fn raw_add(handlers: &VectoredHandlers, order: Order, handler: usize) -> (call: AddCall)
    ensures
        call == registering_call(*handlers, order, handler),
{
    match order {
        Order::First => add_vectored_exception_handler(handlers, true, handler),
        Order::Last => add_vectored_exception_handler(handlers, false, handler),
    }
}

/// A registration that has been decided on and not yet made: the call to
/// make, and the pair of functions it was decided with.
pub struct Registration {
    call: AddCall,
    handlers: VectoredHandlers,
}

impl Registration {
    /// The call that makes the registration.
    pub closed spec fn request(self) -> AddCall {
        self.call
    }

    /// The pair of functions that the registration was decided with.
    pub closed spec fn resolved(self) -> VectoredHandlers {
        self.handlers
    }

    /// The call that makes the registration.
    pub fn call(&self) -> (call: AddCall)
        ensures
            call == self.request(),
    {
        self.call
    }

    /// Turns the registration into the handle that owns it, given what the
    /// call returned.
    pub fn complete(self, handle: usize) -> (veh: Veh)
        ensures
            veh.token() == handle,
            veh.resolved() == self.resolved(),
    {
        Veh { handle, handlers: self.handlers }
    }
}

/// A registered handler. The handle owns the registration: it cannot be
/// copied, and releasing it uses it up, so that a registration is undone at
/// most once.
pub struct Veh {
    handle: usize,
    handlers: VectoredHandlers,
}

impl Veh {
    /// What the registering call returned.
    pub closed spec fn token(self) -> usize {
        self.handle
    }

    /// The pair of functions that the handler was registered with.
    pub closed spec fn resolved(self) -> VectoredHandlers {
        self.handlers
    }

    /// Decides on the registration of the handler whose code stands at
    /// `handler`.
    ///
    /// The handler must have the signature and the calling convention that
    /// the system calls it with; nothing here can check that.
    pub fn add_raw(handlers: &VectoredHandlers, order: Order, handler: usize) -> (pending: Registration)
        ensures
            pending.request() == registering_call(*handlers, order, handler),
            pending.resolved() == *handlers,
    {
        Registration { call: raw_add(handlers, order, handler), handlers: *handlers }
    }

    /// Decides on the registration of `handler`.
    pub fn add(handlers: &VectoredHandlers, order: Order, handler: Handler) -> (pending: Registration)
        ensures
            pending.request() == registering_call(*handlers, order, handler.entry()),
            pending.resolved() == *handlers,
    {
        Veh::add_raw(handlers, order, handler.address())
    }

    /// What the registering call returned.
    pub fn handle(&self) -> (handle: usize)
        ensures
            handle == self.token(),
    {
        self.handle
    }

    /// Gives the registration up: the call that undoes it, with the very
    /// value that registration returned.
    pub fn release(self) -> (call: RemoveCall)
        ensures
            call == unregistering_call(self.resolved(), self.token()),
    {
        remove_vectored_exception_handler(&self.handlers, self.handle)
    }
}

} // verus!
