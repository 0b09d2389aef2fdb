use veh::address::Address;
use veh::raw::{AddCall, RemoveCall, VectoredHandlers, CONTINUE_HANDLER};
use veh::{raw_add, Handler, Order, Veh};

fn pair() -> VectoredHandlers {
    VectoredHandlers { add: Address::Wide(0x7FFA_1000_2000), remove: Address::Wide(0x7FFA_1000_3000) }
}

#[test]
fn order_first_is_front() {
    assert!(Order::First.first());
}

#[test]
fn order_last_is_back() {
    assert!(!Order::Last.first());
}

#[test]
fn order_variants_differ() {
    assert_ne!(Order::First, Order::Last);
    assert_eq!(Order::First, Order::First);
}

#[test]
fn raw_add_first_sets_the_selector() {
    let call = raw_add(&pair(), Order::First, 0x1234);
    assert_eq!(
        call,
        AddCall {
            function: Address::Wide(0x7FFA_1000_2000),
            first_handler: 1,
            handler: 0x1234,
            handler_type: 0,
        }
    );
}

#[test]
fn raw_add_last_clears_the_selector() {
    let call = raw_add(&pair(), Order::Last, 0x1234);
    assert_eq!(call.first_handler, 0);
    assert_eq!(call.function, Address::Wide(0x7FFA_1000_2000));
    assert_eq!(call.handler, 0x1234);
    assert_eq!(call.handler_type, CONTINUE_HANDLER);
}

#[test]
fn continue_handler_tag_is_zero() {
    assert_eq!(CONTINUE_HANDLER, 0);
}

#[test]
fn handler_address_ignores_the_tag() {
    assert_eq!(Handler::Void(0xABCD).address(), 0xABCD);
    assert_eq!(Handler::Winapi(0xABCD).address(), 0xABCD);
    assert_eq!(Handler::Windows(0xABCD).address(), 0xABCD);
    assert_ne!(Handler::Void(1), Handler::Winapi(1));
}

#[test]
fn add_raw_describes_the_registering_call() {
    let registration = Veh::add_raw(&pair(), Order::First, 0x4000);
    assert_eq!(
        registration.call(),
        AddCall { function: pair().add, first_handler: 1, handler: 0x4000, handler_type: 0 }
    );
}

#[test]
fn add_takes_the_address_of_a_tagged_handler() {
    let registration = Veh::add(&pair(), Order::Last, Handler::Winapi(0x5000));
    assert_eq!(
        registration.call(),
        AddCall { function: pair().add, first_handler: 0, handler: 0x5000, handler_type: 0 }
    );
}

#[test]
fn handle_keeps_what_registration_returned() {
    let veh = Veh::add_raw(&pair(), Order::First, 0x4000).complete(0xDEAD_BEEF);
    assert_eq!(veh.handle(), 0xDEAD_BEEF);
}

#[test]
fn release_hands_back_the_same_token() {
    let veh = Veh::add_raw(&pair(), Order::First, 0x4000).complete(0xDEAD_BEEF);
    let call = veh.release();
    assert_eq!(
        call,
        RemoveCall { function: pair().remove, handle: 0xDEAD_BEEF, handler_type: 0 }
    );
}

#[test]
fn release_uses_the_pair_of_the_registration() {
    let first = VectoredHandlers { add: Address::Narrow(0x10), remove: Address::Narrow(0x20) };
    let veh = Veh::add(&first, Order::Last, Handler::Void(7)).complete(99);
    let call = veh.release();
    assert_eq!(call.function, Address::Narrow(0x20));
    assert_eq!(call.handle, 99);
}

#[test]
fn two_handles_release_their_own_tokens() {
    let a = Veh::add_raw(&pair(), Order::First, 0x4000).complete(1);
    let b = Veh::add_raw(&pair(), Order::Last, 0x5000).complete(2);
    assert_eq!(b.release().handle, 2);
    assert_eq!(a.release().handle, 1);
}

/// The chain of handlers as the registering and unregistering calls change
/// it, kept by hand for the tests: handle and handler, the first to run in
/// front.
struct Chain {
    entries: Vec<(usize, usize)>,
    next_handle: usize,
}

impl Chain {
    fn new() -> Chain {
        Chain { entries: Vec::new(), next_handle: 0x9000 }
    }

    fn add(&mut self, order: Order, handler: usize) -> Veh {
        let registration = Veh::add_raw(&pair(), order, handler);
        let call = registration.call();
        assert_eq!(call.function, pair().add);
        let handle = self.next_handle;
        self.next_handle += 0x10;
        if call.first_handler != 0 {
            self.entries.insert(0, (handle, call.handler));
        } else {
            self.entries.push((handle, call.handler));
        }
        registration.complete(handle)
    }

    fn remove(&mut self, veh: Veh) {
        let call = veh.release();
        assert_eq!(call.function, pair().remove);
        self.entries.retain(|(handle, _)| *handle != call.handle);
    }

    fn handlers(&self) -> Vec<usize> {
        self.entries.iter().map(|(_, handler)| *handler).collect()
    }
}

#[test]
fn first_then_last_runs_in_that_order() {
    let mut chain = Chain::new();
    let _a = chain.add(Order::First, 0xA);
    let _b = chain.add(Order::Last, 0xB);
    assert_eq!(chain.handlers(), vec![0xA, 0xB]);
}

#[test]
fn last_then_first_runs_first_before_last() {
    let mut chain = Chain::new();
    let _b = chain.add(Order::Last, 0xB);
    let _a = chain.add(Order::First, 0xA);
    assert_eq!(chain.handlers(), vec![0xA, 0xB]);
}

#[test]
fn first_goes_in_front_of_what_is_there() {
    let mut chain = Chain::new();
    let _a = chain.add(Order::Last, 0xA);
    let _b = chain.add(Order::Last, 0xB);
    let _c = chain.add(Order::First, 0xC);
    let _d = chain.add(Order::First, 0xD);
    assert_eq!(chain.handlers(), vec![0xD, 0xC, 0xA, 0xB]);
}

#[test]
fn a_released_handler_is_off_the_chain() {
    let mut chain = Chain::new();
    let a = chain.add(Order::First, 0xA);
    let b = chain.add(Order::Last, 0xB);
    let c = chain.add(Order::First, 0xC);
    assert_eq!(chain.handlers(), vec![0xC, 0xA, 0xB]);
    chain.remove(a);
    assert_eq!(chain.handlers(), vec![0xC, 0xB]);
    chain.remove(b);
    assert_eq!(chain.handlers(), vec![0xC]);
    chain.remove(c);
    assert_eq!(chain.handlers(), Vec::<usize>::new());
}

#[test]
fn register_then_release_leaves_the_chain_as_it_was() {
    let mut chain = Chain::new();
    let _a = chain.add(Order::Last, 0xA);
    let _b = chain.add(Order::Last, 0xB);
    let before = chain.handlers();
    let front = chain.add(Order::First, 0xC);
    chain.remove(front);
    assert_eq!(chain.handlers(), before);
    let back = chain.add(Order::Last, 0xD);
    chain.remove(back);
    assert_eq!(chain.handlers(), before);
}
