use vstd::prelude::*;
use std::cell::RefCell;
use std::rc::Rc;

verus! {

/// `std::cell::RefCell`, carried as an opaque value.
#[verifier::external_type_specification]
#[verifier::external_body]
#[verifier::reject_recursive_types(T)]
pub struct ExRefCell<T: ?Sized>(RefCell<T>);

/// Something that is told when an event fires.
pub trait Subscriber<T> {
    #[allow(non_snake_case)]
    fn HandleEvent(&self, param: T);
}

/// An event that subscribers can listen to.
#[verifier::reject_recursive_types(T)]
pub struct Event<T> {
    subscribers: Vec<Rc<RefCell<dyn Subscriber<T>>>>,
}

/// A token that ends a subscription.
pub struct EventToken<T> where T: FnOnce() -> () {
    unsub_function: T,
}

impl<T> Event<T> {
    /// Subscribing is not implemented yet: it takes the event by shared
    /// reference and leaves it as it is.
    pub fn subscribe(&self, subscriber: &dyn Subscriber<T>) {
    }
}

} // verus!
