//! Event descriptors and the registry that hands out their poll tokens.

use vstd::prelude::*;

verus! {

/// What a poll token stands for.
#[derive(Debug)]
pub enum Event<T> {
    /// The shutdown signal.
    Close,
    /// The socket with this slot id is readable.
    Socket(usize),
    /// An outside source of the application is ready; the value is the
    /// application's.
    External(T),
}

/// The event descriptors of a runner. A descriptor's poll token is its
/// position: descriptors are never removed, so a token names the same
/// descriptor for as long as the registry lives.
pub struct Registry<T> {
    events: Vec<Event<T>>,
}

impl<T> View for Registry<T> {
    type V = Seq<Event<T>>;

    /// The descriptors, by token.
    closed spec fn view(&self) -> Seq<Event<T>> {
        self.events@
    }
}

impl<T> Registry<T> {
    /// A registry without descriptors.
    pub fn new() -> (registry: Registry<T>)
        ensures
            registry@.len() == 0,
    {
        Registry { events: Vec::new() }
    }

    /// Adds a descriptor and returns its token.
    pub(crate) fn register(&mut self, event: Event<T>) -> (token: usize)
        ensures
            token == old(self)@.len(),
            final(self)@ == old(self)@.push(event),
    {
        let token = self.events.len();
        self.events.push(event);
        token
    }

    /// Adds a descriptor for an outside source of the application, carrying
    /// `value`, and returns the token under which the source is to be polled.
    pub fn register_external(&mut self, value: T) -> (token: usize)
        ensures
            token == old(self)@.len(),
            final(self)@ == old(self)@.push(Event::External(value)),
    {
        self.register(Event::External(value))
    }

    /// The descriptor that a token stands for.
    pub fn get(&self, token: usize) -> (event: Option<&Event<T>>)
        ensures
            event == (if token < self@.len() {
                Some(&self@[token as int])
            } else {
                None
            }),
    {
        if token < self.events.len() {
            Some(&self.events[token])
        } else {
            None
        }
    }

    /// Number of descriptors.
    pub fn len(&self) -> (n: usize)
        ensures
            n == self@.len(),
    {
        self.events.len()
    }
}

} // verus!
