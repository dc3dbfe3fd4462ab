//! A flag that is set once and then read by every waiter.
use vstd::prelude::*;

verus! {

/// Unset until the first `set`; later sets change nothing.
pub struct Event {
    state: Option<bool>,
}

impl View for Event {
    type V = Option<bool>;

    closed spec fn view(&self) -> Option<bool> {
        self.state
    }
}

impl Event {
    pub fn new() -> (r: Event)
        ensures
            r@ == None::<bool>,
    {
        Event { state: None }
    }

    /// Sets the value; returns whether this call was the one that set it.
    pub fn set(&mut self, value: bool) -> (r: bool)
        ensures
            r == (old(self)@ is None),
            final(self)@ == if old(self)@ is None { Some(value) } else { old(self)@ },
    {
        match self.state {
            Some(_) => false,
            None => {
                self.state = Some(value);
                true
            },
        }
    }

    /// The value, once set.
    pub fn value(&self) -> (r: Option<bool>)
        ensures
            r == self@,
    {
        self.state
    }
}

} // verus!
