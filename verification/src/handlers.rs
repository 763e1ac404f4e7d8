//! Storage for event callbacks: one slot per event, at most one callback in
//! a slot.

use vstd::prelude::*;

verus! {

/// A slot that holds at most one callback. Its view is the callback held.
pub struct Slot<F> {
    handler: Option<F>,
}

impl<F> View for Slot<F> {
    type V = Option<F>;

    closed spec fn view(&self) -> Option<F> {
        self.handler
    }
}

impl<F> Slot<F> {
    /// An empty slot.
    pub fn new() -> (slot: Self)
        ensures
            slot@ is None,
    {
        Slot { handler: None }
    }

    /// Puts `f` in the slot. A callback that was there is dropped: the last
    /// registration wins.
    pub fn register(&mut self, f: F)
        ensures
            final(self)@ == Some(f),
    {
        self.handler = Some(f);
    }

    /// Removes the callback from the slot and returns it. On an empty slot
    /// this returns `None` and changes nothing.
    pub fn take(&mut self) -> (f: Option<F>)
        ensures
            f == old(self)@,
            final(self)@ is None,
    {
        self.handler.take()
    }

    /// Puts back a callback that was taken out to be run. If another was
    /// registered in the meantime, that one stays and `f` is dropped.
    pub fn restore(&mut self, f: F)
        ensures
            old(self)@ is Some ==> final(self)@ == old(self)@,
            old(self)@ is None ==> final(self)@ == Some(f),
    {
        if self.handler.is_none() {
            self.handler = Some(f);
        }
    }

    /// Whether a callback is held.
    pub fn is_registered(&self) -> (b: bool)
        ensures
            b == (self@ is Some),
    {
        self.handler.is_some()
    }
}

} // verus!
