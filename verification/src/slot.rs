//! The take-once completion slot.
//!
//! A capture attempt owns a one-shot completion channel; its producer side
//! is kept in a [`CompletionSlot`].  The slot guarantees that the producer
//! handle is taken out at most once: the first taker wins, every later
//! taker observes "already resolved" and performs no action.  Both the
//! token extractor (to resolve) and window destruction (to close the
//! producer side) go through `take`, which is what makes resolution and
//! cancellation race-free and window closing idempotent.

use vstd::prelude::*;

verus! {

/// Holds at most one pending producer handle of the completion channel.
pub struct CompletionSlot {
    armed: bool,
}

impl View for CompletionSlot {
    type V = bool;

    closed spec fn view(&self) -> bool {
        self.armed
    }
}

impl CompletionSlot {
    /// A fresh slot, holding the producer handle.
    pub fn new() -> (r: Self)
        ensures
            r@ == true,
    {
        CompletionSlot { armed: true }
    }

    /// Whether the producer handle is still in the slot.
    pub fn is_armed(&self) -> (r: bool)
        ensures
            r == self@,
    {
        self.armed
    }

    /// Takes the producer handle out.  Returns whether this caller won the
    /// race: exactly the first take over the slot's lifetime returns true,
    /// and the slot is disarmed afterwards in every case.
    pub fn take(&mut self) -> (won: bool)
        ensures
            won == old(self)@,
            final(self)@ == false,
    {
        let won = self.armed;
        self.armed = false;
        won
    }
}

} // verus!
