//! The counter that mints message identifiers.

use vstd::prelude::*;

verus! {

/// How many messages have been sent. The count after a send is the
/// identifier of the message sent, so identifiers start at 1, leave no gap
/// and never repeat.
#[derive(Debug)]
pub struct Counter {
    message_count: u64,
}

impl View for Counter {
    type V = nat;

    closed spec fn view(&self) -> nat {
        self.message_count as nat
    }
}

impl Counter {
    /// The count that a value read back from durable storage stands for: the
    /// value itself, and 0 where none was ever stored.
    pub open spec fn stored_count(stored: Option<u64>) -> nat {
        match stored {
            Some(count) => count as nat,
            None => 0,
        }
    }

    /// A counter that has minted nothing yet.
    pub fn new() -> (counter: Counter)
        ensures
            counter@ == 0,
    {
        Counter { message_count: 0 }
    }

    /// The counter that continues from a stored count; a count that was never
    /// stored is 0.
    pub fn restore(stored: Option<u64>) -> (counter: Counter)
        ensures
            counter@ == Counter::stored_count(stored),
    {
        match stored {
            Some(message_count) => Counter { message_count },
            None => Counter { message_count: 0 },
        }
    }

    /// The number of identifiers minted so far.
    pub fn current(&self) -> (count: u64)
        ensures
            count == self@,
    {
        self.message_count
    }

    /// Whether every identifier has been minted, so that no further one can be.
    pub fn is_exhausted(&self) -> (exhausted: bool)
        ensures
            exhausted == (self@ == u64::MAX),
    {
        self.message_count == u64::MAX
    }

    /// Mints the next identifier: the count goes up by one, and the new count
    /// is the identifier.
    pub fn next_id(&mut self) -> (msg_id: u64)
        requires
            old(self)@ < u64::MAX,
        ensures
            final(self)@ == old(self)@ + 1,
            msg_id == old(self)@ + 1,
    {
        self.message_count = self.message_count + 1;
        self.message_count
    }
}

} // verus!
