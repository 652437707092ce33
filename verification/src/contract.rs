//! The messaging service: send, read, mark as read, count.

use vstd::prelude::*;
use crate::counter::Counter;
use crate::error::MessagingError;
use crate::identity::{Address, IdentityVerifier};
use crate::ledger::LedgerState;
use crate::message::{Message, MessageBook, acknowledge_record, outcome_view, read_record};
use crate::store::{MessageStore, TTL_EXTEND_TO, TTL_THRESHOLD};

verus! {

/// A message ledger: the counter that mints identifiers, the store of
/// records, and the operations on them.
#[derive(Debug)]
pub struct MessagingContract {
    counter: Counter,
    store: MessageStore,
}

impl View for MessagingContract {
    type V = LedgerState;

    closed spec fn view(&self) -> LedgerState {
        LedgerState {
            count: self.counter@,
            records: self.store.records(),
            lifetime: self.store.lifetime(),
        }
    }
}

/// What a send answers, with the identifier as a number.
pub open spec fn sent_id(outcome: Result<u64, MessagingError>) -> Result<nat, MessagingError> {
    match outcome {
        Ok(msg_id) => Ok(msg_id as nat),
        Err(error) => Err(error),
    }
}

impl MessagingContract {
    /// A ledger on which nothing has happened.
    pub fn new() -> (contract: MessagingContract)
        ensures
            contract@ == LedgerState::initial(),
    {
        MessagingContract { counter: Counter::new(), store: MessageStore::new() }
    }

    /// The ledger that continues with a counter and a store as they are.
    pub fn from_parts(counter: Counter, store: MessageStore) -> (contract: MessagingContract)
        ensures
            contract@ == (LedgerState {
                count: counter@,
                records: store.records(),
                lifetime: store.lifetime(),
            }),
    {
        MessagingContract { counter, store }
    }

    /// The counter of this ledger.
    pub fn counter(&self) -> (counter: &Counter)
        ensures
            counter@ == self@.count,
    {
        &self.counter
    }

    /// The store of this ledger.
    pub fn store(&self) -> (store: &MessageStore)
        ensures
            store.records() == self@.records,
            store.lifetime() == self@.lifetime,
    {
        &self.store
    }

    /// Sends `content` from `sender` to `receiver` at the time `timestamp`,
    /// and returns the identifier of the new message: one above the number of
    /// messages sent before.
    ///
    /// The sender must have proved its identity to `verifier`; if it has not,
    /// the send is refused and nothing changes. A send that is not refused
    /// stores the unread record under the new identifier and extends the
    /// lifetime of the store.
    pub fn send_message(
        &mut self,
        verifier: &IdentityVerifier,
        timestamp: u64,
        sender: Address,
        receiver: Address,
        content: String,
    ) -> (outcome: Result<u64, MessagingError>)
        requires
            verifier.proves(sender@) ==> old(self)@.count < u64::MAX,
        ensures
            (final(self)@, sent_id(outcome)) == old(self)@.send_message(
                verifier.proves(sender@),
                timestamp,
                sender@,
                receiver@,
                content@,
            ),
            old(self)@.wf() ==> final(self)@.wf(),
    {
        match verifier.verify(&sender) {
            Err(error) => { return Err(error); },
            Ok(()) => {},
        }
        let msg_id = self.counter.next_id();
        let message = Message::new(msg_id, sender, receiver, content, timestamp);
        self.store.put(MessageBook::Message(msg_id), message);
        self.store.extend_ttl(TTL_THRESHOLD, TTL_EXTEND_TO);
        proof {
            if old(self)@.wf() {
                old(self)@.send_message_keeps_wf(true, timestamp, sender@, receiver@, content@);
            }
        }
        Ok(msg_id)
    }

    /// Hands the record of the message `msg_id` to `requester`.
    ///
    /// The requester must have proved its identity to `verifier`. Where
    /// nothing is stored under `msg_id`, the answer is a placeholder addressed
    /// to the requester, with the identifier 0; a record that is there goes to
    /// its sender and to its receiver, and anyone else is refused.
    pub fn get_message(
        &self,
        verifier: &IdentityVerifier,
        msg_id: u64,
        requester: Address,
    ) -> (outcome: Result<Message, MessagingError>)
        ensures
            outcome_view(outcome) == self@.get_message(
                verifier.proves(requester@),
                msg_id as nat,
                requester@,
            ),
    {
        match verifier.verify(&requester) {
            Err(error) => { return Err(error); },
            Ok(()) => {},
        }
        let found = self.store.get(MessageBook::Message(msg_id));
        read_record(found, &requester)
    }

    /// Marks the message `msg_id` as read on behalf of `reader`.
    ///
    /// The reader must have proved its identity to `verifier`, a record must
    /// be stored under `msg_id`, and the reader must be its receiver; else the
    /// call is refused and nothing changes. Marking stores the record with
    /// its flag set, whether or not it was set before, and extends the
    /// lifetime of the store.
    pub fn mark_as_read(
        &mut self,
        verifier: &IdentityVerifier,
        msg_id: u64,
        reader: Address,
    ) -> (outcome: Result<(), MessagingError>)
        ensures
            (final(self)@, outcome) == old(self)@.mark_as_read(
                verifier.proves(reader@),
                msg_id as nat,
                reader@,
            ),
            old(self)@.wf() ==> final(self)@.wf(),
    {
        match verifier.verify(&reader) {
            Err(error) => { return Err(error); },
            Ok(()) => {},
        }
        let key = MessageBook::Message(msg_id);
        let found = self.store.get(key);
        let message = match acknowledge_record(found, &reader) {
            Ok(message) => message,
            Err(error) => { return Err(error); },
        };
        self.store.set_read(key, message);
        self.store.extend_ttl(TTL_THRESHOLD, TTL_EXTEND_TO);
        proof {
            if old(self)@.wf() {
                old(self)@.mark_as_read_keeps_wf(true, msg_id as nat, reader@);
            }
        }
        Ok(())
    }

    /// The lifetime that the store of this ledger has left.
    pub fn ttl(&self) -> (lifetime: u32)
        ensures
            lifetime == self@.lifetime,
    {
        self.store.ttl()
    }

    /// The number of messages sent so far.
    pub fn get_message_count(&self) -> (count: u64)
        ensures
            count == self@.count,
    {
        self.counter.current()
    }
}

} // verus!
