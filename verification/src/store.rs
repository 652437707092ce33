//! The store of message records and its durability window.

use std::collections::HashMap;
use vstd::prelude::*;
use crate::message::{Message, MessageBook, MessageView, view_of};

verus! {

broadcast use vstd::std_specs::hash::group_hash_axioms;

/// Below how many units of remaining lifetime a write extends the window.
pub const TTL_THRESHOLD: u32 = 100000;

/// To how many units of remaining lifetime a write extends the window.
pub const TTL_EXTEND_TO: u32 = 100000;

/// The lifetime that remains after an extension is asked for with the given
/// bounds: a lifetime below `threshold` is raised to `extend_to`, and no
/// lifetime is ever shortened.
pub open spec fn extended_lifetime(lifetime: u32, threshold: u32, extend_to: u32) -> u32 {
    if lifetime < threshold && lifetime < extend_to {
        extend_to
    } else {
        lifetime
    }
}

/// The records of all messages, by identifier, and the lifetime that the
/// store has left. The store checks nothing: whoever writes decides what is
/// allowed.
#[derive(Debug)]
pub struct MessageStore {
    records: HashMap<u64, Message>,
    lifetime: u32,
}

impl MessageStore {
    /// The records held, by identifier.
    pub closed spec fn records(&self) -> Map<nat, MessageView> {
        Map::new(
            |msg_id: nat| msg_id <= u64::MAX && self.records@.contains_key(msg_id as u64),
            |msg_id: nat| self.records@[msg_id as u64]@,
        )
    }

    /// The lifetime that the store has left.
    pub closed spec fn lifetime(&self) -> u32 {
        self.lifetime
    }

    /// The record stored under an identifier, if there is one.
    pub open spec fn record(&self, msg_id: nat) -> Option<MessageView> {
        if self.records().contains_key(msg_id) {
            Some(self.records()[msg_id])
        } else {
            None
        }
    }

    /// A store that holds nothing and has no lifetime left.
    pub fn new() -> (store: MessageStore)
        ensures
            store.records() == Map::<nat, MessageView>::empty(),
            store.lifetime() == 0,
    {
        let store = MessageStore { records: HashMap::new(), lifetime: 0 };
        assert(store.records() =~= Map::<nat, MessageView>::empty());
        store
    }

    /// The lifetime that the store has left.
    pub fn ttl(&self) -> (lifetime: u32)
        ensures
            lifetime == self.lifetime(),
    {
        self.lifetime
    }

    /// Stores `message` under `key`, in place of whatever was there.
    pub fn put(&mut self, key: MessageBook, message: Message)
        ensures
            final(self).records() == old(self).records().insert(key.id(), message@),
            final(self).lifetime() == old(self).lifetime(),
    {
        let msg_id = key.msg_id();
        self.records.insert(msg_id, message);
        assert(final(self).records() =~= old(self).records().insert(key.id(), message@));
    }

    /// A copy of the record stored under `key`, if there is one.
    pub fn get(&self, key: MessageBook) -> (found: Option<Message>)
        ensures
            view_of(found) == self.record(key.id()),
    {
        let msg_id = key.msg_id();
        match self.records.get(&msg_id) {
            Some(message) => Some(message.clone()),
            None => None,
        }
    }

    /// Stores under `key` a record that has just been marked read.
    pub fn set_read(&mut self, key: MessageBook, message: Message)
        ensures
            final(self).records() == old(self).records().insert(key.id(), message@),
            final(self).lifetime() == old(self).lifetime(),
    {
        self.put(key, message);
    }

    /// Asks for the lifetime of the store to be extended.
    pub fn extend_ttl(&mut self, threshold: u32, extend_to: u32)
        ensures
            final(self).records() == old(self).records(),
            final(self).lifetime() == extended_lifetime(
                old(self).lifetime(),
                threshold,
                extend_to,
            ),
    {
        if self.lifetime < threshold && self.lifetime < extend_to {
            self.lifetime = extend_to;
        }
    }
}

} // verus!
