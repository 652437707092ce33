//! The ledger as a mathematical object: its state, and what each operation
//! makes of a state.

use vstd::prelude::*;
use crate::error::MessagingError;
use crate::message::{MessageView, acknowledge_outcome, read_outcome};
use crate::store::{TTL_EXTEND_TO, TTL_THRESHOLD, extended_lifetime};

verus! {

/// The state of a ledger: how many messages were sent, the records by
/// identifier, and the lifetime that the store has left.
pub struct LedgerState {
    pub count: nat,
    pub records: Map<nat, MessageView>,
    pub lifetime: u32,
}

/// One call on a ledger. `proved` says whether the caller had proved the
/// identity that the call claims.
pub enum Call {
    Send { proved: bool, timestamp: u64, sender: Seq<char>, receiver: Seq<char>, content: Seq<char> },
    Get { proved: bool, msg_id: nat, requester: Seq<char> },
    MarkRead { proved: bool, msg_id: nat, reader: Seq<char> },
    Count,
}

/// What a call answers.
pub enum Answer {
    Sent(Result<nat, MessagingError>),
    Got(Result<MessageView, MessagingError>),
    Marked(Result<(), MessagingError>),
    Counted(nat),
}

impl Call {
    /// Whether this call is a send that is not refused.
    pub open spec fn is_accepted_send(self) -> bool {
        self matches Call::Send { proved, .. } && proved
    }

    /// Whether this call is `reader`, its identity proved, marking the
    /// message `msg_id` as read.
    pub open spec fn is_mark_by(self, msg_id: nat, reader: Seq<char>) -> bool {
        self matches Call::MarkRead { proved, msg_id: marked, reader: by } && proved && marked
            == msg_id && by == reader
    }
}

/// How many of `calls` are sends that are not refused.
pub open spec fn accepted_sends(calls: Seq<Call>) -> nat
    decreases calls.len(),
{
    if calls.len() == 0 {
        0
    } else if calls.last().is_accepted_send() {
        accepted_sends(calls.drop_last()) + 1
    } else {
        accepted_sends(calls.drop_last())
    }
}

impl LedgerState {
    /// The state of a ledger on which nothing has happened.
    pub open spec fn initial() -> LedgerState {
        LedgerState { count: 0, records: Map::empty(), lifetime: 0 }
    }

    /// What holds of every state that a ledger can reach: no identifier is
    /// in use that was not given out, which is to say none but 1 up to the
    /// count, and every record carries the identifier that it is stored
    /// under.
    pub open spec fn wf(self) -> bool {
        forall|msg_id: nat|
            #![trigger self.records.contains_key(msg_id)]
            self.records.contains_key(msg_id) ==> {
                &&& 1 <= msg_id <= self.count
                &&& self.records[msg_id].msg_id == msg_id
            }
    }

    /// Whether the record of every message sent is held: every identifier
    /// from 1 up to the count is in use.
    pub open spec fn complete(self) -> bool {
        forall|msg_id: nat|
            1 <= msg_id <= self.count ==> #[trigger] self.records.contains_key(msg_id)
    }

    /// The record stored under an identifier, if there is one.
    pub open spec fn record(self, msg_id: nat) -> Option<MessageView> {
        if self.records.contains_key(msg_id) {
            Some(self.records[msg_id])
        } else {
            None
        }
    }

    /// The state after `record` was written under `msg_id`: the record is
    /// stored and the lifetime of the store extended.
    pub open spec fn written(self, msg_id: nat, record: MessageView) -> LedgerState {
        LedgerState {
            records: self.records.insert(msg_id, record),
            lifetime: extended_lifetime(self.lifetime, TTL_THRESHOLD, TTL_EXTEND_TO),
            ..self
        }
    }

    /// What a send makes of this state, and what it answers: the identifier
    /// of the new message, one above the count so far, or a refusal where the
    /// sender's identity was not proved.
    pub open spec fn send_message(
        self,
        proved: bool,
        timestamp: u64,
        sender: Seq<char>,
        receiver: Seq<char>,
        content: Seq<char>,
    ) -> (LedgerState, Result<nat, MessagingError>) {
        if !proved {
            (self, Err(MessagingError::AuthenticationFailure))
        } else {
            let msg_id = self.count + 1;
            let record = MessageView::fresh(msg_id, sender, receiver, content, timestamp);
            (LedgerState { count: msg_id, ..self }.written(msg_id, record), Ok(msg_id))
        }
    }

    /// What a read answers in this state; it changes nothing.
    pub open spec fn get_message(self, proved: bool, msg_id: nat, requester: Seq<char>) -> Result<
        MessageView,
        MessagingError,
    > {
        if !proved {
            Err(MessagingError::AuthenticationFailure)
        } else {
            read_outcome(self.record(msg_id), requester)
        }
    }

    /// What marking a record as read makes of this state, and what it
    /// answers. A refusal leaves the state as it was.
    pub open spec fn mark_as_read(self, proved: bool, msg_id: nat, reader: Seq<char>) -> (
        LedgerState,
        Result<(), MessagingError>,
    ) {
        if !proved {
            (self, Err(MessagingError::AuthenticationFailure))
        } else {
            match acknowledge_outcome(self.record(msg_id), reader) {
                Ok(record) => (self.written(msg_id, record), Ok(())),
                Err(error) => (self, Err(error)),
            }
        }
    }

    /// What a call makes of this state, and what it answers.
    pub open spec fn step(self, call: Call) -> (LedgerState, Answer) {
        match call {
            Call::Send { proved, timestamp, sender, receiver, content } => {
                let (next, outcome) = self.send_message(
                    proved,
                    timestamp,
                    sender,
                    receiver,
                    content,
                );
                (next, Answer::Sent(outcome))
            },
            Call::Get { proved, msg_id, requester } => (
                self,
                Answer::Got(self.get_message(proved, msg_id, requester)),
            ),
            Call::MarkRead { proved, msg_id, reader } => {
                let (next, outcome) = self.mark_as_read(proved, msg_id, reader);
                (next, Answer::Marked(outcome))
            },
            Call::Count => (self, Answer::Counted(self.count)),
        }
    }

    /// The state after the calls of `calls`, made in order.
    pub open spec fn run(self, calls: Seq<Call>) -> LedgerState
        decreases calls.len(),
    {
        if calls.len() == 0 {
            self
        } else {
            self.run(calls.drop_last()).step(calls.last()).0
        }
    }

    /// What the call at position `i` of `calls` answers, when the calls are
    /// made in order from this state.
    pub open spec fn answer(self, calls: Seq<Call>, i: int) -> Answer {
        self.run(calls.take(i)).step(calls[i]).1
    }

    /// Whatever a send answers, it leaves a reachable state reachable.
    pub proof fn send_message_keeps_wf(
        self,
        proved: bool,
        timestamp: u64,
        sender: Seq<char>,
        receiver: Seq<char>,
        content: Seq<char>,
    )
        requires
            self.wf(),
        ensures
            self.send_message(proved, timestamp, sender, receiver, content).0.wf(),
    {
    }

    /// Whatever marking a record as read answers, it leaves a reachable state
    /// reachable.
    pub proof fn mark_as_read_keeps_wf(self, proved: bool, msg_id: nat, reader: Seq<char>)
        requires
            self.wf(),
        ensures
            self.mark_as_read(proved, msg_id, reader).0.wf(),
    {
    }

    /// No call loses a record: a state that holds the record of every message
    /// sent still does so after the call.
    pub proof fn step_keeps_complete(self, call: Call)
        requires
            self.complete(),
        ensures
            self.step(call).0.complete(),
    {
    }
}

} // verus!
