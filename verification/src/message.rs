//! Message records, the keys they are stored under, and the rules on who may
//! read a record or mark it read.

use vstd::prelude::*;
use vstd::std_specs::cmp::PartialEqSpecImpl;
use crate::error::MessagingError;
use crate::identity::Address;

verus! {

/// A message record as the contracts see it.
pub struct MessageView {
    pub msg_id: nat,
    pub sender: Seq<char>,
    pub receiver: Seq<char>,
    pub content: Seq<char>,
    pub timestamp: u64,
    pub is_read: bool,
}

impl MessageView {
    /// The record that a send creates: unread, and otherwise as given.
    pub open spec fn fresh(
        msg_id: nat,
        sender: Seq<char>,
        receiver: Seq<char>,
        content: Seq<char>,
        timestamp: u64,
    ) -> MessageView {
        MessageView { msg_id, sender, receiver, content, timestamp, is_read: false }
    }

    /// The record handed to a requester who asked for an identifier under
    /// which nothing is stored.
    pub open spec fn placeholder(requester: Seq<char>) -> MessageView {
        MessageView {
            msg_id: 0,
            sender: requester,
            receiver: requester,
            content: not_found_content(),
            timestamp: 0,
            is_read: false,
        }
    }

    /// Whether `who` is the sender or the receiver of this record.
    pub open spec fn involves(self, who: Seq<char>) -> bool {
        self.sender == who || self.receiver == who
    }

    /// This record, marked as read.
    pub open spec fn read(self) -> MessageView {
        MessageView { is_read: true, ..self }
    }

    /// Whether `later` is this record at a later time: nothing but the read
    /// flag may differ, and a record once read stays read.
    pub open spec fn evolves_to(self, later: MessageView) -> bool {
        &&& later.msg_id == self.msg_id
        &&& later.sender == self.sender
        &&& later.receiver == self.receiver
        &&& later.content == self.content
        &&& later.timestamp == self.timestamp
        &&& self.is_read ==> later.is_read
    }
}

/// The content of the placeholder record.
pub open spec fn not_found_content() -> Seq<char> {
    "Message not found"@
}

/// What a requester gets who asks for the record `found` under some
/// identifier: the record if the requester is a party to it, a placeholder if
/// nothing is stored there, a refusal otherwise.
pub open spec fn read_outcome(found: Option<MessageView>, requester: Seq<char>) -> Result<
    MessageView,
    MessagingError,
> {
    match found {
        None => Ok(MessageView::placeholder(requester)),
        Some(record) => if record.involves(requester) {
            Ok(record)
        } else {
            Err(MessagingError::Unauthorized)
        },
    }
}

/// What becomes of the record `found` when `reader` marks it read: the record
/// with its flag set if `reader` is its receiver, a refusal otherwise.
pub open spec fn acknowledge_outcome(found: Option<MessageView>, reader: Seq<char>) -> Result<
    MessageView,
    MessagingError,
> {
    match found {
        None => Err(MessagingError::NotFound),
        Some(record) => if record.receiver == reader {
            Ok(record.read())
        } else {
            Err(MessagingError::ForbiddenMarkRead)
        },
    }
}

/// A message: who sent what to whom, when, and whether the receiver has read it.
#[derive(Debug)]
pub struct Message {
    pub msg_id: u64,
    pub sender: Address,
    pub receiver: Address,
    pub content: String,
    pub timestamp: u64,
    pub is_read: bool,
}

impl View for Message {
    type V = MessageView;

    open spec fn view(&self) -> MessageView {
        MessageView {
            msg_id: self.msg_id as nat,
            sender: self.sender@,
            receiver: self.receiver@,
            content: self.content@,
            timestamp: self.timestamp,
            is_read: self.is_read,
        }
    }
}

/// The view of a record that may be absent.
pub open spec fn view_of(found: Option<Message>) -> Option<MessageView> {
    match found {
        Some(message) => Some(message@),
        None => None,
    }
}

/// The view of what a decision on a record answers.
pub open spec fn outcome_view(outcome: Result<Message, MessagingError>) -> Result<
    MessageView,
    MessagingError,
> {
    match outcome {
        Ok(message) => Ok(message@),
        Err(error) => Err(error),
    }
}

impl Message {
    /// The unread record of a message sent now.
    pub fn new(
        msg_id: u64,
        sender: Address,
        receiver: Address,
        content: String,
        timestamp: u64,
    ) -> (message: Message)
        ensures
            message@ == MessageView::fresh(
                msg_id as nat,
                sender@,
                receiver@,
                content@,
                timestamp,
            ),
    {
        Message { msg_id, sender, receiver, content, timestamp, is_read: false }
    }

    /// The record handed out in place of one that is not stored.
    pub fn placeholder(requester: &Address) -> (message: Message)
        ensures
            message@ == MessageView::placeholder(requester@),
    {
        Message {
            msg_id: 0,
            sender: requester.clone(),
            receiver: requester.clone(),
            content: "Message not found".to_owned(),
            timestamp: 0,
            is_read: false,
        }
    }

    /// Whether `who` is the sender or the receiver of this message.
    pub fn involves(&self, who: &Address) -> (party: bool)
        ensures
            party == self@.involves(who@),
    {
        self.sender == *who || self.receiver == *who
    }
}

impl Clone for Message {
    fn clone(&self) -> (copy: Message)
        ensures
            copy@ == self@,
    {
        Message {
            msg_id: self.msg_id,
            sender: self.sender.clone(),
            receiver: self.receiver.clone(),
            content: self.content.clone(),
            timestamp: self.timestamp,
            is_read: self.is_read,
        }
    }
}

impl PartialEq for Message {
    fn eq(&self, other: &Message) -> (same: bool) {
        self.msg_id == other.msg_id && self.sender == other.sender && self.receiver
            == other.receiver && self.content == other.content && self.timestamp == other.timestamp
            && self.is_read == other.is_read
    }
}

impl Eq for Message {}

impl PartialEqSpecImpl for Message {
    open spec fn obeys_eq_spec() -> bool {
        true
    }

    open spec fn eq_spec(&self, other: &Message) -> bool {
        self@ == other@
    }
}

/// The key under which a record is stored.
#[derive(Debug, Clone, Copy, PartialEq, Eq, Structural)]
pub enum MessageBook {
    /// The record of the message with this identifier.
    Message(u64),
}

impl MessageBook {
    /// The identifier of the message that this key stands for.
    pub open spec fn id(self) -> nat {
        match self {
            MessageBook::Message(msg_id) => msg_id as nat,
        }
    }

    /// The identifier of the message that this key stands for.
    pub fn msg_id(&self) -> (msg_id: u64)
        ensures
            msg_id == self.id(),
    {
        match self {
            MessageBook::Message(msg_id) => *msg_id,
        }
    }
}

/// Decides a read of the record `found` by `requester`.
///
/// A record that is not there is answered with a placeholder addressed to the
/// requester; a record that is there is handed out to its sender and to its
/// receiver, and to nobody else.
pub fn read_record(found: Option<Message>, requester: &Address) -> (outcome: Result<
    Message,
    MessagingError,
>)
    ensures
        outcome_view(outcome) == read_outcome(view_of(found), requester@),
{
    let message = match found {
        Some(message) => message,
        None => Message::placeholder(requester),
    };
    if !message.involves(requester) {
        return Err(MessagingError::Unauthorized);
    }
    Ok(message)
}

/// Decides the marking of the record `found` as read by `reader`.
///
/// Only the receiver of a record may mark it; a record that is not there
/// cannot be marked. The record handed back is the one to store.
pub fn acknowledge_record(found: Option<Message>, reader: &Address) -> (outcome: Result<
    Message,
    MessagingError,
>)
    ensures
        outcome_view(outcome) == acknowledge_outcome(view_of(found), reader@),
{
    let mut message = match found {
        Some(message) => message,
        None => { return Err(MessagingError::NotFound); },
    };
    if message.receiver != *reader {
        return Err(MessagingError::ForbiddenMarkRead);
    }
    message.is_read = true;
    Ok(message)
}

} // verus!
