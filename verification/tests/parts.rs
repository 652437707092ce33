use message_ledger::message::{acknowledge_record, read_record};
use message_ledger::store::{TTL_EXTEND_TO, TTL_THRESHOLD};
use message_ledger::{
    Address, Counter, IdentityVerifier, Message, MessageBook, MessageStore, MessagingError,
};

fn sample(msg_id: u64, sender: &str, receiver: &str, content: &str) -> Message {
    Message::new(
        msg_id,
        Address::new(sender),
        Address::new(receiver),
        content.to_string(),
        1_000 + msg_id,
    )
}

#[test]
fn address_is_its_key() {
    let a = Address::new("GALICE");
    assert_eq!(a.as_str(), "GALICE");
    assert_eq!(a, Address::new("GALICE"));
    assert_ne!(a, Address::new("GALICF"));
    assert_ne!(a, Address::new("galice"));
    assert_ne!(a, Address::new(""));
    let copy = a.clone();
    assert_eq!(copy, a);
    assert_eq!(copy.as_str(), "GALICE");
}

#[test]
fn verifier_accepts_what_was_approved_and_nothing_else() {
    let a = Address::new("GALICE");
    let b = Address::new("GBOB");
    let mut verifier = IdentityVerifier::new();
    assert_eq!(verifier.verify(&a), Err(MessagingError::AuthenticationFailure));
    assert_eq!(verifier.verify(&b), Err(MessagingError::AuthenticationFailure));

    verifier.approve(a.clone());
    assert_eq!(verifier.verify(&a), Ok(()));
    assert_eq!(verifier.verify(&Address::new("GALICE")), Ok(()));
    assert_eq!(verifier.verify(&b), Err(MessagingError::AuthenticationFailure));

    verifier.approve(b.clone());
    verifier.approve(a.clone());
    assert_eq!(verifier.verify(&a), Ok(()));
    assert_eq!(verifier.verify(&b), Ok(()));
    assert_eq!(
        verifier.verify(&Address::new("GCAROL")),
        Err(MessagingError::AuthenticationFailure)
    );
}

#[test]
fn refusals_describe_themselves() {
    assert_eq!(MessagingError::AuthenticationFailure.message(), "Authentication failed");
    assert_eq!(MessagingError::Unauthorized.message(), "Unauthorized access to message");
    assert_eq!(
        MessagingError::ForbiddenMarkRead.message(),
        "Only the receiver can mark message as read"
    );
    assert_eq!(MessagingError::NotFound.message(), "Message not found");
}

#[test]
fn new_message_is_unread() {
    let message = sample(3, "GALICE", "GBOB", "hello");
    assert_eq!(message.msg_id, 3);
    assert_eq!(message.sender, Address::new("GALICE"));
    assert_eq!(message.receiver, Address::new("GBOB"));
    assert_eq!(message.content, "hello");
    assert_eq!(message.timestamp, 1_003);
    assert!(!message.is_read);
}

#[test]
fn placeholder_is_addressed_to_the_requester() {
    let requester = Address::new("GCAROL");
    let placeholder = Message::placeholder(&requester);
    assert_eq!(placeholder.msg_id, 0);
    assert_eq!(placeholder.sender, requester);
    assert_eq!(placeholder.receiver, requester);
    assert_eq!(placeholder.content, "Message not found");
    assert_eq!(placeholder.timestamp, 0);
    assert!(!placeholder.is_read);
}

#[test]
fn message_involves_its_two_parties() {
    let message = sample(1, "GALICE", "GBOB", "hello");
    assert!(message.involves(&Address::new("GALICE")));
    assert!(message.involves(&Address::new("GBOB")));
    assert!(!message.involves(&Address::new("GCAROL")));
}

#[test]
fn messages_are_equal_when_every_field_is() {
    let message = sample(1, "GALICE", "GBOB", "hello");
    assert_eq!(message.clone(), message);
    assert_ne!(sample(2, "GALICE", "GBOB", "hello"), message);
    assert_ne!(sample(1, "GBOB", "GBOB", "hello"), message);
    assert_ne!(sample(1, "GALICE", "GALICE", "hello"), message);
    assert_ne!(sample(1, "GALICE", "GBOB", "hello!"), message);
    let mut later = message.clone();
    later.timestamp += 1;
    assert_ne!(later, message);
    let mut read = message.clone();
    read.is_read = true;
    assert_ne!(read, message);
}

#[test]
fn key_names_its_message() {
    assert_eq!(MessageBook::Message(7).msg_id(), 7);
    assert_eq!(MessageBook::Message(0).msg_id(), 0);
    assert_eq!(MessageBook::Message(u64::MAX).msg_id(), u64::MAX);
    assert_eq!(MessageBook::Message(7), MessageBook::Message(7));
    assert_ne!(MessageBook::Message(7), MessageBook::Message(8));
}

#[test]
fn read_of_a_missing_record_is_a_placeholder() {
    let requester = Address::new("GCAROL");
    assert_eq!(read_record(None, &requester), Ok(Message::placeholder(&requester)));
}

#[test]
fn read_goes_to_the_parties_only() {
    let message = sample(4, "GALICE", "GBOB", "hello");
    assert_eq!(
        read_record(Some(message.clone()), &Address::new("GALICE")),
        Ok(message.clone())
    );
    assert_eq!(read_record(Some(message.clone()), &Address::new("GBOB")), Ok(message.clone()));
    assert_eq!(
        read_record(Some(message), &Address::new("GCAROL")),
        Err(MessagingError::Unauthorized)
    );
}

#[test]
fn acknowledging_sets_the_flag_for_the_receiver_only() {
    let message = sample(4, "GALICE", "GBOB", "hello");
    let mut marked = message.clone();
    marked.is_read = true;

    assert_eq!(acknowledge_record(Some(message.clone()), &Address::new("GBOB")), Ok(marked.clone()));
    assert_eq!(acknowledge_record(Some(marked.clone()), &Address::new("GBOB")), Ok(marked));
    assert_eq!(
        acknowledge_record(Some(message.clone()), &Address::new("GALICE")),
        Err(MessagingError::ForbiddenMarkRead)
    );
    assert_eq!(
        acknowledge_record(Some(message), &Address::new("GCAROL")),
        Err(MessagingError::ForbiddenMarkRead)
    );
    assert_eq!(acknowledge_record(None, &Address::new("GBOB")), Err(MessagingError::NotFound));
}

#[test]
fn counter_starts_at_zero_and_counts_up() {
    let mut counter = Counter::new();
    assert_eq!(counter.current(), 0);
    assert!(!counter.is_exhausted());
    assert_eq!(counter.next_id(), 1);
    assert_eq!(counter.next_id(), 2);
    assert_eq!(counter.next_id(), 3);
    assert_eq!(counter.current(), 3);
}

#[test]
fn counter_continues_from_a_stored_count() {
    assert_eq!(Counter::restore(None).current(), 0);
    assert_eq!(Counter::restore(Some(0)).current(), 0);
    let mut counter = Counter::restore(Some(41));
    assert_eq!(counter.current(), 41);
    assert_eq!(counter.next_id(), 42);
    assert_eq!(counter.current(), 42);
}

#[test]
fn counter_is_exhausted_at_the_largest_count() {
    let mut counter = Counter::restore(Some(u64::MAX - 1));
    assert!(!counter.is_exhausted());
    assert_eq!(counter.next_id(), u64::MAX);
    assert!(counter.is_exhausted());
    assert_eq!(counter.current(), u64::MAX);
}

#[test]
fn store_returns_what_was_put() {
    let mut store = MessageStore::new();
    assert_eq!(store.get(MessageBook::Message(1)), None);

    let first = sample(1, "GALICE", "GBOB", "one");
    let second = sample(2, "GBOB", "GALICE", "two");
    store.put(MessageBook::Message(1), first.clone());
    store.put(MessageBook::Message(2), second.clone());
    assert_eq!(store.get(MessageBook::Message(1)), Some(first));
    assert_eq!(store.get(MessageBook::Message(2)), Some(second));
    assert_eq!(store.get(MessageBook::Message(3)), None);
    assert_eq!(store.get(MessageBook::Message(0)), None);
}

#[test]
fn store_overwrites_without_asking() {
    let mut store = MessageStore::new();
    let first = sample(1, "GALICE", "GBOB", "one");
    let other = sample(9, "GCAROL", "GCAROL", "other");
    store.put(MessageBook::Message(1), first);
    store.put(MessageBook::Message(1), other.clone());
    assert_eq!(store.get(MessageBook::Message(1)), Some(other));

    let mut marked = sample(1, "GALICE", "GBOB", "one");
    marked.is_read = true;
    store.set_read(MessageBook::Message(1), marked.clone());
    assert_eq!(store.get(MessageBook::Message(1)), Some(marked));
}

#[test]
fn writes_to_the_store_leave_its_lifetime_alone() {
    let mut store = MessageStore::new();
    assert_eq!(store.ttl(), 0);
    store.put(MessageBook::Message(1), sample(1, "GALICE", "GBOB", "one"));
    assert_eq!(store.ttl(), 0);
    store.extend_ttl(10, 20);
    store.set_read(MessageBook::Message(1), sample(1, "GALICE", "GBOB", "one"));
    assert_eq!(store.ttl(), 20);
}

#[test]
fn lifetime_is_raised_only_from_below_the_threshold() {
    assert_eq!(TTL_THRESHOLD, 100000);
    assert_eq!(TTL_EXTEND_TO, 100000);

    let mut store = MessageStore::new();
    store.extend_ttl(TTL_THRESHOLD, TTL_EXTEND_TO);
    assert_eq!(store.ttl(), 100000);
    store.extend_ttl(TTL_THRESHOLD, TTL_EXTEND_TO);
    assert_eq!(store.ttl(), 100000);

    store.extend_ttl(100000, 250000);
    assert_eq!(store.ttl(), 100000);
    store.extend_ttl(100001, 250000);
    assert_eq!(store.ttl(), 250000);
    store.extend_ttl(300000, 200000);
    assert_eq!(store.ttl(), 250000);
    store.extend_ttl(0, u32::MAX);
    assert_eq!(store.ttl(), 250000);
    store.extend_ttl(u32::MAX, u32::MAX);
    assert_eq!(store.ttl(), u32::MAX);

    let mut kept = MessageStore::new();
    kept.put(MessageBook::Message(1), sample(1, "GALICE", "GBOB", "one"));
    kept.extend_ttl(5, 50);
    assert_eq!(kept.ttl(), 50);
    assert_eq!(kept.get(MessageBook::Message(1)), Some(sample(1, "GALICE", "GBOB", "one")));
}
