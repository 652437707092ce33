//! What holds of every ledger, whatever calls are made on it.

use vstd::prelude::*;
use crate::error::MessagingError;
use crate::ledger::{Answer, Call, LedgerState, accepted_sends};
use crate::message::MessageView;

verus! {

/// Every state that calls lead to from a reachable state is reachable.
pub proof fn run_keeps_wf(start: LedgerState, calls: Seq<Call>)
    requires
        start.wf(),
    ensures
        start.run(calls).wf(),
    decreases calls.len(),
{
    if calls.len() > 0 {
        run_keeps_wf(start, calls.drop_last());
        let before = start.run(calls.drop_last());
        match calls.last() {
            Call::Send { proved, timestamp, sender, receiver, content } => {
                before.send_message_keeps_wf(proved, timestamp, sender, receiver, content);
            },
            Call::MarkRead { proved, msg_id, reader } => {
                before.mark_as_read_keeps_wf(proved, msg_id, reader);
            },
            _ => {},
        }
    }
}

/// A ledger that holds the record of every message sent goes on doing so,
/// whatever calls are made.
pub proof fn run_keeps_complete(start: LedgerState, calls: Seq<Call>)
    requires
        start.complete(),
    ensures
        start.run(calls).complete(),
    decreases calls.len(),
{
    if calls.len() > 0 {
        run_keeps_complete(start, calls.drop_last());
        start.run(calls.drop_last()).step_keeps_complete(calls.last());
    }
}

/// On a ledger grown from a new one the identifiers in use are exactly 1 up
/// to the count, and each record carries its own.
pub proof fn new_ledger_uses_every_identifier(calls: Seq<Call>, msg_id: nat)
    ensures
        ({
            let state = LedgerState::initial().run(calls);
            &&& state.wf()
            &&& state.complete()
            &&& state.records.contains_key(msg_id) <==> 1 <= msg_id <= state.count
            &&& state.records.contains_key(msg_id) ==> state.records[msg_id].msg_id == msg_id
        }),
{
    run_keeps_wf(LedgerState::initial(), calls);
    run_keeps_complete(LedgerState::initial(), calls);
}

/// The count grows by one with every send that is not refused, and with
/// nothing else: after any calls it is the count before them plus the number
/// of such sends among them.
pub proof fn count_is_number_of_sends(start: LedgerState, calls: Seq<Call>)
    ensures
        start.run(calls).count == start.count + accepted_sends(calls),
    decreases calls.len(),
{
    if calls.len() > 0 {
        count_is_number_of_sends(start, calls.drop_last());
    }
}

/// On a new ledger, the count after any calls is the number of sends among
/// them that were not refused.
pub proof fn count_on_new_ledger(calls: Seq<Call>)
    ensures
        LedgerState::initial().run(calls).count == accepted_sends(calls),
{
    count_is_number_of_sends(LedgerState::initial(), calls);
}

/// A send that is not refused answers the identifier that follows the last
/// one given out: the count at the start, plus the number of sends accepted
/// before it, plus one.
pub proof fn identifiers_are_consecutive(start: LedgerState, calls: Seq<Call>, i: int)
    requires
        0 <= i < calls.len(),
        calls[i].is_accepted_send(),
    ensures
        start.answer(calls, i) == Answer::Sent(
            Ok(start.count + accepted_sends(calls.take(i)) + 1),
        ),
{
    count_is_number_of_sends(start, calls.take(i));
}

/// On a new ledger the sends that are not refused are answered 1, 2, 3, …
/// in the order in which they are made: the send before which `k` others were
/// accepted gets the identifier `k + 1`.
pub proof fn identifiers_on_new_ledger(calls: Seq<Call>, i: int)
    requires
        0 <= i < calls.len(),
        calls[i].is_accepted_send(),
    ensures
        LedgerState::initial().answer(calls, i) == Answer::Sent(
            Ok(accepted_sends(calls.take(i)) + 1),
        ),
{
    identifiers_are_consecutive(LedgerState::initial(), calls, i);
}

/// Of two sends that are not refused, the later one gets the larger
/// identifier: no identifier is given out twice.
pub proof fn identifiers_never_repeat(start: LedgerState, calls: Seq<Call>, i: int, j: int)
    requires
        0 <= i < j < calls.len(),
        calls[i].is_accepted_send(),
        calls[j].is_accepted_send(),
    ensures
        start.answer(calls, i) matches Answer::Sent(Ok(first))
            && start.answer(calls, j) matches Answer::Sent(Ok(second))
            && first < second,
{
    identifiers_are_consecutive(start, calls, i);
    identifiers_are_consecutive(start, calls, j);
    accepted_sends_grow(calls.take(j), i);
    assert(calls.take(j).take(i) == calls.take(i));
    assert(calls.take(j)[i] == calls[i]);
}

/// A send accepted at position `i` is counted among the accepted sends, on
/// top of those before it.
proof fn accepted_sends_grow(calls: Seq<Call>, i: int)
    requires
        0 <= i < calls.len(),
        calls[i].is_accepted_send(),
    ensures
        accepted_sends(calls.take(i)) < accepted_sends(calls),
    decreases calls.len(),
{
    if i == calls.len() - 1 {
        assert(calls.take(i) == calls.drop_last());
    } else {
        accepted_sends_grow(calls.drop_last(), i);
        assert(calls.drop_last().take(i) == calls.take(i));
    }
}

/// Right after a message is sent, its sender and its receiver each read it
/// back as it was sent, under the identifier that the send answered, and
/// unread.
pub proof fn sent_message_reads_back(
    before: LedgerState,
    timestamp: u64,
    sender: Seq<char>,
    receiver: Seq<char>,
    content: Seq<char>,
)
    ensures
        ({
            let (after, outcome) = before.send_message(true, timestamp, sender, receiver, content);
            let sent = MessageView {
                msg_id: before.count + 1,
                sender,
                receiver,
                content,
                timestamp,
                is_read: false,
            };
            &&& outcome == Ok::<nat, MessagingError>(sent.msg_id)
            &&& after.get_message(true, sent.msg_id, sender) == Ok::<MessageView, MessagingError>(
                sent,
            )
            &&& after.get_message(true, sent.msg_id, receiver) == Ok::<MessageView, MessagingError>(
                sent,
            )
        }),
{
}

/// A record never goes away and never changes but for its read flag, which
/// is only ever set: whatever calls are made, the record under an identifier
/// in use is still there, with the same identifier, parties, content and
/// time.
pub proof fn records_only_evolve(start: LedgerState, calls: Seq<Call>, msg_id: nat)
    requires
        start.wf(),
        start.records.contains_key(msg_id),
    ensures
        start.run(calls).records.contains_key(msg_id),
        start.records[msg_id].evolves_to(start.run(calls).records[msg_id]),
    decreases calls.len(),
{
    if calls.len() > 0 {
        records_only_evolve(start, calls.drop_last(), msg_id);
        run_keeps_wf(start, calls.drop_last());
    }
}

/// A record stays exactly as it is, unread if it was unread, until its
/// receiver marks it: no other call touches it.
pub proof fn unmarked_record_is_unchanged(start: LedgerState, calls: Seq<Call>, msg_id: nat)
    requires
        start.wf(),
        start.records.contains_key(msg_id),
        forall|i: int|
            0 <= i < calls.len() ==> !(#[trigger] calls[i]).is_mark_by(
                msg_id,
                start.records[msg_id].receiver,
            ),
    ensures
        start.run(calls).record(msg_id) == Some(start.records[msg_id]),
    decreases calls.len(),
{
    if calls.len() > 0 {
        unmarked_record_is_unchanged(start, calls.drop_last(), msg_id);
        run_keeps_wf(start, calls.drop_last());
        assert(!calls[calls.len() - 1].is_mark_by(msg_id, start.records[msg_id].receiver));
    }
}

/// A message reads back as it was sent, and unread, for as long as its
/// receiver has not marked it, whatever else is called in between.
pub proof fn sent_message_stays_as_sent(
    before: LedgerState,
    timestamp: u64,
    sender: Seq<char>,
    receiver: Seq<char>,
    content: Seq<char>,
    calls: Seq<Call>,
)
    requires
        before.wf(),
        forall|i: int|
            0 <= i < calls.len() ==> !(#[trigger] calls[i]).is_mark_by(before.count + 1, receiver),
    ensures
        ({
            let sent = MessageView::fresh(before.count + 1, sender, receiver, content, timestamp);
            let later = before.send_message(true, timestamp, sender, receiver, content).0.run(
                calls,
            );
            &&& !sent.is_read
            &&& later.get_message(true, sent.msg_id, sender) == Ok::<MessageView, MessagingError>(
                sent,
            )
            &&& later.get_message(true, sent.msg_id, receiver) == Ok::<MessageView, MessagingError>(
                sent,
            )
        }),
{
    let after = before.send_message(true, timestamp, sender, receiver, content).0;
    before.send_message_keeps_wf(true, timestamp, sender, receiver, content);
    unmarked_record_is_unchanged(after, calls, before.count + 1);
}

/// A message that its receiver has marked stays read: whatever is called
/// afterwards, sender and receiver read it back with the flag set and nothing
/// else changed.
pub proof fn marked_message_stays_read(state: LedgerState, msg_id: nat, calls: Seq<Call>)
    requires
        state.wf(),
        state.records.contains_key(msg_id),
    ensures
        ({
            let record = state.records[msg_id];
            let later = state.mark_as_read(true, msg_id, record.receiver).0.run(calls);
            &&& later.get_message(true, msg_id, record.sender) == Ok::<
                MessageView,
                MessagingError,
            >(record.read())
            &&& later.get_message(true, msg_id, record.receiver) == Ok::<
                MessageView,
                MessagingError,
            >(record.read())
        }),
{
    let record = state.records[msg_id];
    let after = state.mark_as_read(true, msg_id, record.receiver).0;
    state.mark_as_read_keeps_wf(true, msg_id, record.receiver);
    records_only_evolve(after, calls, msg_id);
}

/// Reading an identifier that no send has given out is answered with the
/// placeholder, not refused.
pub proof fn unsent_message_reads_as_placeholder(
    state: LedgerState,
    msg_id: nat,
    requester: Seq<char>,
)
    requires
        state.wf(),
        msg_id == 0 || msg_id > state.count,
    ensures
        state.get_message(true, msg_id, requester) == Ok::<MessageView, MessagingError>(
            MessageView::placeholder(requester),
        ),
        MessageView::placeholder(requester).msg_id == 0,
        MessageView::placeholder(requester).content == "Message not found"@,
{
}

/// A record is read by its sender and by its receiver, and by nobody else:
/// anyone else who asks for it is refused.
pub proof fn only_parties_read(state: LedgerState, msg_id: nat, requester: Seq<char>)
    requires
        state.wf(),
        state.records.contains_key(msg_id),
    ensures
        state.records[msg_id].msg_id == msg_id,
        state.records[msg_id].involves(requester) ==> state.get_message(true, msg_id, requester)
            == Ok::<MessageView, MessagingError>(state.records[msg_id]),
        !state.records[msg_id].involves(requester) ==> state.get_message(
            true,
            msg_id,
            requester,
        ) == Err::<MessageView, MessagingError>(MessagingError::Unauthorized),
{
}

/// When the receiver marks a record as read, the call is accepted and the
/// record is read from then on: sender and receiver both read it back with
/// the flag set and nothing else changed.
pub proof fn receiver_marks_as_read(state: LedgerState, msg_id: nat)
    requires
        state.records.contains_key(msg_id),
    ensures
        ({
            let record = state.records[msg_id];
            let (after, outcome) = state.mark_as_read(true, msg_id, record.receiver);
            &&& outcome == Ok::<(), MessagingError>(())
            &&& record.read().is_read
            &&& record.evolves_to(record.read())
            &&& after.get_message(true, msg_id, record.sender) == Ok::<
                MessageView,
                MessagingError,
            >(record.read())
            &&& after.get_message(true, msg_id, record.receiver) == Ok::<
                MessageView,
                MessagingError,
            >(record.read())
        }),
{
}

/// Nobody but the receiver marks a record as read: the call of anyone else,
/// the sender included, is refused, and the ledger stays as it was.
pub proof fn only_receiver_marks_as_read(state: LedgerState, msg_id: nat, reader: Seq<char>)
    requires
        state.records.contains_key(msg_id),
        reader != state.records[msg_id].receiver,
    ensures
        state.mark_as_read(true, msg_id, reader) == (
            state,
            Err::<(), MessagingError>(MessagingError::ForbiddenMarkRead),
        ),
{
}

/// Marking an identifier that no send has given out is refused as not
/// found, where reading it is answered with a placeholder.
pub proof fn unsent_message_cannot_be_marked(state: LedgerState, msg_id: nat, reader: Seq<char>)
    requires
        state.wf(),
        msg_id == 0 || msg_id > state.count,
    ensures
        state.mark_as_read(true, msg_id, reader) == (
            state,
            Err::<(), MessagingError>(MessagingError::NotFound),
        ),
        state.get_message(true, msg_id, reader) is Ok,
{
}

/// Marking again changes nothing: a second marking by the same reader is
/// answered as the first was and leaves the ledger as the first left it.
pub proof fn marking_twice_is_marking_once(state: LedgerState, msg_id: nat, reader: Seq<char>)
    ensures
        ({
            let once = state.mark_as_read(true, msg_id, reader);
            let twice = once.0.mark_as_read(true, msg_id, reader);
            twice == once
        }),
{
    let once = state.mark_as_read(true, msg_id, reader);
    if once.1 is Ok {
        assert(once.0.records =~= once.0.written(msg_id, state.records[msg_id].read()).records);
    }
}

/// A call that is refused changes nothing: whichever call is answered with
/// an error leaves the ledger in the state in which it found it.
pub proof fn refused_call_changes_nothing(state: LedgerState, call: Call)
    ensures
        ({
            let (after, answer) = state.step(call);
            let refused = match answer {
                Answer::Sent(outcome) => outcome is Err,
                Answer::Got(outcome) => outcome is Err,
                Answer::Marked(outcome) => outcome is Err,
                Answer::Counted(_) => false,
            };
            refused ==> after == state
        }),
{
}

/// A caller that has not proved the identity it claims is refused, whatever
/// it asks for, and the ledger stays as it was.
pub proof fn unproved_identity_is_refused(
    state: LedgerState,
    timestamp: u64,
    msg_id: nat,
    claimed: Seq<char>,
    other: Seq<char>,
    content: Seq<char>,
)
    ensures
        state.send_message(false, timestamp, claimed, other, content) == (
            state,
            Err::<nat, MessagingError>(MessagingError::AuthenticationFailure),
        ),
        state.get_message(false, msg_id, claimed) == Err::<MessageView, MessagingError>(
            MessagingError::AuthenticationFailure,
        ),
        state.mark_as_read(false, msg_id, claimed) == (
            state,
            Err::<(), MessagingError>(MessagingError::AuthenticationFailure),
        ),
{
}

} // verus!
