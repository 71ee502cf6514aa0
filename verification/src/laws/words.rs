//! The words that the laws share.

use crate::capacity::{CapacityLimit, CapacityUsage};
use crate::error::{Refusal, StoreError};
use crate::mailbox::{DeliveryState, MailboxCounter, MessageSnapshot};
use crate::operation::OperationState;
use crate::time::Timestamp;
use vstd::prelude::*;

verus! {

/// The request is refused, and the ledger keeps the answer.
pub open spec fn refused_for_good<T>(result: Result<T, Refusal>, error: StoreError) -> bool {
    result matches Err(refusal) && refusal.error == error && refusal.recorded
}

/// The request is refused, and nothing is written.
pub open spec fn refused_for_now<T>(result: Result<T, Refusal>, error: StoreError) -> bool {
    result matches Err(refusal) && refusal.error == error && !refusal.recorded
}

/// The operation has ended, in whatever way.
pub open spec fn has_ended(state: OperationState) -> bool {
    state is Succeeded || state is Failed || state is Cancelled || state is Blocked
        || state is Uncertain
}

/// Nothing more will happen to the message.
pub open spec fn is_settled(state: DeliveryState) -> bool {
    state is Accepted || state is Uncertain || state is DeadLetter
}

/// `amount` more stay within the limit of the session and that of the store.
pub open spec fn has_room(usage: CapacityUsage, limit: CapacityLimit, amount: int) -> bool {
    &&& usage.reserved_session >= 0
    &&& usage.reserved_global >= 0
    &&& usage.derived_session + usage.reserved_session + amount <= limit.per_session
    &&& usage.derived_global + usage.reserved_global + amount <= limit.global
}

/// A mailbox that may hold so many bytes and messages takes one more of this size. One that was
/// never used is empty.
pub open spec fn takes(
    counter: Option<MailboxCounter>,
    size: u64,
    bytes: int,
    messages: int,
) -> bool {
    match counter {
        None => size <= bytes && size <= i64::MAX && 1 <= messages,
        Some(counter) => {
            &&& 0 <= counter.next_sequence < i64::MAX
            &&& 0 <= counter.queued_bytes
            &&& counter.queued_bytes + size <= bytes
            &&& counter.queued_bytes + size <= i64::MAX
            &&& 0 <= counter.queued_messages < i64::MAX
            &&& counter.queued_messages + 1 <= messages
        },
    }
}

/// One more message of this size is counted, and it got the next number. Numbers start at one.
pub open spec fn placed_next(
    counter: Option<MailboxCounter>,
    size: u64,
    sequence: u64,
    after: MailboxCounter,
) -> bool {
    match counter {
        None => {
            &&& sequence == 1
            &&& after.next_sequence == 2
            &&& after.queued_bytes == size
            &&& after.queued_messages == 1
        },
        Some(counter) => {
            &&& sequence == counter.next_sequence
            &&& after.next_sequence == counter.next_sequence + 1
            &&& after.queued_bytes == counter.queued_bytes + size
            &&& after.queued_messages == counter.queued_messages + 1
        },
    }
}

/// One message of this size less is counted; the numbers are not given out again.
pub open spec fn taken_out(before: MailboxCounter, size: u64, after: MailboxCounter) -> bool {
    &&& after.next_sequence == before.next_sequence
    &&& after.queued_bytes == before.queued_bytes - size
    &&& after.queued_messages == before.queued_messages - 1
}

/// What a message is, as opposed to how far its delivery is.
pub open spec fn same_message(before: MessageSnapshot, after: MessageSnapshot) -> bool {
    &&& after.session_id == before.session_id
    &&& after.message_id == before.message_id
    &&& after.source == before.source
    &&& after.destination == before.destination
    &&& after.mailbox_sequence == before.mailbox_sequence
    &&& after.priority == before.priority
    &&& after.correlation == before.correlation
    &&& after.envelope == before.envelope
    &&& after.created_at == before.created_at
}

/// A message that was just put into a mailbox.
pub open spec fn just_queued(message: MessageSnapshot, now: Timestamp) -> bool {
    &&& message.attempt_count == 0
    &&& message.state is Queued
    &&& message.revision.0 == 1
    &&& message.created_at == now
    &&& message.updated_at == now
}

/// The later of two times.
pub open spec fn latest(one: Timestamp, other: Timestamp, latest: Timestamp) -> bool {
    &&& latest == one || latest == other
    &&& !latest.spec_before(one)
    &&& !latest.spec_before(other)
}

} // verus!
