//! Mailboxes: who may put what into whose mailbox, what is delivered next, and what becomes of it.

use crate::error::{Refusal, StoreError};
use crate::laws::words::{
    has_ended, has_room, is_settled, just_queued, latest, placed_next, refused_for_good,
    refused_for_now, same_message, taken_out, takes,
};
use crate::mailbox::{
    decode_message_row, decrement_mailbox_bytes, due_operation, enqueue_message,
    delivering, first_wanted_is_first, in_delivery, lease_next_message, mailbox_after,
    queue_counters, selection, wanted, Sought, resume_on_feedback, retire_correlated_messages,
    retire_message, take_room, transition_message_delivery, ControlKind, DeliveryFacts,
    DeliveryLease, DeliveryPlan, DeliveryReason, DeliveryState, DeliveryTransition, EnqueueFacts, EnqueueMessage,
    LeaseNextMessage, LeasePlan, MailboxCounter, MessageBody, MessageColumns, MessagePlan,
    MessagePriority, MessageSnapshot, StoreLimits, TransitionMessageDelivery,
};
use crate::operation::{OperationSnapshot, OperationState};
use crate::ids::SessionId;
use crate::time::{bounded_lease_end, lease_lasts_its_duration, on_calendar, Timestamp};
use vstd::prelude::*;

verus! {

/// A mailbox takes a message exactly as long as bytes and messages stay within the quota, to
/// which outcomes may add what is reserved for them. The message gets the next number.
pub proof fn mailboxes_fill_up_to_their_quota(
    counter: Option<MailboxCounter>,
    size: u64,
    outcome: bool,
    limits: StoreLimits,
    result: Result<(u64, MailboxCounter), Refusal>,
)
    requires
        call_ensures(queue_counters, (counter, size, outcome, limits), result),
    ensures
        !outcome ==> (result is Ok <==> takes(
            counter,
            size,
            limits.mailbox_queued_bytes as int,
            limits.mailbox_queued_messages as int,
        )),
        outcome ==> (result is Ok <==> takes(
            counter,
            size,
            limits.mailbox_queued_bytes + limits.mailbox_reserved_outcome_bytes,
            limits.mailbox_queued_messages + limits.mailbox_reserved_outcomes,
        )),
        result matches Ok((sequence, after)) ==> placed_next(counter, size, sequence, after),
{
}

/// A full mailbox is an answer that the ledger keeps; a count below zero is corruption, and
/// nothing is written.
pub proof fn full_mailboxes_are_told_from_broken_ones(
    counter: MailboxCounter,
    size: u64,
    limits: StoreLimits,
    result: Result<(u64, MailboxCounter), Refusal>,
)
    requires
        call_ensures(queue_counters, (Some(counter), size, false, limits), result),
    ensures
        counter.queued_bytes < 0 ==> refused_for_now(result, StoreError::Corrupt),
        counter.queued_bytes >= 0 && counter.queued_messages >= 0 && counter.queued_bytes + size
            <= u64::MAX && (counter.queued_bytes + size > limits.mailbox_queued_bytes
            || counter.queued_messages + 1 > limits.mailbox_queued_messages) ==> refused_for_good(
            result,
            StoreError::MailboxQuotaExceeded,
        ),
        counter.queued_bytes >= 0 && counter.queued_bytes + size > u64::MAX ==> refused_for_now(
            result,
            StoreError::MailboxQuotaExceeded,
        ),
{
}

/// The input of an operation goes into the mailbox under the same quota, without the reserve for
/// outcomes.
pub proof fn inputs_fill_mailboxes_alike(
    counter: Option<MailboxCounter>,
    size: u64,
    limits: StoreLimits,
    result: Result<(u64, MailboxCounter), StoreError>,
)
    requires
        call_ensures(take_room, (counter, size, limits), result),
    ensures
        result is Ok <==> takes(
            counter,
            size,
            limits.mailbox_queued_bytes as int,
            limits.mailbox_queued_messages as int,
        ),
        result matches Ok((sequence, after)) ==> placed_next(counter, size, sequence, after),
        counter matches Some(held) ==> {
            &&& held.queued_bytes < 0 ==> result == Err::<(u64, MailboxCounter), StoreError>(
                StoreError::Corrupt,
            )
            &&& held.queued_bytes >= 0 && held.queued_bytes + size > limits.mailbox_queued_bytes
                && held.queued_bytes + size <= u64::MAX ==> result == Err::<
                (u64, MailboxCounter),
                StoreError,
            >(StoreError::MailboxQuotaExceeded)
        },
{
}

/// A message leaves a mailbox only if it was counted there.
pub proof fn messages_leave_what_counts_them(
    counter: Option<MailboxCounter>,
    size: u64,
    result: Result<MailboxCounter, StoreError>,
)
    requires
        call_ensures(decrement_mailbox_bytes, (counter, size), result),
    ensures
        result is Ok <==> (counter matches Some(held) && held.queued_bytes >= size
            && held.queued_messages >= 1),
        result matches Ok(after) ==> taken_out(counter->Some_0, size, after),
        result matches Err(error) ==> error == StoreError::Corrupt,
{
}

/// Both ends of the message are in its session, its identity is new, and there is room for it in
/// the session, in the store and in the mailbox.
pub open spec fn has_a_place(
    command: EnqueueMessage,
    facts: EnqueueFacts,
    limits: StoreLimits,
) -> bool {
    &&& facts.source_session == Some(command.session_id)
    &&& facts.destination_session == Some(command.session_id)
    &&& !facts.exists
    &&& has_room(facts.message_usage, facts.message_limit, 1)
    &&& has_room(facts.byte_usage, facts.byte_limit, command.envelope.size as int)
    &&& takes(
        facts.counter,
        command.envelope.size,
        limits.mailbox_queued_bytes as int,
        limits.mailbox_queued_messages as int,
    )
}

/// What is put into a mailbox is what was handed in, queued behind everything that was there.
pub proof fn messages_are_kept_as_handed_in(
    command: EnqueueMessage,
    facts: EnqueueFacts,
    limits: StoreLimits,
    now: Timestamp,
    result: Result<MessagePlan, Refusal>,
)
    requires
        call_ensures(enqueue_message, (command, facts, limits, now), result),
    ensures
        result matches Ok(plan) ==> {
            &&& has_a_place(command, facts, limits)
            &&& plan.message.session_id == command.session_id
            &&& plan.message.message_id == command.message_id
            &&& plan.message.source == command.source
            &&& plan.message.destination == command.destination
            &&& plan.message.priority == command.priority
            &&& plan.message.correlation == command.correlation
            &&& plan.message.envelope == command.envelope
            &&& just_queued(plan.message, now)
            &&& placed_next(
                facts.counter,
                command.envelope.size,
                plan.message.mailbox_sequence,
                plan.counter,
            )
        },
{
}

/// A question is let in exactly when it is about an operation of its source that waits for this
/// very message, and answers nothing.
pub proof fn questions_come_from_those_who_wait(
    command: EnqueueMessage,
    facts: EnqueueFacts,
    limits: StoreLimits,
    now: Timestamp,
    result: Result<MessagePlan, Refusal>,
)
    requires
        call_ensures(enqueue_message, (command, facts, limits, now), result),
        command.envelope.body is Question,
    ensures
        result is Ok <==> {
            &&& has_a_place(command, facts, limits)
            &&& command.correlation.in_reply_to is None
            &&& command.correlation.operation_id == Some(
                command.envelope.body->Question_operation_id,
            )
            &&& facts.operation matches Some(operation)
            &&& operation.session_id == command.session_id
            &&& operation.participant_id == command.source
            &&& operation.state is Waiting
            &&& operation.waiting_on_message_id == Some(command.message_id)
        },
{
}

/// A control message is let in exactly when it is about an operation of its destination, and
/// answers nothing.
pub proof fn controls_reach_those_who_work(
    command: EnqueueMessage,
    facts: EnqueueFacts,
    limits: StoreLimits,
    now: Timestamp,
    result: Result<MessagePlan, Refusal>,
)
    requires
        call_ensures(enqueue_message, (command, facts, limits, now), result),
        command.envelope.body is Control,
    ensures
        result is Ok <==> {
            &&& has_a_place(command, facts, limits)
            &&& command.correlation.in_reply_to is None
            &&& command.correlation.operation_id == Some(
                command.envelope.body->Control_operation_id,
            )
            &&& facts.operation matches Some(operation)
            &&& operation.session_id == command.session_id
            &&& operation.participant_id == command.destination
        },
{
}

/// The input of an operation is let in exactly when the operation is its destination's, and names
/// this message and this input as its own.
pub proof fn inputs_belong_to_their_operation(
    command: EnqueueMessage,
    facts: EnqueueFacts,
    limits: StoreLimits,
    now: Timestamp,
    result: Result<MessagePlan, Refusal>,
)
    requires
        call_ensures(enqueue_message, (command, facts, limits, now), result),
        command.envelope.body is OperationInput,
    ensures
        result is Ok <==> {
            &&& has_a_place(command, facts, limits)
            &&& command.correlation.in_reply_to is None
            &&& command.correlation.operation_id == Some(
                command.envelope.body->OperationInput_operation_id,
            )
            &&& facts.operation matches Some(operation)
            &&& operation.session_id == command.session_id
            &&& operation.participant_id == command.destination
            &&& operation.input_message_id == command.message_id
            &&& operation.input_digest == command.envelope.body->OperationInput_input_digest
        },
{
}

/// An outcome is let in exactly when it is about an operation of its source that has ended with
/// this result.
pub proof fn outcomes_come_from_those_who_ended(
    command: EnqueueMessage,
    facts: EnqueueFacts,
    limits: StoreLimits,
    now: Timestamp,
    result: Result<MessagePlan, Refusal>,
)
    requires
        call_ensures(enqueue_message, (command, facts, limits, now), result),
        command.envelope.body is OperationOutcome,
    ensures
        result is Ok <==> {
            &&& has_a_place(command, facts, limits)
            &&& command.correlation.in_reply_to is None
            &&& command.correlation.operation_id == Some(
                command.envelope.body->OperationOutcome_operation_id,
            )
            &&& facts.operation matches Some(operation)
            &&& operation.session_id == command.session_id
            &&& operation.participant_id == command.source
            &&& has_ended(operation.state)
            &&& operation.terminal_outcome matches Some(outcome)
            &&& outcome.public_digest == command.envelope.body->OperationOutcome_result_digest
        },
{
}

/// Feedback is let in exactly when it answers another message that went the opposite way, and is
/// about an operation of its source.
pub proof fn feedback_goes_back_to_the_asker(
    command: EnqueueMessage,
    facts: EnqueueFacts,
    limits: StoreLimits,
    now: Timestamp,
    result: Result<MessagePlan, Refusal>,
)
    requires
        call_ensures(enqueue_message, (command, facts, limits, now), result),
        command.envelope.body is CorrelatedFeedback,
    ensures
        result is Ok <==> {
            &&& has_a_place(command, facts, limits)
            &&& command.correlation.in_reply_to == Some(
                command.envelope.body->CorrelatedFeedback_in_reply_to,
            )
            &&& command.message_id != command.envelope.body->CorrelatedFeedback_in_reply_to
            &&& command.correlation.operation_id == Some(
                command.envelope.body->CorrelatedFeedback_operation_id,
            )
            &&& facts.operation matches Some(operation)
            &&& operation.session_id == command.session_id
            &&& operation.participant_id == command.source
            &&& facts.reply matches Some(asked)
            &&& asked.session_id == command.session_id
            &&& asked.source == command.destination
            &&& asked.destination == command.source
        },
{
}

/// Nobody hands in the decision of an approval. Whatever is refused with room to spare is an
/// answer that the ledger keeps; for want of room in the session or the store, nothing is written.
pub proof fn refused_messages_are_remembered(
    command: EnqueueMessage,
    facts: EnqueueFacts,
    limits: StoreLimits,
    now: Timestamp,
    result: Result<MessagePlan, Refusal>,
)
    requires
        call_ensures(enqueue_message, (command, facts, limits, now), result),
    ensures
        command.envelope.body is ApprovalDecision ==> result is Err,
        has_room(facts.message_usage, facts.message_limit, 1) && has_room(
            facts.byte_usage,
            facts.byte_limit,
            command.envelope.size as int,
        ) && (facts.source_session != Some(command.session_id) || facts.destination_session
            != Some(command.session_id) || facts.exists || command.envelope.body
            is ApprovalDecision) ==> refused_for_good(result, StoreError::Invalid),
        !has_room(facts.message_usage, facts.message_limit, 1) || !has_room(
            facts.byte_usage,
            facts.byte_limit,
            command.envelope.size as int,
        ) ==> (result matches Err(refusal) && !refusal.recorded),
{
}

/// The driver holds this message for acceptance, and its time is up.
pub open spec fn overdue(message: MessageSnapshot, now: Timestamp) -> bool {
    match message.state {
        DeliveryState::AcceptancePending { lease }
        | DeliveryState::AcceptanceUnknown { lease } => !now.spec_before(lease.expires_at),
        _ => false,
    }
}

/// A driver holds this message, and its time is not up.
pub open spec fn being_delivered(message: MessageSnapshot, now: Timestamp) -> bool {
    match message.state {
        DeliveryState::Leased { lease }
        | DeliveryState::AcceptancePending { lease }
        | DeliveryState::AcceptanceUnknown { lease } => now.spec_before(lease.expires_at),
        _ => false,
    }
}

/// The message waits for a driver, and may be given to one.
pub open spec fn may_be_given(message: MessageSnapshot, now: Timestamp) -> bool {
    match message.state {
        DeliveryState::Queued => true,
        DeliveryState::RetryScheduled { not_before } => !now.spec_before(not_before),
        DeliveryState::Leased { lease } => !now.spec_before(lease.expires_at),
        _ => false,
    }
}

/// Everything before this message is settled, or is ordinary while this one is control; and if
/// this one is ordinary, every control message is settled.
pub open spec fn first_in_line(messages: Seq<MessageSnapshot>, index: int) -> bool {
    let chosen = messages[index];
    &&& !is_settled(chosen.state)
    &&& forall|i: int|
        0 <= i < index && (#[trigger] messages[i]).priority == chosen.priority ==> is_settled(
            messages[i].state,
        )
    &&& chosen.priority is Ordinary ==> forall|i: int|
        0 <= i < messages.len() && (#[trigger] messages[i]).priority is Control ==> is_settled(
            messages[i].state,
        )
}

/// The message with this index is the next to be delivered: the first whose acceptance is
/// overdue, or, where there is none and nothing is being delivered, the first in line.
pub open spec fn is_next(messages: Seq<MessageSnapshot>, index: int, now: Timestamp) -> bool {
    &&& 0 <= index < messages.len()
    &&& if overdue(messages[index], now) {
        forall|i: int| 0 <= i < index ==> !overdue(#[trigger] messages[i], now)
    } else {
        &&& forall|i: int|
            0 <= i < messages.len() ==> !overdue(#[trigger] messages[i], now) && !being_delivered(
                messages[i],
                now,
            )
        &&& first_in_line(messages, index)
        &&& may_be_given(messages[index], now)
    }
}

proof fn lemma_next(messages: Seq<MessageSnapshot>, index: int, now: Timestamp)
    ensures
        selection(messages, now) matches Some(chosen) ==> is_next(messages, chosen, now),
        is_next(messages, index, now) ==> selection(messages, now) == Some(index),
{
    first_wanted_is_first(messages, Sought::Recovery, now);
    first_wanted_is_first(messages, Sought::Control, now);
    first_wanted_is_first(messages, Sought::Ordinary, now);
    assert forall|i: int| 0 <= i < messages.len() implies overdue(messages[i], now) == wanted(
        #[trigger] messages[i],
        Sought::Recovery,
        now,
    ) && being_delivered(messages[i], now) == in_delivery(messages[i], now) by {}
    if is_next(messages, index, now) {
        if overdue(messages[index], now) {
            assert(wanted(messages[index], Sought::Recovery, now));
        } else {
            assert(!delivering(messages, now));
        }
    }
    if let Some(chosen) = selection(messages, now) {
        if overdue(messages[chosen], now) {
        } else {
            assert forall|i: int| 0 <= i < messages.len() implies !overdue(
                #[trigger] messages[i],
                now,
            ) && !being_delivered(messages[i], now) by {
                assert(wanted(messages[i], Sought::Recovery, now) == overdue(messages[i], now));
                assert(in_delivery(messages[i], now) == being_delivered(messages[i], now));
            }
        }
    }
}

/// What a lease makes of the next message. A message that is still to be accepted keeps its
/// attempt and its driver, and only changes its holder. Any other goes to an instance that is
/// ready, as a new attempt, until the attempts are used up; then it is given up.
pub proof fn the_next_message_is_leased(
    messages: Vec<MessageSnapshot>,
    index: int,
    command: LeaseNextMessage,
    instance_ready: bool,
    counter: Option<MailboxCounter>,
    limits: StoreLimits,
    now: Timestamp,
    result: Result<Option<LeasePlan>, Refusal>,
)
    requires
        call_ensures(
            lease_next_message,
            (&messages, command, instance_ready, counter, limits, now),
            result,
        ),
        is_next(messages@, index, now),
        now.wf(),
    ensures
        result !is Err ==> result->Ok_0 is Some,
        result matches Ok(Some(plan)) ==> {
            let before = messages@[index];
            &&& same_message(before, plan.message)
            &&& plan.message.revision.0 == before.revision.0 + 1
            &&& plan.message.updated_at == now
            &&& match (before.state, plan.message.state) {
                (
                    DeliveryState::AcceptancePending { lease: held },
                    DeliveryState::AcceptancePending { lease },
                ) => taken_over(held, lease, command, now) && plan.message.attempt_count
                    == before.attempt_count,
                (
                    DeliveryState::AcceptanceUnknown { lease: held },
                    DeliveryState::AcceptanceUnknown { lease },
                ) => taken_over(held, lease, command, now) && plan.message.attempt_count
                    == before.attempt_count,
                (
                    DeliveryState::Queued
                    | DeliveryState::RetryScheduled { .. }
                    | DeliveryState::Leased { .. },
                    DeliveryState::Leased { lease },
                ) => {
                    &&& instance_ready
                    &&& before.attempt_count < limits.max_delivery_attempts
                    &&& plan.message.attempt_count == before.attempt_count + 1
                    &&& lease.attempt_id == command.proposed_attempt_id
                    &&& lease.owner == command.context.caller
                    &&& lease.ownership_epoch == command.epoch
                    &&& lease.driver_ownership_epoch == command.epoch
                    &&& lease.driver_launch_attempt_id == command.driver_launch_attempt_id
                    &&& lease.instance_id == command.instance_id
                    &&& lease.expires_at.instant() == now.instant() + command.lease_millis
                        * 1_000_000
                },
                (
                    DeliveryState::Queued
                    | DeliveryState::RetryScheduled { .. }
                    | DeliveryState::Leased { .. },
                    DeliveryState::DeadLetter { reason },
                ) => {
                    &&& instance_ready
                    &&& before.attempt_count >= limits.max_delivery_attempts
                    &&& plan.message.attempt_count == before.attempt_count
                    &&& reason is AttemptsExhausted
                },
                _ => false,
            }
            &&& plan.counter is Some <==> plan.message.state is DeadLetter
            &&& plan.counter matches Some(after) ==> counter matches Some(held) && taken_out(
                held,
                before.envelope.size,
                after,
            )
        },
        command.lease_millis > limits.max_lease_millis ==> refused_for_good(
            result,
            StoreError::LeaseTooLong,
        ),
        command.lease_millis <= limits.max_lease_millis && command.lease_millis <= i64::MAX
            && !instance_ready && may_be_given(messages@[index], now) ==> (result matches Err(
            refusal,
        ) && refusal.recorded),
{
    lemma_next(messages@, index, now);
    if bounded_lease_end(now, command.lease_millis, limits.max_lease_millis) is Ok {
        lease_lasts_its_duration(now, command.lease_millis, limits.max_lease_millis);
    }
}

/// The lease has another holder and a new end; attempt and driver are what they were.
pub open spec fn taken_over(
    held: DeliveryLease,
    lease: DeliveryLease,
    command: LeaseNextMessage,
    now: Timestamp,
) -> bool {
    &&& lease.owner == command.context.caller
    &&& lease.ownership_epoch == command.epoch
    &&& lease.expires_at.instant() == now.instant() + command.lease_millis * 1_000_000
    &&& lease.attempt_id == held.attempt_id
    &&& lease.driver_ownership_epoch == held.driver_ownership_epoch
    &&& lease.driver_launch_attempt_id == held.driver_launch_attempt_id
    &&& lease.instance_id == held.instance_id
}

/// Nothing is leased only if no message is next; and where one is, an instance is ready and the
/// lease ends on the calendar, something is.
pub proof fn leases_go_to_the_next_message(
    messages: Vec<MessageSnapshot>,
    index: int,
    command: LeaseNextMessage,
    counter: Option<MailboxCounter>,
    limits: StoreLimits,
    now: Timestamp,
    result: Result<Option<LeasePlan>, Refusal>,
)
    requires
        call_ensures(
            lease_next_message,
            (&messages, command, true, counter, limits, now),
            result,
        ),
    ensures
        result matches Ok(None) ==> !is_next(messages@, index, now),
        result matches Ok(Some(plan)) ==> exists|i: int|
            is_next(messages@, i, now) && same_message(#[trigger] messages@[i], plan.message),
        is_next(messages@, index, now) && command.lease_millis <= limits.max_lease_millis
            && command.lease_millis <= i64::MAX && on_calendar(now.seconds as int) && on_calendar(
            (now.instant() + command.lease_millis * 1_000_000) / 1_000_000_000,
        ) && messages@[index].revision.0 < u64::MAX && messages@[index].attempt_count
            < limits.max_delivery_attempts ==> (result matches Ok(Some(plan)) && same_message(
            messages@[index],
            plan.message,
        )),
{
    lemma_next(messages@, index, now);
    if let Ok(Some(plan)) = result {
        let chosen = selection(messages@, now)->Some_0;
        lemma_next(messages@, chosen, now);
        assert(same_message(messages@[chosen], plan.message));
    }
}

/// The lease that a delivery is moved under: it is this attempt's, held by the caller in this
/// epoch, and one that was only given out has not run out.
pub open spec fn moves_under(
    state: DeliveryState,
    command: TransitionMessageDelivery,
    now: Timestamp,
) -> bool {
    match state {
        DeliveryState::Leased { lease } => {
            &&& lease.attempt_id == command.attempt_id
            &&& lease.owner == command.context.caller
            &&& lease.ownership_epoch == command.epoch
            &&& now.spec_before(lease.expires_at)
        },
        DeliveryState::AcceptancePending { lease } | DeliveryState::AcceptanceUnknown { lease } => {
            &&& lease.attempt_id == command.attempt_id
            &&& lease.owner == command.context.caller
            &&& lease.ownership_epoch == command.epoch
        },
        _ => false,
    }
}

/// The step that is asked for, taken from one state of a delivery to the next.
pub open spec fn goes_to(
    before: DeliveryState,
    command: TransitionMessageDelivery,
    now: Timestamp,
    after: DeliveryState,
) -> bool {
    let open = before is AcceptancePending || before is AcceptanceUnknown;
    match command.transition {
        DeliveryTransition::AcceptancePending => before is Leased && after is AcceptancePending
            && after->AcceptancePending_lease == before->Leased_lease,
        DeliveryTransition::AcceptanceUnknown => before is AcceptancePending && after
            is AcceptanceUnknown && after->AcceptanceUnknown_lease
            == before->AcceptancePending_lease,
        DeliveryTransition::RetryAfter { delay_millis } => open && after is RetryScheduled
            && after->not_before.instant() == now.instant() + delay_millis * 1_000_000,
        DeliveryTransition::Accepted { proof_digest } => open && after is Accepted
            && after->Accepted_attempt_id == command.attempt_id && after->proof_digest
            == proof_digest && after->accepted_at == now,
        DeliveryTransition::Uncertain { reason } => open && after is Uncertain
            && after->Uncertain_attempt_id == command.attempt_id && after->Uncertain_reason
            == reason,
        DeliveryTransition::DeadLetter { reason } => after is DeadLetter
            && after->DeadLetter_reason == reason,
    }
}

/// The operation waits for the message that this feedback answers.
pub open spec fn is_answered(
    operation: Option<OperationSnapshot>,
    session_id: SessionId,
    message: MessageSnapshot,
) -> bool {
    &&& message.envelope.body is CorrelatedFeedback
    &&& operation matches Some(waiting)
    &&& waiting.session_id == session_id
    &&& waiting.participant_id == message.destination
    &&& waiting.state is Waiting
    &&& waiting.waiting_on_message_id == Some(
        message.envelope.body->CorrelatedFeedback_in_reply_to,
    )
}

/// The operation goes on running, and waits for nothing.
pub open spec fn goes_on(
    before: OperationSnapshot,
    now: Timestamp,
    after: OperationSnapshot,
) -> bool {
    &&& after.state is Running
    &&& after.waiting_on_message_id is None
    &&& after.revision.0 == before.revision.0 + 1
    &&& latest(now, before.updated_at, after.updated_at)
    &&& after.session_id == before.session_id
    &&& after.operation_id == before.operation_id
    &&& after.participant_id == before.participant_id
    &&& after.start_request_id == before.start_request_id
    &&& after.input_message_id == before.input_message_id
    &&& after.input_digest == before.input_digest
    &&& after.terminal_outcome == before.terminal_outcome
    &&& after.created_at == before.created_at
}

/// A delivery moves only under the lease of its attempt, from the revision that the caller knows,
/// and only by the step that was asked for. A settled message leaves the mailbox. An operation
/// goes on exactly when the answer that it waits for was accepted.
pub proof fn deliveries_move_step_by_step(
    command: TransitionMessageDelivery,
    facts: DeliveryFacts,
    operation: Option<OperationSnapshot>,
    counter: Option<MailboxCounter>,
    limits: StoreLimits,
    now: Timestamp,
    result: Result<DeliveryPlan, Refusal>,
)
    requires
        call_ensures(
            transition_message_delivery,
            (command, facts, operation, counter, limits, now),
            result,
        ),
        now.wf(),
    ensures
        result matches Ok(plan) ==> {
            &&& facts.message matches Some(before)
            &&& before.session_id == command.session_id
            &&& before.revision == command.expected_revision
            &&& moves_under(before.state, command, now)
            &&& goes_to(before.state, command, now, plan.message.state)
            &&& has_room(facts.event_usage, facts.event_limit, 1)
            &&& command.transition is RetryAfter ==> has_room(
                facts.retry_usage,
                facts.retry_limit,
                1,
            ) && command.transition->delay_millis <= limits.max_lease_millis
            &&& same_message(before, plan.message)
            &&& plan.message.attempt_count == before.attempt_count
            &&& plan.message.revision.0 == before.revision.0 + 1
            &&& plan.message.updated_at == now
            &&& plan.counter is Some <==> is_settled(plan.message.state)
            &&& plan.counter matches Some(after) ==> counter matches Some(held) && taken_out(
                held,
                before.envelope.size,
                after,
            )
            &&& plan.operation is Some <==> plan.message.state is Accepted && is_answered(
                operation,
                command.session_id,
                before,
            )
            &&& plan.operation matches Some(after) ==> goes_on(operation->Some_0, now, after)
        },
{
    if let DeliveryTransition::RetryAfter { delay_millis } = command.transition {
        if bounded_lease_end(now, delay_millis, limits.max_lease_millis) is Ok {
            lease_lasts_its_duration(now, delay_millis, limits.max_lease_millis);
        }
    }
}

/// A step that fits is taken: the caller holds the lease at the revision it knows, and there is
/// room for the event and, for a settled message, a mailbox that counts it.
pub proof fn fitting_deliveries_move(
    command: TransitionMessageDelivery,
    facts: DeliveryFacts,
    counter: MailboxCounter,
    limits: StoreLimits,
    now: Timestamp,
    result: Result<DeliveryPlan, Refusal>,
)
    requires
        call_ensures(
            transition_message_delivery,
            (command, facts, None, Some(counter), limits, now),
            result,
        ),
        facts.message is Some,
        !(facts.message->Some_0.envelope.body is CorrelatedFeedback),
        counter.queued_bytes >= facts.message->Some_0.envelope.size,
        counter.queued_messages >= 1,
        has_room(facts.event_usage, facts.event_limit, 1),
        has_room(facts.retry_usage, facts.retry_limit, 1),
        facts.message->Some_0.session_id == command.session_id,
        facts.message->Some_0.revision == command.expected_revision,
        facts.message->Some_0.revision.0 < u64::MAX,
        moves_under(facts.message->Some_0.state, command, now),
    ensures
        facts.message->Some_0.state is Leased ==> (result is Ok <==> command.transition
            is AcceptancePending || command.transition is DeadLetter),
        facts.message->Some_0.state is AcceptancePending && !(command.transition is RetryAfter)
            ==> (result is Ok <==> !(command.transition is AcceptancePending)),
        facts.message->Some_0.state is AcceptanceUnknown && !(command.transition is RetryAfter)
            ==> (result is Ok <==> !(command.transition is AcceptancePending)
            && !(command.transition is AcceptanceUnknown)),
        !(facts.message->Some_0.state is Leased) ==> (command.transition matches
            DeliveryTransition::RetryAfter { delay_millis } ==> {
            &&& delay_millis > limits.max_lease_millis ==> refused_for_good(
                result,
                StoreError::LeaseTooLong,
            )
            &&& delay_millis <= limits.max_lease_millis && delay_millis <= i64::MAX
                && on_calendar(now.seconds as int) && on_calendar(
                (now.instant() + delay_millis * 1_000_000) / 1_000_000_000,
            ) ==> result is Ok
        }),
{
}

/// A message that is not there is told apart from one that may not be moved.
pub proof fn deliveries_of_others_are_refused(
    command: TransitionMessageDelivery,
    facts: DeliveryFacts,
    operation: Option<OperationSnapshot>,
    counter: Option<MailboxCounter>,
    limits: StoreLimits,
    now: Timestamp,
    result: Result<DeliveryPlan, Refusal>,
)
    requires
        call_ensures(
            transition_message_delivery,
            (command, facts, operation, counter, limits, now),
            result,
        ),
        !(command.transition is RetryAfter),
    ensures
        facts.message is None ==> refused_for_good(
            result,
            StoreError::MessageNotFound { message_id: command.message_id },
        ),
        facts.message matches Some(before) && (before.session_id != command.session_id
            || before.revision != command.expected_revision || !moves_under(
            before.state,
            command,
            now,
        )) ==> refused_for_good(result, StoreError::Invalid),
{
}

/// An accepted answer lets the operation that waits for it go on; nothing else does.
pub proof fn answers_let_operations_go_on(
    message: MessageSnapshot,
    session_id: SessionId,
    operation: Option<OperationSnapshot>,
    now: Timestamp,
    result: Result<Option<OperationSnapshot>, StoreError>,
)
    requires
        call_ensures(resume_on_feedback, (message, session_id, operation, now), result),
    ensures
        result matches Ok(Some(after)) ==> message.state is Accepted && is_answered(
            operation,
            session_id,
            message,
        ) && goes_on(operation->Some_0, now, after),
        message.state is Accepted && is_answered(operation, session_id, message)
            && operation->Some_0.revision.0 < u64::MAX ==> result matches Ok(Some(_)),
        !(message.state is Accepted) || !(message.envelope.body is CorrelatedFeedback) ==> result
            == Ok::<Option<OperationSnapshot>, StoreError>(None),
        message.state is Accepted && message.envelope.body is CorrelatedFeedback && operation
            is None ==> result == Err::<Option<OperationSnapshot>, StoreError>(
            StoreError::Corrupt,
        ),
{
}

/// What becomes of a message when the operation that it is about ends: it is given up, and
/// where its acceptance was open nobody knows whether it arrived.
pub open spec fn is_retired(
    before: MessageSnapshot,
    observed: Timestamp,
    after: MessageSnapshot,
) -> bool {
    &&& same_message(before, after)
    &&& after.attempt_count == before.attempt_count
    &&& after.revision.0 == before.revision.0 + 1
    &&& latest(observed, before.updated_at, after.updated_at)
    &&& match before.state {
        DeliveryState::AcceptancePending { lease } | DeliveryState::AcceptanceUnknown { lease } => {
            after.state == (DeliveryState::Uncertain {
                attempt_id: lease.attempt_id,
                reason: DeliveryReason::OperationEnded,
            })
        },
        _ => after.state == (DeliveryState::DeadLetter { reason: DeliveryReason::OperationEnded }),
    }
}

/// A message is retired with an operation exactly when it is in the mailbox of the operation's
/// participant and not settled.
pub proof fn open_messages_are_retired(
    message: MessageSnapshot,
    operation: OperationSnapshot,
    observed: Timestamp,
    result: Result<MessageSnapshot, StoreError>,
)
    requires
        call_ensures(retire_message, (message, operation, observed), result),
    ensures
        result is Ok <==> message.destination == operation.participant_id && !is_settled(
            message.state,
        ) && message.revision.0 < u64::MAX,
        result matches Ok(after) ==> is_retired(message, observed, after),
        result matches Err(error) ==> error == StoreError::Corrupt,
{
}

/// The bytes of the first messages.
pub open spec fn bytes_of(messages: Seq<MessageSnapshot>, count: nat) -> int
    decreases count,
{
    if count == 0 {
        0
    } else {
        bytes_of(messages, (count - 1) as nat) + messages[count - 1].envelope.size
    }
}

pub(crate) proof fn lemma_emptied(counter: MailboxCounter, messages: Seq<MessageSnapshot>, count: nat)
    requires
        count <= messages.len(),
    ensures
        bytes_of(messages, count) >= 0,
        mailbox_after(Some(counter), messages, count) matches Some(after) ==> {
            &&& after.next_sequence == counter.next_sequence
            &&& after.queued_bytes == counter.queued_bytes - bytes_of(messages, count)
            &&& after.queued_messages == counter.queued_messages - count
        },
        counter.queued_bytes >= bytes_of(messages, count) && counter.queued_messages >= count
            ==> mailbox_after(Some(counter), messages, count) is Some,
    decreases count,
{
    if count > 0 {
        lemma_emptied(counter, messages, (count - 1) as nat);
    }
}

/// With an operation every open message is retired, each of them once, and the mailbox counts all
/// of them out.
pub proof fn mailboxes_are_cleared_of_ended_work(
    messages: Vec<MessageSnapshot>,
    operation: OperationSnapshot,
    counter: MailboxCounter,
    observed: Timestamp,
    result: Result<(Vec<MessageSnapshot>, Option<MailboxCounter>), StoreError>,
)
    requires
        call_ensures(
            retire_correlated_messages,
            (&messages, operation, Some(counter), observed),
            result,
        ),
    ensures
        result matches Ok((after, left)) ==> {
            &&& after@.len() == messages@.len()
            &&& forall|i: int|
                0 <= i < messages@.len() ==> messages@[i].destination == operation.participant_id
                    && !is_settled(messages@[i].state) && is_retired(
                    messages@[i],
                    observed,
                    #[trigger] after@[i],
                )
            &&& left matches Some(left)
            &&& left.next_sequence == counter.next_sequence
            &&& left.queued_bytes == counter.queued_bytes - bytes_of(
                messages@,
                messages@.len(),
            )
            &&& left.queued_messages == counter.queued_messages - messages@.len()
        },
        counter.queued_bytes >= bytes_of(messages@, messages@.len()) && counter.queued_messages
            >= messages@.len() && (forall|i: int|
            0 <= i < messages@.len() ==> (#[trigger] messages@[i]).destination
                == operation.participant_id && !is_settled(messages@[i].state)
                && messages@[i].revision.0 < u64::MAX) ==> result is Ok,
{
    lemma_emptied(counter, messages@, messages@.len());
}

/// A message is due only with a live operation of its destination in the session.
pub proof fn due_messages_have_live_operations(
    message: MessageSnapshot,
    session_id: SessionId,
    operation: Option<OperationSnapshot>,
    result: Result<OperationSnapshot, StoreError>,
)
    requires
        call_ensures(due_operation, (message, session_id, operation), result),
    ensures
        result is Ok <==> (operation matches Some(found) && found.session_id == session_id
            && found.participant_id == message.destination && !has_ended(found.state)),
        result matches Ok(found) ==> operation == Some(found),
        result matches Err(error) ==> error == StoreError::Corrupt,
{
}

/// A message is read back only from a row that says the same of it: control messages are sorted
/// under zero, ordinary ones under one.
pub proof fn message_rows_agree(
    columns: MessageColumns,
    snapshot: MessageSnapshot,
    structurally_valid: bool,
    result: Result<MessageSnapshot, StoreError>,
)
    requires
        call_ensures(decode_message_row, (columns, snapshot, structurally_valid), result),
    ensures
        result is Ok <==> {
            &&& structurally_valid
            &&& columns.message_id == snapshot.message_id
            &&& columns.session_id == snapshot.session_id
            &&& columns.source == snapshot.source
            &&& columns.destination == snapshot.destination
            &&& columns.mailbox_sequence == snapshot.mailbox_sequence
            &&& snapshot.priority is Control ==> columns.priority == 0
            &&& snapshot.priority is Ordinary ==> columns.priority == 1
        },
        result matches Ok(read) ==> read == snapshot,
        result matches Err(error) ==> error == StoreError::Corrupt,
{
}

} // verus!
