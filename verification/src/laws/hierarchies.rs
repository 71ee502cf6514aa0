//! Participants and those above and below them: what one may do to another, and what becomes of
//! the work under a participant that is cancelled.

use crate::authority::{GrantSnapshot, ResourceScope, ScopedCapability, StoreCapability};
use crate::error::StoreError;
use crate::hierarchy::{
    apply_hierarchy_effect, authorized_status, cancel_operation, cancel_subtree, cancellation_step,
    found_after, operation_of, plan_hierarchy_effect, refresh_cancellation, status_authority,
    subtree_steps, validate_effect_replay, validate_subtree_root, write_hierarchy_effect,
    AuthorizedStatus, CancellationRecord, CancellationStep, CancellationTerms, EffectAnswer,
    EffectFacts, EffectPlan, EffectWrites, HierarchyEffect, HierarchyPlan, StatusReply,
    SubtreeOperation,
};
use crate::ids::{OperationId, SessionId};
use crate::laws::words::{has_ended, just_queued, latest, placed_next, takes};
use crate::mailbox::{ControlKind, MessageBody, MessagePlan, MessageSnapshot, StoreLimits};
use crate::operation::{OperationAction, OperationSnapshot, OutcomeKind, ParticipantSnapshot};
use crate::time::Timestamp;
use vstd::prelude::*;

verus! {

/// Nobody works on the operation: it is queued, or starting with no driver launched for it.
pub open spec fn nobody_works_on(part: SubtreeOperation) -> bool {
    part.operation.state is Queued || (part.operation.state is Starting && !part.launch_exists)
}

/// What the operation is, as opposed to how far it got.
pub open spec fn same_operation(before: OperationSnapshot, after: OperationSnapshot) -> bool {
    &&& after.session_id == before.session_id
    &&& after.operation_id == before.operation_id
    &&& after.participant_id == before.participant_id
    &&& after.start_request_id == before.start_request_id
    &&& after.input_message_id == before.input_message_id
    &&& after.input_digest == before.input_digest
    &&& after.created_at == before.created_at
}

/// The operation ended at once, as cancelled.
pub open spec fn ends_cancelled(
    before: OperationSnapshot,
    terms: CancellationTerms,
    after: OperationSnapshot,
) -> bool {
    &&& same_operation(before, after)
    &&& after.state is Cancelled
    &&& after.waiting_on_message_id is None
    &&& after.terminal_outcome matches Some(outcome)
    &&& outcome.kind is Cancelled
    &&& outcome.public_digest == terms.cancelled_digest
    &&& after.revision.0 == before.revision.0 + 1
    &&& latest(terms.now, before.updated_at, after.updated_at)
}

/// The operation is on its way to an end, and its participant is told to cancel it.
pub open spec fn is_asked_to_cancel(
    part: SubtreeOperation,
    terms: CancellationTerms,
    after: OperationSnapshot,
    notification: MessagePlan,
) -> bool {
    let before = part.operation;
    let message = notification.message;
    &&& same_operation(before, after)
    &&& after.state is Cancelling
    &&& after.waiting_on_message_id is None
    &&& after.terminal_outcome is None
    &&& after.revision.0 == before.revision.0 + 1
    &&& latest(terms.now, before.updated_at, after.updated_at)
    &&& message.session_id == before.session_id
    &&& message.message_id == part.message_id
    &&& message.source == before.participant_id
    &&& message.destination == before.participant_id
    &&& message.priority == terms.priority
    &&& message.correlation.operation_id == Some(before.operation_id)
    &&& message.correlation.in_reply_to is None
    &&& message.envelope.size == part.envelope_size
    &&& message.envelope.body is Control
    &&& message.envelope.body->Control_operation_id == before.operation_id
    &&& message.envelope.body->Control_command is Cancel
    &&& just_queued(message, terms.now)
    &&& placed_next(
        part.counter,
        part.envelope_size,
        message.mailbox_sequence,
        notification.counter,
    )
}

/// A cancelled operation ends at once exactly when nobody works on it. One that a driver works on
/// is asked, by a message to its participant. One that ended, or was asked before, is left alone.
pub proof fn operations_in_work_are_asked_to_cancel(
    part: SubtreeOperation,
    terms: CancellationTerms,
    result: Result<CancellationStep, StoreError>,
)
    requires
        call_ensures(cancel_operation, (part, terms), result),
    ensures
        result matches Ok(CancellationStep::Untouched) <==> has_ended(part.operation.state)
            || part.operation.state is Cancelling,
        result matches Ok(CancellationStep::Ended(_)) <==> nobody_works_on(part)
            && part.operation.revision.0 < u64::MAX,
        result matches Ok(CancellationStep::Ended(after)) ==> ends_cancelled(
            part.operation,
            terms,
            after,
        ),
        result matches Ok(CancellationStep::Asked { .. }) <==> {
            &&& part.operation.state is Running || part.operation.state is Waiting || (
            part.operation.state is Starting && part.launch_exists)
            &&& part.operation.revision.0 < u64::MAX
            &&& !part.message_exists
            &&& takes(
                part.counter,
                part.envelope_size,
                terms.limits.mailbox_queued_bytes as int,
                terms.limits.mailbox_queued_messages as int,
            )
        },
        result matches Ok(CancellationStep::Asked { operation, notification })
            ==> is_asked_to_cancel(part, terms, operation, notification),
{
}

/// The step of one operation, as the operations before it left mailboxes and messages.
pub open spec fn is_cancelled_by(
    part: SubtreeOperation,
    terms: CancellationTerms,
    step: CancellationStep,
) -> bool {
    match step {
        CancellationStep::Untouched => has_ended(part.operation.state) || part.operation.state
            is Cancelling,
        CancellationStep::Ended(after) => nobody_works_on(part) && ends_cancelled(
            part.operation,
            terms,
            after,
        ),
        CancellationStep::Asked { operation, notification } => {
            &&& part.operation.state is Running || part.operation.state is Waiting || (
            part.operation.state is Starting && part.launch_exists)
            &&& same_operation(part.operation, operation)
            &&& operation.state is Cancelling
            &&& operation.terminal_outcome is None
            &&& operation.waiting_on_message_id is None
            &&& notification.message.message_id == part.message_id
            &&& notification.message.destination == part.operation.participant_id
            &&& notification.message.source == part.operation.participant_id
            &&& notification.message.envelope.body is Control
            &&& notification.message.envelope.body->Control_operation_id
                == part.operation.operation_id
            &&& notification.message.envelope.body->Control_command is Cancel
            &&& just_queued(notification.message, terms.now)
        },
    }
}

proof fn lemma_found(part: SubtreeOperation, steps: Seq<CancellationStep>)
    ensures
        found_after(part, steps).operation == part.operation,
        found_after(part, steps).launch_exists == part.launch_exists,
        found_after(part, steps).message_id == part.message_id,
        found_after(part, steps).envelope_size == part.envelope_size,
        forall|i: int|
            0 <= i < steps.len() && (#[trigger] steps[i] is Asked)
                && steps[i]->notification.message.message_id == part.message_id ==> found_after(
                part,
                steps,
            ).message_exists,
    decreases steps.len(),
{
    if steps.len() > 0 {
        let earlier = steps.drop_last();
        lemma_found(part, earlier);
        assert forall|i: int|
            0 <= i < steps.len() && (#[trigger] steps[i] is Asked)
                && steps[i]->notification.message.message_id == part.message_id implies found_after(
            part,
            steps,
        ).message_exists by {
            if i < earlier.len() {
                assert(earlier[i] is Asked);
            }
        }
    }
}

proof fn lemma_steps(operations: Seq<SubtreeOperation>, terms: CancellationTerms, index: int)
    requires
        0 <= index < operations.len(),
    ensures
        subtree_steps(operations, terms) matches Ok(steps) ==> {
            &&& steps.len() == operations.len()
            &&& is_cancelled_by(operations[index], terms, steps[index])
        },
    decreases operations.len(),
{
    if let Ok(steps) = subtree_steps(operations.drop_last(), terms) {
        let last = operations.len() - 1;
        lemma_found(operations[last], steps);
        if last > 0 {
            lemma_steps(operations.drop_last(), terms, 0);
        }
        if index < last {
            lemma_steps(operations.drop_last(), terms, index);
            assert(operations.drop_last()[index] == operations[index]);
        }
    }
}

/// In a subtree that is cancelled every operation is dealt with, in its place: it ends at once
/// only if nobody works on it, and is asked only if someone does.
pub proof fn subtrees_are_cancelled_throughout(
    operations: Vec<SubtreeOperation>,
    terms: CancellationTerms,
    index: int,
    result: Result<Vec<CancellationStep>, StoreError>,
)
    requires
        call_ensures(cancel_subtree, (&operations, terms), result),
        0 <= index < operations@.len(),
    ensures
        result matches Ok(steps) ==> {
            &&& steps@.len() == operations@.len()
            &&& is_cancelled_by(operations@[index], terms, steps@[index])
        },
{
    lemma_steps(operations@, terms, index);
}

proof fn lemma_numbers(
    operations: Seq<SubtreeOperation>,
    terms: CancellationTerms,
    one: int,
    other: int,
)
    requires
        0 <= one < other < operations.len(),
    ensures
        subtree_steps(operations, terms) matches Ok(steps) ==> steps.len() == operations.len() && (
        steps[one] is Asked && steps[other] is Asked ==> {
            let first = steps[one]->notification;
            let second = steps[other]->notification;
            &&& first.message.message_id != second.message.message_id
            &&& first.message.destination == second.message.destination && (forall|j: int|
                one < j < other && (#[trigger] steps[j] is Asked)
                    ==> steps[j]->notification.message.destination
                    != first.message.destination) ==> {
                &&& second.message.mailbox_sequence == first.counter.next_sequence
                &&& second.counter.queued_messages == first.counter.queued_messages + 1
                &&& second.counter.queued_bytes == first.counter.queued_bytes
                    + operations[other].envelope_size
            }
        }),
    decreases operations.len(),
{
    if let Ok(steps) = subtree_steps(operations.drop_last(), terms) {
        let last = operations.len() - 1;
        lemma_steps(operations.drop_last(), terms, 0);
        if other < last {
            lemma_numbers(operations.drop_last(), terms, one, other);
            assert(operations.drop_last()[other] == operations[other]);
            if let Ok(all) = subtree_steps(operations, terms) {
                assert(forall|j: int| 0 <= j < steps.len() ==> #[trigger] all[j] == steps[j]);
                if forall|j: int|
                    one < j < other && (#[trigger] all[j] is Asked)
                        ==> all[j]->notification.message.destination
                        != all[one]->notification.message.destination {
                    assert forall|j: int| one < j < other && (#[trigger] steps[j] is Asked) implies
                        steps[j]->notification.message.destination
                        != steps[one]->notification.message.destination by {
                        assert(all[j] is Asked);
                    }
                }
            }
        } else {
            lemma_found(operations[last], steps);
            lemma_steps(operations.drop_last(), terms, one);
            if let Ok(all) = subtree_steps(operations, terms) {
                assert(forall|j: int| 0 <= j < steps.len() ==> #[trigger] all[j] == steps[j]);
                if all[one] is Asked && all[other] is Asked {
                    assert(steps[one] is Asked);
                    let part = operations[last];
                    assert(steps[one]->notification.message.message_id != part.message_id);
                    if steps[one]->notification.message.destination
                        == part.operation.participant_id && (forall|j: int|
                        one < j < other && (#[trigger] all[j] is Asked)
                            ==> all[j]->notification.message.destination
                            != all[one]->notification.message.destination) {
                        assert forall|j: int|
                            one < j < steps.len() && (#[trigger] steps[j] is Asked) implies
                            steps[j]->notification.message.destination
                            != part.operation.participant_id by {
                            assert(all[j] is Asked);
                        }
                        lemma_last_counter(part, steps, one);
                    }
                }
            }
        }
    }
}

proof fn lemma_last_counter(part: SubtreeOperation, steps: Seq<CancellationStep>, index: int)
    requires
        0 <= index < steps.len(),
        steps[index] is Asked,
        steps[index]->notification.message.destination == part.operation.participant_id,
        forall|j: int|
            index < j < steps.len() && (#[trigger] steps[j] is Asked)
                ==> steps[j]->notification.message.destination != part.operation.participant_id,
    ensures
        found_after(part, steps).counter == Some(steps[index]->notification.counter),
    decreases steps.len(),
{
    if index < steps.len() - 1 {
        let earlier = steps.drop_last();
        assert forall|j: int| index < j < earlier.len() && (#[trigger] earlier[j] is Asked) implies
            earlier[j]->notification.message.destination != part.operation.participant_id by {
            assert(steps[j] is Asked);
        }
        lemma_last_counter(part, earlier, index);
        assert(steps[steps.len() - 1] == steps.last());
    }
}

/// Two requests to cancel in one subtree are two messages, and in one mailbox the second comes
/// behind the first and is counted on top of it.
pub proof fn requests_to_cancel_queue_up(
    operations: Vec<SubtreeOperation>,
    terms: CancellationTerms,
    one: int,
    other: int,
    result: Result<Vec<CancellationStep>, StoreError>,
)
    requires
        call_ensures(cancel_subtree, (&operations, terms), result),
        0 <= one < other < operations@.len(),
    ensures
        result matches Ok(steps) ==> steps@[one] is Asked && steps@[other] is Asked ==> {
            let first = steps@[one]->notification;
            let second = steps@[other]->notification;
            &&& first.message.message_id != second.message.message_id
            &&& first.message.destination == second.message.destination && (forall|j: int|
                one < j < other && (#[trigger] steps@[j] is Asked)
                    ==> steps@[j]->notification.message.destination
                    != first.message.destination) ==> {
                &&& second.message.mailbox_sequence == first.counter.next_sequence
                &&& second.counter.queued_messages == first.counter.queued_messages + 1
                &&& second.counter.queued_bytes == first.counter.queued_bytes
                    + operations@[other].envelope_size
            }
        },
{
    lemma_numbers(operations@, terms, one, other);
}

/// A participant of the session that may do this, with a grant that was not used up, writes a
/// new message for which its target has room.
pub open spec fn effect_has_a_place(
    session_id: SessionId,
    facts: EffectFacts,
    limits: StoreLimits,
) -> bool {
    &&& facts.caller matches Some(caller)
    &&& caller.session_id == session_id
    &&& facts.target matches Some(target)
    &&& target.session_id == session_id
    &&& facts.authorized
    &&& facts.grant matches Some(grant) ==> grant.consumed_at is None
    &&& !facts.message_exists
    &&& takes(
        facts.counter,
        facts.envelope_size,
        limits.mailbox_queued_bytes as int,
        limits.mailbox_queued_messages as int,
    )
}

/// The message that an effect puts into a mailbox comes from the caller.
pub open spec fn is_sent(
    session_id: SessionId,
    facts: EffectFacts,
    now: Timestamp,
    message: MessagePlan,
) -> bool {
    &&& message.message.session_id == session_id
    &&& facts.caller matches Some(caller)
    &&& message.message.source == caller.participant_id
    &&& message.message.priority == facts.priority
    &&& message.message.envelope.size == facts.envelope_size
    &&& just_queued(message.message, now)
    &&& placed_next(
        facts.counter,
        facts.envelope_size,
        message.message.mailbox_sequence,
        message.counter,
    )
}

/// A grant for one use is used up; any other stays as it is and is not written.
pub open spec fn is_spent(
    grant: Option<GrantSnapshot>,
    now: Timestamp,
    after: Option<GrantSnapshot>,
) -> bool {
    match grant {
        Some(given) if given.single_use => after matches Some(after) && after.grant == given.grant
            && after.single_use && after.consumed_at == Some(now),
        _ => after is None,
    }
}

/// A question goes to the parent of a participant whose running operation got the message that is
/// named; the operation then waits for the answer to this question.
pub proof fn questions_go_to_the_parent(
    session_id: SessionId,
    effect: HierarchyEffect,
    facts: EffectFacts,
    limits: StoreLimits,
    now: Timestamp,
    result: Result<Option<HierarchyPlan>, StoreError>,
)
    requires
        call_ensures(apply_hierarchy_effect, (session_id, effect, facts, limits, now), result),
        effect is QuestionUpward,
    ensures
        result matches Ok(Some(_)) <==> {
            &&& effect_has_a_place(session_id, facts, limits)
            &&& facts.caller->Some_0.parent_participant_id == Some(
                facts.target->Some_0.participant_id,
            )
            &&& facts.operation matches Some(operation)
            &&& operation.session_id == session_id
            &&& operation.participant_id == facts.caller->Some_0.participant_id
            &&& operation.input_message_id == effect->QuestionUpward_delivered_message_id
            &&& operation.state is Running
            &&& operation.waiting_on_message_id is None
            &&& operation.revision.0 < u64::MAX
        },
        result matches Ok(Some(plan)) ==> {
            let before = facts.operation->Some_0;
            let message = plan.message.message;
            &&& is_sent(session_id, facts, now, plan.message)
            &&& message.message_id == effect->QuestionUpward_message_id
            &&& Some(message.destination) == facts.caller->Some_0.parent_participant_id
            &&& message.correlation.operation_id == Some(effect->QuestionUpward_operation_id)
            &&& message.correlation.in_reply_to is None
            &&& message.envelope.body == (MessageBody::Question {
                operation_id: effect->QuestionUpward_operation_id,
                code: effect->code,
            })
            &&& plan.operation_moved
            &&& same_operation(before, plan.operation)
            &&& plan.operation.state is Waiting
            &&& plan.operation.waiting_on_message_id == Some(message.message_id)
            &&& plan.operation.revision.0 == before.revision.0 + 1
            &&& plan.operation.terminal_outcome == before.terminal_outcome
            &&& latest(now, before.updated_at, plan.operation.updated_at)
            &&& is_spent(facts.grant, now, plan.grant)
        },
{
}

/// A child's operation can be cancelled by its parent while it has not ended and was not asked
/// before; the child is told, and the operation is then on its way to an end.
pub proof fn parents_cancel_their_children(
    session_id: SessionId,
    effect: HierarchyEffect,
    facts: EffectFacts,
    limits: StoreLimits,
    now: Timestamp,
    result: Result<Option<HierarchyPlan>, StoreError>,
)
    requires
        call_ensures(apply_hierarchy_effect, (session_id, effect, facts, limits, now), result),
        effect is CancelChild,
    ensures
        result matches Ok(Some(_)) <==> {
            &&& effect_has_a_place(session_id, facts, limits)
            &&& facts.target->Some_0.parent_participant_id == Some(
                facts.caller->Some_0.participant_id,
            )
            &&& facts.operation matches Some(operation)
            &&& operation.session_id == session_id
            &&& operation.participant_id == effect->CancelChild_child_id
            &&& operation.state is Queued || operation.state is Starting || operation.state
                is Running || operation.state is Waiting
            &&& operation.revision.0 < u64::MAX
        },
        result matches Ok(Some(plan)) ==> {
            let before = facts.operation->Some_0;
            let message = plan.message.message;
            &&& is_sent(session_id, facts, now, plan.message)
            &&& message.message_id == effect->CancelChild_message_id
            &&& message.destination == effect->CancelChild_child_id
            &&& message.correlation.operation_id == Some(effect->CancelChild_operation_id)
            &&& message.correlation.in_reply_to is None
            &&& message.envelope.body is Control
            &&& message.envelope.body->Control_operation_id == effect->CancelChild_operation_id
            &&& message.envelope.body->Control_command is Cancel
            &&& plan.operation_moved
            &&& same_operation(before, plan.operation)
            &&& plan.operation.state is Cancelling
            &&& plan.operation.waiting_on_message_id is None
            &&& plan.operation.revision.0 == before.revision.0 + 1
            &&& plan.operation.terminal_outcome == before.terminal_outcome
            &&& latest(now, before.updated_at, plan.operation.updated_at)
            &&& is_spent(facts.grant, now, plan.grant)
        },
{
}

/// A child that waits for the answer to a message gets it from its parent. The operation is left
/// as it is until the answer is accepted.
pub proof fn parents_answer_their_children(
    session_id: SessionId,
    effect: HierarchyEffect,
    facts: EffectFacts,
    limits: StoreLimits,
    now: Timestamp,
    result: Result<Option<HierarchyPlan>, StoreError>,
)
    requires
        call_ensures(apply_hierarchy_effect, (session_id, effect, facts, limits, now), result),
        effect is ResumeChild,
    ensures
        result matches Ok(Some(_)) <==> {
            &&& effect_has_a_place(session_id, facts, limits)
            &&& facts.target->Some_0.parent_participant_id == Some(
                facts.caller->Some_0.participant_id,
            )
            &&& facts.operation matches Some(operation)
            &&& operation.session_id == session_id
            &&& operation.participant_id == effect->ResumeChild_child_id
            &&& operation.state is Waiting
            &&& operation.waiting_on_message_id == Some(effect->in_reply_to)
        },
        result matches Ok(Some(plan)) ==> {
            let message = plan.message.message;
            &&& is_sent(session_id, facts, now, plan.message)
            &&& message.message_id == effect->ResumeChild_message_id
            &&& message.destination == effect->ResumeChild_child_id
            &&& message.correlation.operation_id == Some(effect->ResumeChild_operation_id)
            &&& message.correlation.in_reply_to == Some(effect->in_reply_to)
            &&& message.envelope.body == (MessageBody::CorrelatedFeedback {
                operation_id: effect->ResumeChild_operation_id,
                in_reply_to: effect->in_reply_to,
                feedback: effect->feedback,
            })
            &&& !plan.operation_moved
            &&& plan.operation == facts.operation->Some_0
            &&& is_spent(facts.grant, now, plan.grant)
        },
{
}

/// Reminders may be sent to oneself, to the parent or to a child, about an operation of theirs
/// that has not ended. Nothing else can be sent in this way.
pub proof fn only_reminders_are_sent_freely(
    session_id: SessionId,
    effect: HierarchyEffect,
    facts: EffectFacts,
    limits: StoreLimits,
    now: Timestamp,
    result: Result<Option<HierarchyPlan>, StoreError>,
)
    requires
        call_ensures(apply_hierarchy_effect, (session_id, effect, facts, limits, now), result),
        effect is Send,
    ensures
        result matches Ok(Some(_)) <==> {
            let caller = facts.caller->Some_0;
            let target = facts.target->Some_0;
            &&& effect_has_a_place(session_id, facts, limits)
            &&& target.participant_id == caller.participant_id || target.parent_participant_id
                == Some(caller.participant_id) || caller.parent_participant_id == Some(
                target.participant_id,
            )
            &&& effect->body is Control
            &&& effect->body->Control_command is Reminder
            &&& facts.operation matches Some(operation)
            &&& operation.session_id == session_id
            &&& operation.participant_id == effect->destination
            &&& !has_ended(operation.state)
        },
        result matches Ok(Some(plan)) ==> {
            let message = plan.message.message;
            &&& is_sent(session_id, facts, now, plan.message)
            &&& message.message_id == effect->Send_message_id
            &&& message.destination == effect->destination
            &&& message.correlation.operation_id == Some(effect->body->Control_operation_id)
            &&& message.correlation.in_reply_to is None
            &&& message.envelope.body == effect->body
            &&& !plan.operation_moved
            &&& plan.operation == facts.operation->Some_0
            &&& is_spent(facts.grant, now, plan.grant)
        },
{
}

/// What is not allowed is a denial, not an error. There is an error only for a mailbox whose
/// counts are broken or an operation that cannot be revised once more.
pub proof fn forbidden_effects_are_denied(
    session_id: SessionId,
    effect: HierarchyEffect,
    facts: EffectFacts,
    limits: StoreLimits,
    now: Timestamp,
    result: Result<Option<HierarchyPlan>, StoreError>,
)
    requires
        call_ensures(apply_hierarchy_effect, (session_id, effect, facts, limits, now), result),
    ensures
        facts.caller is None || !facts.authorized || facts.message_exists || facts.target is None
            || facts.operation is None ==> result == Ok::<Option<HierarchyPlan>, StoreError>(None),
        result matches Err(error) ==> error == StoreError::Corrupt,
        facts.counter matches Some(counter) && counter.queued_bytes >= 0 && counter.queued_messages
            >= 0 && counter.queued_bytes + facts.envelope_size > limits.mailbox_queued_bytes
            ==> result == Ok::<Option<HierarchyPlan>, StoreError>(None),
{
}

/// Each effect asks for the capability of its own, over the operation that it is about, or, for
/// sending, over the one who gets the message.
pub proof fn effects_ask_for_their_own_capability(
    session_id: SessionId,
    effect: HierarchyEffect,
    caller: ParticipantSnapshot,
    operation: Option<OperationSnapshot>,
    plan: Option<EffectPlan>,
    named: Option<OperationId>,
)
    requires
        call_ensures(plan_hierarchy_effect, (session_id, effect, caller, operation), plan),
        call_ensures(operation_of, (effect,), named),
    ensures
        plan matches Some(plan) ==> {
            &&& plan.correlation.operation_id == named
            &&& match effect {
                HierarchyEffect::QuestionUpward { operation_id, grant_id, .. } => {
                    &&& plan.requested.capability is MessageQuestion
                    &&& plan.requested.scope == ResourceScope::Operation(operation_id)
                    &&& plan.grant_id == grant_id
                    &&& plan.change == Some(OperationAction::Wait)
                },
                HierarchyEffect::Send { destination, grant_id, .. } => {
                    &&& plan.requested.capability is MessageSend
                    &&& plan.requested.scope == ResourceScope::Participant(destination)
                    &&& plan.grant_id == grant_id
                    &&& plan.change is None
                },
                HierarchyEffect::CancelChild { operation_id, grant_id, .. } => {
                    &&& plan.requested.capability is OperationCancel
                    &&& plan.requested.scope == ResourceScope::Operation(operation_id)
                    &&& plan.grant_id == grant_id
                    &&& plan.change == Some(OperationAction::RequestCancel)
                },
                HierarchyEffect::ResumeChild { operation_id, grant_id, .. } => {
                    &&& plan.requested.capability is OperationResume
                    &&& plan.requested.scope == ResourceScope::Operation(operation_id)
                    &&& plan.grant_id == grant_id
                    &&& plan.change is None
                },
            }
        },
{
}

/// What is written of an effect is what was decided; of a denied one only the denial.
pub proof fn effects_write_what_was_decided(
    decided: Option<HierarchyPlan>,
    now: Timestamp,
    writes: EffectWrites,
)
    requires
        call_ensures(write_hierarchy_effect, (decided, now), writes),
    ensures
        writes.time_floor == now,
        writes.told_allowed == (decided is Some),
        writes.answer is Allowed <==> decided is Some,
        decided is None ==> writes.message is None && writes.operation is None && writes.grant
            is None,
        decided matches Some(plan) ==> {
            &&& writes.message == Some(plan.message)
            &&& writes.operation is Some <==> plan.operation_moved
            &&& writes.operation matches Some(operation) ==> operation == plan.operation
            &&& writes.grant == plan.grant
            &&& writes.answer->message == plan.message.message
            &&& writes.answer->operation == plan.operation
        },
{
}

/// A recorded denial can be repeated; a recorded message must still be there as it was.
pub proof fn recorded_effects_are_checked(
    recorded: EffectAnswer,
    current: Option<MessageSnapshot>,
    result: Result<(), StoreError>,
)
    requires
        call_ensures(validate_effect_replay, (recorded, current), result),
    ensures
        recorded is Denied ==> result is Ok,
        recorded is Allowed ==> (result is Ok <==> current == Some(recorded->message)),
        result matches Err(error) ==> error == StoreError::Corrupt,
{
}

/// A subtree is cancelled from a participant of the session.
pub proof fn subtrees_start_in_their_session(
    session_id: SessionId,
    root: Option<ParticipantSnapshot>,
    result: Result<(), StoreError>,
)
    requires
        call_ensures(validate_subtree_root, (session_id, root), result),
    ensures
        result is Ok <==> (root matches Some(root) && root.session_id == session_id),
        result matches Err(error) ==> error == StoreError::Invalid,
{
}

/// A cancellation that is read again tells the operation as it is now, with a notification
/// exactly when there was one.
pub proof fn cancellations_are_read_again(
    recorded: CancellationRecord,
    operation: Option<OperationSnapshot>,
    notification: Option<MessageSnapshot>,
    result: Result<CancellationRecord, StoreError>,
)
    requires
        call_ensures(refresh_cancellation, (recorded, operation, notification), result),
    ensures
        result is Ok <==> operation is Some && (recorded.notification is Some ==> notification
            is Some),
        result matches Ok(read) ==> {
            &&& Some(read.operation) == operation
            &&& recorded.notification is Some ==> read.notification == notification
            &&& recorded.notification is None ==> read.notification is None
        },
        result matches Err(error) ==> error == StoreError::Corrupt,
{
}

/// Only the parent, in the session, learns how its child is, and of an operation only if it is
/// the child's. Whoever owns the session gets an answer that is recorded.
pub proof fn parents_see_their_children(
    query: AuthorizedStatus,
    owned: bool,
    caller: Option<ParticipantSnapshot>,
    target: Option<ParticipantSnapshot>,
    authorized: bool,
    operation: Option<OperationSnapshot>,
    reply: StatusReply,
    requested: ScopedCapability,
)
    requires
        call_ensures(
            authorized_status,
            (query, owned, caller, target, authorized, operation),
            reply,
        ),
        call_ensures(status_authority, (query,), requested),
    ensures
        requested.capability is ParticipantStatus,
        requested.scope == ResourceScope::Participant(query.target_participant_id),
        reply.recorded == owned,
        reply.answer is Some <==> {
            &&& owned
            &&& authorized
            &&& caller matches Some(above)
            &&& target matches Some(below)
            &&& above.session_id == query.session_id
            &&& below.session_id == query.session_id
            &&& below.parent_participant_id == Some(above.participant_id)
            &&& query.operation_id is Some ==> (operation matches Some(found) && found.session_id
                == query.session_id && found.participant_id == below.participant_id)
        },
        reply.answer matches Some(answer) ==> {
            &&& target == Some(answer.participant)
            &&& query.operation_id is Some ==> answer.operation == operation
            &&& query.operation_id is None ==> answer.operation is None
        },
{
}

} // verus!
