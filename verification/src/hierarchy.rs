//! What participants may do to those directly above and below them.

use crate::authority::{
    grant_usable, is_grant_usable, spend_grant, spent, GrantSnapshot, ResourceScope,
    ScopedCapability, StoreCapability,
};
use crate::error::StoreError;
use crate::ids::{
    Digest, GrantId, MessageId, OperationId, ParticipantId, RequestId, Revision, SessionId,
};
use crate::ledger::{
    recorded_requests_are_final, replay_outcome, same_request, LedgerRow, Request,
};
use crate::mailbox::{
    make_queued_message, message_room, queue_counters, queued_message, ControlKind, Correlation,
    EnqueueMessage, Envelope, MailboxCounter, MessageBody, MessagePlan, MessagePriority,
    MessageSnapshot, StoreLimits,
};
use crate::operation::{
    next_operation_state, next_state, OperationAction, OperationSnapshot, OperationState,
    OutcomeKind, ParticipantSnapshot, TerminalOutcome,
};
use crate::time::Timestamp;
use vstd::prelude::*;

verus! {

/// What a participant wants to do to another.
#[derive(Clone, Copy, PartialEq, Eq, Debug, Structural)]
pub enum HierarchyEffect {
    /// To ask its parent a question, and wait for the answer.
    QuestionUpward {
        message_id: MessageId,
        operation_id: OperationId,
        delivered_message_id: MessageId,
        code: Digest,
        grant_id: Option<GrantId>,
    },
    /// To send a message to itself, its parent or a child.
    Send {
        message_id: MessageId,
        destination: ParticipantId,
        body: MessageBody,
        grant_id: Option<GrantId>,
    },
    /// To have an operation of a child cancelled.
    CancelChild {
        message_id: MessageId,
        child_id: ParticipantId,
        operation_id: OperationId,
        grant_id: Option<GrantId>,
    },
    /// To answer the question of a child.
    ResumeChild {
        message_id: MessageId,
        child_id: ParticipantId,
        operation_id: OperationId,
        in_reply_to: MessageId,
        feedback: Digest,
        grant_id: Option<GrantId>,
    },
}

/// The operation that an effect is about.
pub open spec fn effect_operation(effect: HierarchyEffect) -> Option<OperationId> {
    match effect {
        HierarchyEffect::QuestionUpward { operation_id, .. }
        | HierarchyEffect::CancelChild { operation_id, .. }
        | HierarchyEffect::ResumeChild { operation_id, .. } => Some(operation_id),
        HierarchyEffect::Send { body, .. } => match body {
            MessageBody::Control { operation_id, .. } => Some(operation_id),
            _ => None,
        },
    }
}

/// The operation that an effect is about, where it names one.
pub fn operation_of(effect: HierarchyEffect) -> (operation: Option<OperationId>)
    ensures
        operation == effect_operation(effect),
{
    match effect {
        HierarchyEffect::QuestionUpward { operation_id, .. }
        | HierarchyEffect::CancelChild { operation_id, .. }
        | HierarchyEffect::ResumeChild { operation_id, .. } => Some(operation_id),
        HierarchyEffect::Send { body, .. } => match body {
            MessageBody::Control { operation_id, .. } => Some(operation_id),
            _ => None,
        },
    }
}

/// What an effect comes to: a message, the authority that it needs, and perhaps a move of the
/// operation.
#[derive(Clone, Copy, PartialEq, Eq, Debug, Structural)]
pub struct EffectPlan {
    pub message_id: MessageId,
    pub destination: ParticipantId,
    pub body: MessageBody,
    pub correlation: Correlation,
    pub grant_id: Option<GrantId>,
    pub requested: ScopedCapability,
    pub change: Option<OperationAction>,
}

/// What an effect of a participant comes to; nothing where it cannot be.
///
/// A question is about the running operation of the asker, which was started by the named
/// message and waits for nothing. Only a reminder about a live operation of its destination is
/// sent freely. Only a live operation of the child is cancelled, and only one that waits for the
/// answer is resumed.
pub open spec fn planned(
    session_id: SessionId,
    effect: HierarchyEffect,
    caller: ParticipantSnapshot,
    operation: Option<OperationSnapshot>,
) -> Option<EffectPlan> {
    match (effect, operation) {
        (
            HierarchyEffect::QuestionUpward {
                message_id,
                operation_id,
                delivered_message_id,
                code,
                grant_id,
            },
            Some(operation),
        ) => if caller.parent_participant_id is Some && operation.session_id == session_id
            && operation.participant_id == caller.participant_id && operation.input_message_id
            == delivered_message_id && operation.state == OperationState::Running
            && operation.waiting_on_message_id is None {
            Some(
                EffectPlan {
                    message_id,
                    destination: caller.parent_participant_id->Some_0,
                    body: MessageBody::Question { operation_id, code },
                    correlation: Correlation {
                        operation_id: Some(operation_id),
                        in_reply_to: None,
                    },
                    grant_id,
                    requested: ScopedCapability {
                        capability: StoreCapability::MessageQuestion,
                        scope: ResourceScope::Operation(operation_id),
                    },
                    change: Some(OperationAction::Wait),
                },
            )
        } else {
            None
        },
        (
            HierarchyEffect::Send { message_id, destination, body, grant_id },
            Some(operation),
        ) => match body {
            MessageBody::Control {
                operation_id,
                command: ControlKind::Reminder,
            } => if operation.session_id == session_id && operation.participant_id == destination
                && !operation.state.terminal() {
                Some(
                    EffectPlan {
                        message_id,
                        destination,
                        body,
                        correlation: Correlation {
                            operation_id: Some(operation_id),
                            in_reply_to: None,
                        },
                        grant_id,
                        requested: ScopedCapability {
                            capability: StoreCapability::MessageSend,
                            scope: ResourceScope::Participant(destination),
                        },
                        change: None,
                    },
                )
            } else {
                None
            },
            _ => None,
        },
        (
            HierarchyEffect::CancelChild { message_id, child_id, operation_id, grant_id },
            Some(operation),
        ) => if operation.session_id == session_id && operation.participant_id == child_id
            && !operation.state.terminal() && operation.state != OperationState::Cancelling {
            Some(
                EffectPlan {
                    message_id,
                    destination: child_id,
                    body: MessageBody::Control { operation_id, command: ControlKind::Cancel },
                    correlation: Correlation {
                        operation_id: Some(operation_id),
                        in_reply_to: None,
                    },
                    grant_id,
                    requested: ScopedCapability {
                        capability: StoreCapability::OperationCancel,
                        scope: ResourceScope::Operation(operation_id),
                    },
                    change: Some(OperationAction::RequestCancel),
                },
            )
        } else {
            None
        },
        (
            HierarchyEffect::ResumeChild {
                message_id,
                child_id,
                operation_id,
                in_reply_to,
                feedback,
                grant_id,
            },
            Some(operation),
        ) => if operation.session_id == session_id && operation.participant_id == child_id
            && operation.state == OperationState::Waiting && operation.waiting_on_message_id
            == Some(in_reply_to) {
            Some(
                EffectPlan {
                    message_id,
                    destination: child_id,
                    body: MessageBody::CorrelatedFeedback { operation_id, in_reply_to, feedback },
                    correlation: Correlation {
                        operation_id: Some(operation_id),
                        in_reply_to: Some(in_reply_to),
                    },
                    grant_id,
                    requested: ScopedCapability {
                        capability: StoreCapability::OperationResume,
                        scope: ResourceScope::Operation(operation_id),
                    },
                    change: None,
                },
            )
        } else {
            None
        },
        (_, None) => None,
    }
}

/// Works out what an effect of a participant comes to.
///
/// `operation` is the operation that the effect is about, where it is there.
pub fn plan_hierarchy_effect(
    session_id: SessionId,
    effect: HierarchyEffect,
    caller: ParticipantSnapshot,
    operation: Option<OperationSnapshot>,
) -> (plan: Option<EffectPlan>)
    ensures
        plan == planned(session_id, effect, caller, operation),
{
    let operation: OperationSnapshot = match operation {
        Some(operation) => operation,
        None => {
            return None;
        },
    };
    if operation.session_id != session_id {
        return None;
    }
    match effect {
        HierarchyEffect::QuestionUpward {
            message_id,
            operation_id,
            delivered_message_id,
            code,
            grant_id,
        } => match caller.parent_participant_id {
            Some(destination) => {
                if operation.participant_id != caller.participant_id || operation.input_message_id
                    != delivered_message_id || operation.state != OperationState::Running
                    || operation.waiting_on_message_id.is_some() {
                    return None;
                }
                Some(
                    EffectPlan {
                        message_id,
                        destination,
                        body: MessageBody::Question { operation_id, code },
                        correlation: Correlation {
                            operation_id: Some(operation_id),
                            in_reply_to: None,
                        },
                        grant_id,
                        requested: ScopedCapability {
                            capability: StoreCapability::MessageQuestion,
                            scope: ResourceScope::Operation(operation_id),
                        },
                        change: Some(OperationAction::Wait),
                    },
                )
            },
            None => None,
        },
        HierarchyEffect::Send { message_id, destination, body, grant_id } => match body {
            MessageBody::Control { operation_id, command: ControlKind::Reminder } => {
                if operation.participant_id != destination || operation.state.is_terminal() {
                    return None;
                }
                Some(
                    EffectPlan {
                        message_id,
                        destination,
                        body,
                        correlation: Correlation {
                            operation_id: Some(operation_id),
                            in_reply_to: None,
                        },
                        grant_id,
                        requested: ScopedCapability {
                            capability: StoreCapability::MessageSend,
                            scope: ResourceScope::Participant(destination),
                        },
                        change: None,
                    },
                )
            },
            _ => None,
        },
        HierarchyEffect::CancelChild { message_id, child_id, operation_id, grant_id } => {
            if operation.participant_id != child_id || next_operation_state(
                operation.state,
                OperationAction::RequestCancel,
            ).is_none() {
                return None;
            }
            Some(
                EffectPlan {
                    message_id,
                    destination: child_id,
                    body: MessageBody::Control { operation_id, command: ControlKind::Cancel },
                    correlation: Correlation {
                        operation_id: Some(operation_id),
                        in_reply_to: None,
                    },
                    grant_id,
                    requested: ScopedCapability {
                        capability: StoreCapability::OperationCancel,
                        scope: ResourceScope::Operation(operation_id),
                    },
                    change: Some(OperationAction::RequestCancel),
                },
            )
        },
        HierarchyEffect::ResumeChild {
            message_id,
            child_id,
            operation_id,
            in_reply_to,
            feedback,
            grant_id,
        } => {
            if operation.participant_id != child_id || operation.state != OperationState::Waiting
                || operation.waiting_on_message_id != Some(in_reply_to) {
                return None;
            }
            Some(
                EffectPlan {
                    message_id,
                    destination: child_id,
                    body: MessageBody::CorrelatedFeedback { operation_id, in_reply_to, feedback },
                    correlation: Correlation {
                        operation_id: Some(operation_id),
                        in_reply_to: Some(in_reply_to),
                    },
                    grant_id,
                    requested: ScopedCapability {
                        capability: StoreCapability::OperationResume,
                        scope: ResourceScope::Operation(operation_id),
                    },
                    change: None,
                },
            )
        },
    }
}

/// Whether two participants stand as an effect needs it: the target below the caller, above it,
/// or either or the caller itself.
pub open spec fn directly_related(
    session_id: SessionId,
    effect: HierarchyEffect,
    caller: ParticipantSnapshot,
    target: Option<ParticipantSnapshot>,
) -> bool {
    &&& target matches Some(target)
    &&& target.session_id == session_id
    &&& ({
        let below = target.parent_participant_id == Some(caller.participant_id);
        let above = caller.parent_participant_id == Some(target.participant_id);
        match effect {
            HierarchyEffect::CancelChild { .. } | HierarchyEffect::ResumeChild { .. } => below,
            HierarchyEffect::QuestionUpward { .. } => above,
            HierarchyEffect::Send { .. } => target.participant_id == caller.participant_id || below
                || above,
        }
    })
}

fn is_directly_related(
    session_id: SessionId,
    effect: HierarchyEffect,
    caller: ParticipantSnapshot,
    target: Option<ParticipantSnapshot>,
) -> (result: bool)
    ensures
        result == directly_related(session_id, effect, caller, target),
{
    match target {
        Some(target) => {
            if target.session_id != session_id {
                return false;
            }
            let below: bool = target.parent_participant_id == Some(caller.participant_id);
            let above: bool = caller.parent_participant_id == Some(target.participant_id);
            match effect {
                HierarchyEffect::CancelChild { .. } | HierarchyEffect::ResumeChild { .. } => below,
                HierarchyEffect::QuestionUpward { .. } => above,
                HierarchyEffect::Send { .. } => target.participant_id == caller.participant_id
                    || below || above,
            }
        },
        None => false,
    }
}

/// What was found for an effect of a participant.
#[derive(Clone, Copy, PartialEq, Eq, Debug, Structural)]
pub struct EffectFacts {
    /// The caller, where it is there.
    pub caller: Option<ParticipantSnapshot>,
    /// The operation that the effect is about, where it is there.
    pub operation: Option<OperationSnapshot>,
    /// The participant that the message goes to, where it is there.
    pub target: Option<ParticipantSnapshot>,
    /// Whether the policy of the caller, with the grant, allows what the effect needs.
    pub authorized: bool,
    pub grant: Option<GrantSnapshot>,
    /// Whether a message already has the identity.
    pub message_exists: bool,
    /// The mailbox that the message goes to, where there is one.
    pub counter: Option<MailboxCounter>,
    /// The size of the envelope, in bytes.
    pub envelope_size: u64,
    /// The priority that messages of this kind have.
    pub priority: MessagePriority,
}

/// An effect that was carried out: the message, the operation that it is about, whether that
/// was moved, and what is written of the grant.
#[derive(Clone, Copy, PartialEq, Eq, Debug, Structural)]
pub struct HierarchyPlan {
    pub message: MessagePlan,
    pub operation: OperationSnapshot,
    pub operation_moved: bool,
    pub grant: Option<GrantSnapshot>,
}

/// The message of an effect.
pub open spec fn effect_message(
    session_id: SessionId,
    caller: ParticipantSnapshot,
    plan: EffectPlan,
    facts: EffectFacts,
) -> EnqueueMessage {
    EnqueueMessage {
        session_id,
        message_id: plan.message_id,
        source: caller.participant_id,
        destination: plan.destination,
        correlation: plan.correlation,
        envelope: Envelope { body: plan.body, size: facts.envelope_size },
        priority: facts.priority,
    }
}

/// An operation after the move that an effect makes; nothing where its revision is exhausted.
pub open spec fn moved_by_effect(
    operation: OperationSnapshot,
    plan: EffectPlan,
    now: Timestamp,
) -> Option<OperationSnapshot> {
    match plan.change {
        None => Some(operation),
        Some(action) => match operation.revision.spec_next() {
            None => None,
            Some(revision) => Some(
                OperationSnapshot {
                    state: next_state(operation.state, action)->Some_0,
                    revision,
                    updated_at: now.spec_max(operation.updated_at),
                    waiting_on_message_id: if action == OperationAction::Wait {
                        Some(plan.message_id)
                    } else {
                        None
                    },
                    ..operation
                },
            ),
        },
    }
}

/// Whether an effect is denied before its message is placed.
pub open spec fn effect_denied(
    session_id: SessionId,
    effect: HierarchyEffect,
    facts: EffectFacts,
) -> bool {
    ||| facts.caller is None
    ||| facts.caller->Some_0.session_id != session_id
    ||| planned(session_id, effect, facts.caller->Some_0, facts.operation) is None
    ||| !directly_related(session_id, effect, facts.caller->Some_0, facts.target)
    ||| !facts.authorized
    ||| !grant_usable(facts.grant)
    ||| facts.message_exists
}

/// The outcome of an effect of a participant: nothing where it is denied.
pub open spec fn effect_outcome(
    session_id: SessionId,
    effect: HierarchyEffect,
    facts: EffectFacts,
    limits: StoreLimits,
    now: Timestamp,
) -> Result<Option<HierarchyPlan>, StoreError> {
    if effect_denied(session_id, effect, facts) {
        Ok(None)
    } else {
        let caller = facts.caller->Some_0;
        let plan = planned(session_id, effect, caller, facts.operation)->Some_0;
        match message_room(facts.counter, facts.envelope_size, false, limits) {
            Err(refusal) => if refusal.error == StoreError::MailboxQuotaExceeded {
                Ok(None)
            } else {
                Err(refusal.error)
            },
            Ok((sequence, counter)) => match moved_by_effect(facts.operation->Some_0, plan, now) {
                None => Err(StoreError::Corrupt),
                Some(operation) => Ok(
                    Some(
                        HierarchyPlan {
                            message: MessagePlan {
                                message: queued_message(
                                    effect_message(session_id, caller, plan, facts),
                                    sequence,
                                    now,
                                ),
                                counter,
                            },
                            operation,
                            operation_moved: plan.change is Some,
                            grant: spent(facts.grant, now),
                        },
                    ),
                ),
            },
        }
    }
}

/// Decides an effect of a participant, at the time floor of its session.
pub fn apply_hierarchy_effect(
    session_id: SessionId,
    effect: HierarchyEffect,
    facts: EffectFacts,
    limits: StoreLimits,
    now: Timestamp,
) -> (result: Result<Option<HierarchyPlan>, StoreError>)
    requires
        limits.wf(),
    ensures
        result == effect_outcome(session_id, effect, facts, limits, now),
{
    let caller: ParticipantSnapshot = match facts.caller {
        Some(caller) => caller,
        None => {
            return Ok(None);
        },
    };
    if caller.session_id != session_id {
        return Ok(None);
    }
    let plan: EffectPlan = match plan_hierarchy_effect(session_id, effect, caller, facts.operation) {
        Some(plan) => plan,
        None => {
            return Ok(None);
        },
    };
    if !is_directly_related(session_id, effect, caller, facts.target) || !facts.authorized
        || !is_grant_usable(facts.grant) || facts.message_exists {
        return Ok(None);
    }
    let operation: OperationSnapshot = match facts.operation {
        Some(operation) => operation,
        None => {
            return Ok(None);
        },
    };
    let (sequence, counter): (u64, MailboxCounter) = match queue_counters(
        facts.counter,
        facts.envelope_size,
        false,
        limits,
    ) {
        Ok(room) => room,
        Err(refusal) => {
            return match refusal.error {
                StoreError::MailboxQuotaExceeded => Ok(None),
                error => Err(error),
            };
        },
    };
    let after: OperationSnapshot = match plan.change {
        None => operation,
        Some(action) => match (
            next_operation_state(operation.state, action),
            operation.revision.next(),
        ) {
            (Some(state), Some(revision)) => OperationSnapshot {
                state,
                revision,
                updated_at: now.later(operation.updated_at),
                waiting_on_message_id: if action == OperationAction::Wait {
                    Some(plan.message_id)
                } else {
                    None
                },
                ..operation
            },
            _ => {
                return Err(StoreError::Corrupt);
            },
        },
    };
    let message: MessageSnapshot = make_queued_message(
        EnqueueMessage {
            session_id,
            message_id: plan.message_id,
            source: caller.participant_id,
            destination: plan.destination,
            correlation: plan.correlation,
            envelope: Envelope { body: plan.body, size: facts.envelope_size },
            priority: facts.priority,
        },
        sequence,
        now,
    );
    Ok(
        Some(
            HierarchyPlan {
                message: MessagePlan { message, counter },
                operation: after,
                operation_moved: plan.change.is_some(),
                grant: spend_grant(facts.grant, now),
            },
        ),
    )
}

/// Effects reach no further than one level: the message goes to the caller itself, its parent,
/// or one of its children, in the same session; and the operation stays sound.
pub proof fn effects_stay_close(
    session_id: SessionId,
    effect: HierarchyEffect,
    facts: EffectFacts,
    limits: StoreLimits,
    now: Timestamp,
)
    requires
        facts.operation matches Some(operation) ==> operation.sound(),
    ensures
        effect_outcome(session_id, effect, facts, limits, now) matches Ok(Some(plan)) ==> {
            let caller = facts.caller->Some_0;
            let target = facts.target->Some_0;
            &&& facts.authorized
            &&& caller.session_id == session_id
            &&& target.session_id == session_id
            &&& plan.message.message.source == caller.participant_id
            &&& (target.participant_id == caller.participant_id || target.parent_participant_id
                == Some(caller.participant_id) || caller.parent_participant_id == Some(
                target.participant_id,
            ))
            &&& plan.operation.sound()
            &&& !plan.operation_moved ==> plan.operation == facts.operation->Some_0
        },
{
}

/// A question leaves the asker waiting for exactly the message that carries it, so that its
/// answer, and nothing else, resumes the operation.
pub proof fn questions_wait_for_their_answer(
    session_id: SessionId,
    message_id: MessageId,
    operation_id: OperationId,
    delivered_message_id: MessageId,
    code: Digest,
    grant_id: Option<GrantId>,
    facts: EffectFacts,
    limits: StoreLimits,
    now: Timestamp,
)
    ensures
        effect_outcome(
            session_id,
            HierarchyEffect::QuestionUpward {
                message_id,
                operation_id,
                delivered_message_id,
                code,
                grant_id,
            },
            facts,
            limits,
            now,
        ) matches Ok(Some(plan)) ==> {
            &&& plan.operation.state == OperationState::Waiting
            &&& plan.operation.waiting_on_message_id == Some(message_id)
            &&& plan.message.message.message_id == message_id
        },
{
}

/// The answer to a participant that wished for an effect; it is what the ledger keeps.
#[derive(Clone, Copy, PartialEq, Eq, Debug, Structural)]
pub enum EffectAnswer {
    Denied,
    Allowed { message: MessageSnapshot, operation: OperationSnapshot },
}

/// Everything that is written for an effect that was decided.
#[derive(Clone, Copy, PartialEq, Eq, Debug, Structural)]
pub struct EffectWrites {
    pub message: Option<MessagePlan>,
    pub operation: Option<OperationSnapshot>,
    pub grant: Option<GrantSnapshot>,
    /// Whether the event tells that the effect was allowed, or that it was denied.
    pub told_allowed: bool,
    pub time_floor: Timestamp,
    pub answer: EffectAnswer,
}

/// What is written for an effect that was decided; nothing but the event, the ledger and the time
/// floor where it is denied.
pub open spec fn effect_writes(decided: Option<HierarchyPlan>, now: Timestamp) -> EffectWrites {
    match decided {
        None => EffectWrites {
            message: None,
            operation: None,
            grant: None,
            told_allowed: false,
            time_floor: now,
            answer: EffectAnswer::Denied,
        },
        Some(plan) => EffectWrites {
            message: Some(plan.message),
            operation: if plan.operation_moved {
                Some(plan.operation)
            } else {
                None
            },
            grant: plan.grant,
            told_allowed: true,
            time_floor: now,
            answer: EffectAnswer::Allowed {
                message: plan.message.message,
                operation: plan.operation,
            },
        },
    }
}

/// Tells what is written for an effect that was decided.
pub fn write_hierarchy_effect(decided: Option<HierarchyPlan>, now: Timestamp) -> (writes:
    EffectWrites)
    ensures
        writes == effect_writes(decided, now),
{
    match decided {
        None => EffectWrites {
            message: None,
            operation: None,
            grant: None,
            told_allowed: false,
            time_floor: now,
            answer: EffectAnswer::Denied,
        },
        Some(plan) => EffectWrites {
            message: Some(plan.message),
            operation: if plan.operation_moved {
                Some(plan.operation)
            } else {
                None
            },
            grant: plan.grant,
            told_allowed: true,
            time_floor: now,
            answer: EffectAnswer::Allowed {
                message: plan.message.message,
                operation: plan.operation,
            },
        },
    }
}

/// Whether a recorded answer still stands: the message of an allowed effect is as it was
/// recorded, and a denial stands by itself.
pub open spec fn answer_stands(recorded: EffectAnswer, current: Option<MessageSnapshot>) -> bool {
    recorded matches EffectAnswer::Allowed { message, .. } ==> current == Some(message)
}

/// Checks that a recorded answer still stands.
///
/// `current` is the message that the answer names, where it is there.
pub fn validate_effect_replay(recorded: EffectAnswer, current: Option<MessageSnapshot>) -> (result:
    Result<(), StoreError>)
    ensures
        result == (if answer_stands(recorded, current) {
            Ok::<(), StoreError>(())
        } else {
            Err(StoreError::Corrupt)
        }),
{
    match recorded {
        EffectAnswer::Denied => Ok(()),
        EffectAnswer::Allowed { message, .. } => if current == Some(message) {
            Ok(())
        } else {
            Err(StoreError::Corrupt)
        },
    }
}

/// What the store keeps of a session, as far as effects of participants reach.
pub struct EffectTables {
    pub messages: Map<MessageId, MessageSnapshot>,
    pub mailboxes: Map<ParticipantId, MailboxCounter>,
    pub operations: Map<OperationId, OperationSnapshot>,
    pub grants: Map<GrantId, GrantSnapshot>,
    /// The authority events: of whom, and whether the effect was allowed.
    pub events: Seq<(ParticipantId, bool)>,
    pub ledger: Map<RequestId, EffectAnswer>,
    pub time_floor: Timestamp,
}

/// What the store keeps after an effect was written.
pub open spec fn tables_after(
    tables: EffectTables,
    request_id: RequestId,
    caller: ParticipantId,
    writes: EffectWrites,
) -> EffectTables {
    EffectTables {
        messages: match writes.message {
            Some(plan) => tables.messages.insert(plan.message.message_id, plan.message),
            None => tables.messages,
        },
        mailboxes: match writes.message {
            Some(plan) => tables.mailboxes.insert(plan.message.destination, plan.counter),
            None => tables.mailboxes,
        },
        operations: match writes.operation {
            Some(operation) => tables.operations.insert(operation.operation_id, operation),
            None => tables.operations,
        },
        grants: match writes.grant {
            Some(grant) => tables.grants.insert(grant.grant.id, grant),
            None => tables.grants,
        },
        events: tables.events.push((caller, writes.told_allowed)),
        ledger: tables.ledger.insert(request_id, writes.answer),
        time_floor: writes.time_floor,
    }
}

/// An effect that is denied changes no message, no mailbox, no operation and no grant: one event
/// tells of the denial, the ledger keeps it, and the time floor moves. Asked again, the same
/// request finds the denial in the ledger, and it stands whatever else has changed.
pub proof fn denied_effects_change_nothing(
    session_id: SessionId,
    effect: HierarchyEffect,
    facts: EffectFacts,
    limits: StoreLimits,
    now: Timestamp,
    tables: EffectTables,
    caller: ParticipantId,
    request: Request,
    row: LedgerRow,
    taken: bool,
    current: Option<MessageSnapshot>,
)
    requires
        effect_outcome(session_id, effect, facts, limits, now) == Ok::<
            Option<HierarchyPlan>,
            StoreError,
        >(None),
        same_request(request, row),
        row.outcome@ == "succeeded"@,
    ensures
        ({
            let id = request.context.request_id;
            let after = tables_after(tables, id, caller, effect_writes(None, now));
            &&& after == (EffectTables {
                events: tables.events.push((caller, false)),
                ledger: tables.ledger.insert(id, EffectAnswer::Denied),
                time_floor: now,
                ..tables
            })
            &&& replay_outcome(request, Some(row), taken) == Ok::<bool, StoreError>(true)
            &&& after.ledger[id] == EffectAnswer::Denied
            &&& answer_stands(after.ledger[id], current)
        }),
{
    recorded_requests_are_final(request, request, row, StoreError::Invalid, taken);
}

/// Whether the root of a subtree is a participant of the session.
pub fn validate_subtree_root(session_id: SessionId, root: Option<ParticipantSnapshot>) -> (result:
    Result<(), StoreError>)
    ensures
        result == (if root matches Some(root) && root.session_id == session_id {
            Ok::<(), StoreError>(())
        } else {
            Err(StoreError::Invalid)
        }),
{
    match root {
        Some(root) => if root.session_id == session_id {
            Ok(())
        } else {
            Err(StoreError::Invalid)
        },
        None => Err(StoreError::Invalid),
    }
}

/// What the cancellation of a subtree does to one of its operations.
#[derive(Clone, Copy, PartialEq, Eq, Debug, Structural)]
pub enum CancellationStep {
    /// It has ended, or is being cancelled already.
    Untouched,
    /// It ends at once: nothing runs that could be asked.
    Ended(OperationSnapshot),
    /// Its driver is asked to cancel it.
    Asked { operation: OperationSnapshot, notification: MessagePlan },
}

/// An operation of a subtree, and what was found for asking its driver.
#[derive(Clone, Copy, PartialEq, Eq, Debug, Structural)]
pub struct SubtreeOperation {
    pub operation: OperationSnapshot,
    /// Whether the participant was ever launched.
    pub launch_exists: bool,
    /// The identity of the message that asks, which follows from the request and the operation.
    pub message_id: MessageId,
    /// Whether a message already has that identity.
    pub message_exists: bool,
    /// The mailbox of the participant, where there is one.
    pub counter: Option<MailboxCounter>,
    /// The size of the envelope that asks, in bytes.
    pub envelope_size: u64,
}

/// What the cancellation of a subtree is carried out with.
#[derive(Clone, Copy, PartialEq, Eq, Debug, Structural)]
pub struct CancellationTerms {
    /// The digest under which a cancellation is made known.
    pub cancelled_digest: Digest,
    /// The priority that messages which ask for a cancellation have.
    pub priority: MessagePriority,
    pub limits: StoreLimits,
    pub now: Timestamp,
}

/// Whether an operation can be cancelled without asking a driver: it never came to run.
pub open spec fn driverless(operation: OperationSnapshot, launch_exists: bool) -> bool {
    operation.state == OperationState::Queued || (operation.state == OperationState::Starting
        && !launch_exists)
}

/// An operation that ends at once.
pub open spec fn cancelled(
    operation: OperationSnapshot,
    revision: Revision,
    terms: CancellationTerms,
) -> OperationSnapshot {
    OperationSnapshot {
        state: OperationState::Cancelled,
        waiting_on_message_id: None,
        terminal_outcome: Some(
            TerminalOutcome {
                kind: OutcomeKind::Cancelled,
                public_digest: terms.cancelled_digest,
            },
        ),
        revision,
        updated_at: terms.now.spec_max(operation.updated_at),
        ..operation
    }
}

/// An operation that is being cancelled.
pub open spec fn cancelling(
    operation: OperationSnapshot,
    revision: Revision,
    terms: CancellationTerms,
) -> OperationSnapshot {
    OperationSnapshot {
        state: OperationState::Cancelling,
        waiting_on_message_id: None,
        terminal_outcome: None,
        revision,
        updated_at: terms.now.spec_max(operation.updated_at),
        ..operation
    }
}

/// The message that asks a driver to cancel an operation.
pub open spec fn cancel_message(
    facts: SubtreeOperation,
    terms: CancellationTerms,
) -> EnqueueMessage {
    EnqueueMessage {
        session_id: facts.operation.session_id,
        message_id: facts.message_id,
        source: facts.operation.participant_id,
        destination: facts.operation.participant_id,
        correlation: Correlation {
            operation_id: Some(facts.operation.operation_id),
            in_reply_to: None,
        },
        envelope: Envelope {
            body: MessageBody::Control {
                operation_id: facts.operation.operation_id,
                command: ControlKind::Cancel,
            },
            size: facts.envelope_size,
        },
        priority: terms.priority,
    }
}

/// What the cancellation of a subtree does to an operation.
pub open spec fn cancellation_step(facts: SubtreeOperation, terms: CancellationTerms) -> Result<
    CancellationStep,
    StoreError,
> {
    let operation = facts.operation;
    if operation.state.terminal() || operation.state == OperationState::Cancelling {
        Ok(CancellationStep::Untouched)
    } else {
        match operation.revision.spec_next() {
            None => Err(StoreError::Corrupt),
            Some(revision) => if driverless(operation, facts.launch_exists) {
                Ok(CancellationStep::Ended(cancelled(operation, revision, terms)))
            } else if facts.message_exists {
                Err(StoreError::Invalid)
            } else {
                match message_room(facts.counter, facts.envelope_size, false, terms.limits) {
                    Err(refusal) => Err(refusal.error),
                    Ok((sequence, counter)) => Ok(
                        CancellationStep::Asked {
                            operation: cancelling(operation, revision, terms),
                            notification: MessagePlan {
                                message: queued_message(
                                    cancel_message(facts, terms),
                                    sequence,
                                    terms.now,
                                ),
                                counter,
                            },
                        },
                    ),
                }
            },
        }
    }
}

/// Decides what the cancellation of a subtree does to one of its operations.
pub fn cancel_operation(facts: SubtreeOperation, terms: CancellationTerms) -> (result: Result<
    CancellationStep,
    StoreError,
>)
    requires
        terms.limits.wf(),
    ensures
        result == cancellation_step(facts, terms),
{
    let operation: OperationSnapshot = facts.operation;
    if operation.state.is_terminal() || operation.state == OperationState::Cancelling {
        return Ok(CancellationStep::Untouched);
    }
    let ends: bool = operation.state == OperationState::Queued || (operation.state
        == OperationState::Starting && !facts.launch_exists);
    let revision: Revision = match operation.revision.next() {
        Some(revision) => revision,
        None => {
            return Err(StoreError::Corrupt);
        },
    };
    let updated_at: Timestamp = terms.now.later(operation.updated_at);
    if ends {
        return Ok(
            CancellationStep::Ended(
                OperationSnapshot {
                    state: OperationState::Cancelled,
                    waiting_on_message_id: None,
                    terminal_outcome: Some(
                        TerminalOutcome {
                            kind: OutcomeKind::Cancelled,
                            public_digest: terms.cancelled_digest,
                        },
                    ),
                    revision,
                    updated_at,
                    ..operation
                },
            ),
        );
    }
    if facts.message_exists {
        return Err(StoreError::Invalid);
    }
    let (sequence, counter): (u64, MailboxCounter) = match queue_counters(
        facts.counter,
        facts.envelope_size,
        false,
        terms.limits,
    ) {
        Ok(room) => room,
        Err(refusal) => {
            return Err(refusal.error);
        },
    };
    let message: MessageSnapshot = make_queued_message(
        EnqueueMessage {
            session_id: operation.session_id,
            message_id: facts.message_id,
            source: operation.participant_id,
            destination: operation.participant_id,
            correlation: Correlation {
                operation_id: Some(operation.operation_id),
                in_reply_to: None,
            },
            envelope: Envelope {
                body: MessageBody::Control {
                    operation_id: operation.operation_id,
                    command: ControlKind::Cancel,
                },
                size: facts.envelope_size,
            },
            priority: terms.priority,
        },
        sequence,
        terms.now,
    );
    Ok(
        CancellationStep::Asked {
            operation: OperationSnapshot {
                state: OperationState::Cancelling,
                waiting_on_message_id: None,
                terminal_outcome: None,
                revision,
                updated_at,
                ..operation
            },
            notification: MessagePlan { message, counter },
        },
    )
}

/// What is found for an operation after earlier steps: the mailbox as the last message to the
/// participant left it, and whether an earlier message has the identity.
pub open spec fn found_after(
    facts: SubtreeOperation,
    steps: Seq<CancellationStep>,
) -> SubtreeOperation
    decreases steps.len(),
{
    if steps.len() == 0 {
        facts
    } else {
        let earlier = found_after(facts, steps.drop_last());
        match steps.last() {
            CancellationStep::Asked { notification, .. } => SubtreeOperation {
                counter: if notification.message.destination == facts.operation.participant_id {
                    Some(notification.counter)
                } else {
                    earlier.counter
                },
                message_exists: earlier.message_exists || notification.message.message_id
                    == facts.message_id,
                ..earlier
            },
            _ => earlier,
        }
    }
}

fn find_after(facts: SubtreeOperation, steps: &Vec<CancellationStep>) -> (found: SubtreeOperation)
    ensures
        found == found_after(facts, steps@),
{
    let mut found: SubtreeOperation = facts;
    let mut index: usize = 0;
    while index < steps.len()
        invariant
            index <= steps.len(),
            found == found_after(facts, steps@.take(index as int)),
        decreases steps.len() - index,
    {
        assert(steps@.take(index + 1).drop_last() =~= steps@.take(index as int));
        match steps[index] {
            CancellationStep::Asked { operation: _, notification } => {
                if notification.message.destination == facts.operation.participant_id {
                    found.counter = Some(notification.counter);
                }
                if notification.message.message_id == facts.message_id {
                    found.message_exists = true;
                }
            },
            _ => {},
        }
        index = index + 1;
    }
    assert(steps@.take(index as int) =~= steps@);
    found
}

/// The steps that the cancellation of a subtree takes, one operation after the other; or the
/// first error.
pub open spec fn subtree_steps(
    operations: Seq<SubtreeOperation>,
    terms: CancellationTerms,
) -> Result<
    Seq<CancellationStep>,
    StoreError,
>
    decreases operations.len(),
{
    if operations.len() == 0 {
        Ok(Seq::empty())
    } else {
        match subtree_steps(operations.drop_last(), terms) {
            Err(error) => Err(error),
            Ok(steps) => match cancellation_step(found_after(operations.last(), steps), terms) {
                Err(error) => Err(error),
                Ok(step) => Ok(steps.push(step)),
            },
        }
    }
}

proof fn lemma_errors_stand(operations: Seq<SubtreeOperation>, terms: CancellationTerms, n: int)
    requires
        0 <= n <= operations.len(),
        subtree_steps(operations.take(n), terms) is Err,
    ensures
        subtree_steps(operations, terms) == subtree_steps(operations.take(n), terms),
    decreases operations.len() - n,
{
    if n < operations.len() {
        assert(operations.take(n + 1).drop_last() =~= operations.take(n));
        lemma_errors_stand(operations, terms, n + 1);
    } else {
        assert(operations.take(n) =~= operations);
    }
}

/// Decides what the cancellation of a subtree does to each of its operations, in order.
pub fn cancel_subtree(
    operations: &Vec<SubtreeOperation>,
    terms: CancellationTerms,
) -> (result: Result<
    Vec<CancellationStep>,
    StoreError,
>)
    requires
        terms.limits.wf(),
    ensures
        subtree_steps(operations@, terms) == (match result {
            Ok(steps) => Ok::<Seq<CancellationStep>, StoreError>(steps@),
            Err(error) => Err(error),
        }),
{
    let mut steps: Vec<CancellationStep> = Vec::new();
    let mut index: usize = 0;
    assert(operations@.take(0) =~= Seq::empty());
    assert(steps@ =~= Seq::empty());
    while index < operations.len()
        invariant
            index <= operations.len(),
            terms.limits.wf(),
            subtree_steps(operations@.take(index as int), terms) == Ok::<
                Seq<CancellationStep>,
                StoreError,
            >(steps@),
        decreases operations.len() - index,
    {
        assert(operations@.take(index + 1).drop_last() =~= operations@.take(index as int));
        let facts: SubtreeOperation = find_after(operations[index], &steps);
        match cancel_operation(facts, terms) {
            Ok(step) => {
                steps.push(step);
            },
            Err(error) => {
                proof {
                    lemma_errors_stand(operations@, terms, index + 1);
                }
                return Err(error);
            },
        }
        index = index + 1;
    }
    assert(operations@.take(index as int) =~= operations@);
    Ok(steps)
}

/// After the cancellation of a subtree none of its operations goes on: each has ended or is being
/// cancelled, is sound, and stays as it is if the cancellation is repeated.
pub proof fn cancelled_operations_do_not_go_on(facts: SubtreeOperation, terms: CancellationTerms)
    requires
        facts.operation.sound(),
    ensures
        ({
            let step = cancellation_step(facts, terms);
            let after = match step {
                Ok(CancellationStep::Ended(after)) => after,
                Ok(CancellationStep::Asked { operation, .. }) => operation,
                _ => facts.operation,
            };
            step is Ok ==> {
                &&& after.sound()
                &&& (after.state.terminal() || after.state == OperationState::Cancelling)
                &&& cancellation_step(
                    SubtreeOperation { operation: after, ..facts },
                    terms,
                ) == Ok::<CancellationStep, StoreError>(CancellationStep::Untouched)
            }
        }),
{
}

/// Every operation of a subtree is dealt with, and a driver is asked about exactly the operations
/// that are then being cancelled, with a message in the mailbox of its own participant.
pub proof fn subtree_cancellations_are_complete(
    operations: Seq<SubtreeOperation>,
    terms: CancellationTerms,
    index: int,
)
    requires
        subtree_steps(operations, terms) is Ok,
        0 <= index < operations.len(),
    ensures
        ({
            let steps = subtree_steps(operations, terms)->Ok_0;
            let operation = operations[index].operation;
            &&& steps.len() == operations.len()
            &&& match steps[index] {
                CancellationStep::Untouched => operation.state.terminal() || operation.state
                    == OperationState::Cancelling,
                CancellationStep::Ended(after) => after.state == OperationState::Cancelled
                    && after.operation_id == operation.operation_id,
                CancellationStep::Asked { operation: after, notification } => {
                    &&& after.state == OperationState::Cancelling
                    &&& after.operation_id == operation.operation_id
                    &&& notification.message.destination == operation.participant_id
                    &&& asks_to_cancel(notification.message, operation.operation_id)
                },
            }
        }),
    decreases operations.len(),
{
    let last = operations.len() - 1;
    let steps = subtree_steps(operations.drop_last(), terms)->Ok_0;
    lemma_found_after_keeps(operations.last(), steps);
    if operations.len() > 1 {
        subtree_cancellations_are_complete(
            operations.drop_last(),
            terms,
            if index < last {
                index
            } else {
                0
            },
        );
    }
}

proof fn lemma_found_after_keeps(facts: SubtreeOperation, steps: Seq<CancellationStep>)
    ensures
        found_after(facts, steps).operation == facts.operation,
    decreases steps.len(),
{
    if steps.len() > 0 {
        lemma_found_after_keeps(facts, steps.drop_last());
    }
}

/// Whether a message asks for the cancellation of an operation.
pub open spec fn asks_to_cancel(message: MessageSnapshot, operation_id: OperationId) -> bool {
    message.envelope.body == (MessageBody::Control { operation_id, command: ControlKind::Cancel })
}

/// Finds the first message that asks for the cancellation of an operation.
pub fn find_cancel_notification(
    messages: &Vec<MessageSnapshot>,
    operation_id: OperationId,
) -> (found: Option<MessageSnapshot>)
    ensures
        match found {
            Some(message) => exists|i: int|
                {
                    &&& 0 <= i < messages.len()
                    &&& #[trigger] messages[i] == message
                    &&& asks_to_cancel(message, operation_id)
                    &&& forall|j: int|
                        0 <= j < i ==> !asks_to_cancel(#[trigger] messages[j], operation_id)
                },
            None => forall|i: int|
                0 <= i < messages.len() ==> !asks_to_cancel(#[trigger] messages[i], operation_id),
        },
{
    let sought = MessageBody::Control { operation_id, command: ControlKind::Cancel };
    let mut index: usize = 0;
    while index < messages.len()
        invariant
            index <= messages.len(),
            sought == (MessageBody::Control { operation_id, command: ControlKind::Cancel }),
            forall|j: int|
                0 <= j < index ==> !asks_to_cancel(#[trigger] messages[j], operation_id),
        decreases messages.len() - index,
    {
        let message: MessageSnapshot = messages[index];
        if message.envelope.body == sought {
            assert(messages@[index as int] == message);
            return Some(message);
        }
        index = index + 1;
    }
    None
}

/// A record of a cancellation: the operation, and the message that asks for it where there is one.
#[derive(Clone, Copy, PartialEq, Eq, Debug, Structural)]
pub struct CancellationRecord {
    pub operation: OperationSnapshot,
    pub notification: Option<MessageSnapshot>,
}

/// A record of a cancellation as it stands now; what it speaks of must still be there.
///
/// `operation` and `notification` are what is found now under the recorded identities.
pub fn refresh_cancellation(
    recorded: CancellationRecord,
    operation: Option<OperationSnapshot>,
    notification: Option<MessageSnapshot>,
) -> (result: Result<CancellationRecord, StoreError>)
    ensures
        result == (match (operation, recorded.notification, notification) {
            (Some(operation), None, _) => Ok::<CancellationRecord, StoreError>(
                CancellationRecord { operation, notification: None },
            ),
            (Some(operation), Some(_), Some(message)) => Ok(
                CancellationRecord { operation, notification: Some(message) },
            ),
            _ => Err(StoreError::Corrupt),
        }),
{
    match (operation, recorded.notification, notification) {
        (Some(operation), None, _) => Ok(CancellationRecord { operation, notification: None }),
        (Some(operation), Some(_), Some(message)) => Ok(
            CancellationRecord { operation, notification: Some(message) },
        ),
        _ => Err(StoreError::Corrupt),
    }
}

/// A question of a participant about the status of a child.
#[derive(Clone, Copy, PartialEq, Eq, Debug, Structural)]
pub struct AuthorizedStatus {
    pub session_id: SessionId,
    pub caller_participant_id: ParticipantId,
    pub target_participant_id: ParticipantId,
    pub operation_id: Option<OperationId>,
}

/// The authority that a question about the status of a participant needs.
pub fn status_authority(query: AuthorizedStatus) -> (requested: ScopedCapability)
    ensures
        requested == (ScopedCapability {
            capability: StoreCapability::ParticipantStatus,
            scope: ResourceScope::Participant(query.target_participant_id),
        }),
{
    ScopedCapability {
        capability: StoreCapability::ParticipantStatus,
        scope: ResourceScope::Participant(query.target_participant_id),
    }
}

/// The answer to a question about a child: the child, and its operation where one is named.
#[derive(Clone, Copy, PartialEq, Eq, Debug, Structural)]
pub struct StatusAnswer {
    pub participant: ParticipantSnapshot,
    pub operation: Option<OperationSnapshot>,
}

/// The reply to a question about the status of a participant, and whether the ledger keeps it.
#[derive(Clone, Copy, PartialEq, Eq, Debug, Structural)]
pub struct StatusReply {
    /// The answer; nothing where it is denied.
    pub answer: Option<StatusAnswer>,
    pub recorded: bool,
}

/// The reply to a question about the status of a participant.
///
/// A host that does not own the session is denied an answer, and nothing is kept of its question.
pub open spec fn status_reply(
    query: AuthorizedStatus,
    owned: bool,
    caller: Option<ParticipantSnapshot>,
    target: Option<ParticipantSnapshot>,
    authorized: bool,
    operation: Option<OperationSnapshot>,
) -> StatusReply {
    if owned {
        StatusReply {
            answer: status_outcome(query, caller, target, authorized, operation),
            recorded: true,
        }
    } else {
        StatusReply { answer: None, recorded: false }
    }
}

/// The answer to a question about the status of a participant; nothing where it is denied.
///
/// Only the parent is answered, only with authority, and only about operations of the child.
pub open spec fn status_outcome(
    query: AuthorizedStatus,
    caller: Option<ParticipantSnapshot>,
    target: Option<ParticipantSnapshot>,
    authorized: bool,
    operation: Option<OperationSnapshot>,
) -> Option<StatusAnswer> {
    match (caller, target) {
        (Some(caller), Some(target)) => if caller.session_id == query.session_id
            && target.session_id == query.session_id && target.parent_participant_id == Some(
            caller.participant_id,
        ) && authorized {
            match (query.operation_id, operation) {
                (None, _) => Some(StatusAnswer { participant: target, operation: None }),
                (Some(_), Some(operation)) => if operation.session_id == query.session_id
                    && operation.participant_id == target.participant_id {
                    Some(StatusAnswer { participant: target, operation: Some(operation) })
                } else {
                    None
                },
                (Some(_), None) => None,
            }
        } else {
            None
        },
        _ => None,
    }
}

fn answer_status(
    query: AuthorizedStatus,
    caller: Option<ParticipantSnapshot>,
    target: Option<ParticipantSnapshot>,
    authorized: bool,
    operation: Option<OperationSnapshot>,
) -> (answer: Option<StatusAnswer>)
    ensures
        answer == status_outcome(query, caller, target, authorized, operation),
{
    match (caller, target) {
        (Some(caller), Some(target)) => {
            if caller.session_id != query.session_id || target.session_id != query.session_id
                || target.parent_participant_id != Some(caller.participant_id) || !authorized {
                return None;
            }
            match (query.operation_id, operation) {
                (None, _) => Some(StatusAnswer { participant: target, operation: None }),
                (Some(_), Some(operation)) => if operation.session_id == query.session_id
                    && operation.participant_id == target.participant_id {
                    Some(StatusAnswer { participant: target, operation: Some(operation) })
                } else {
                    None
                },
                (Some(_), None) => None,
            }
        },
        _ => None,
    }
}

/// Answers a question about the status of a participant.
///
/// `owned` tells whether the host that asks owns the session, and `operation` is the operation
/// that the question names, where it is there.
pub fn authorized_status(
    query: AuthorizedStatus,
    owned: bool,
    caller: Option<ParticipantSnapshot>,
    target: Option<ParticipantSnapshot>,
    authorized: bool,
    operation: Option<OperationSnapshot>,
) -> (reply: StatusReply)
    ensures
        reply == status_reply(query, owned, caller, target, authorized, operation),
{
    if !owned {
        return StatusReply { answer: None, recorded: false };
    }
    StatusReply {
        answer: answer_status(query, caller, target, authorized, operation),
        recorded: true,
    }
}

} // verus!
