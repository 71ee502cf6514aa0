//! Approvals: what a participant asks leave for, how that is decided, and how leave is used.

use crate::effect::working;
use crate::error::StoreError;
use crate::ids::{
    digest_bytes, is_digest, is_identity, ApprovalId, DeliveryAttemptId, Digest, GrantId,
    MessageId, OperationId, ParticipantId, RequestId, Revision, SessionId,
};
use crate::ledger::{approval_effect_identity_available, RequestContext};
use crate::mailbox::{
    make_queued_message, message_room, queue_counters, queued_message, Correlation, DeliveryState,
    EnqueueMessage, Envelope, MailboxCounter, MessageBody, MessagePlan, MessagePriority,
    MessageSnapshot, RelayedDecision, StoreLimits,
};
use crate::operation::{OperationSnapshot, OperationState, ParticipantSnapshot};
use crate::text::{same_text, text_mark, uuid_text};
use crate::time::Timestamp;
use vstd::prelude::*;

verus! {

/// Where a request for leave stands.
#[derive(Clone, Copy, PartialEq, Eq, Debug, Structural)]
pub enum ApprovalStatus {
    Pending,
    Granted,
    Denied,
    Expired,
    Revoked,
    Consumed,
}

/// The stored name of a status.
pub open spec fn status_text(value: ApprovalStatus) -> Seq<char> {
    match value {
        ApprovalStatus::Pending => "pending"@,
        ApprovalStatus::Granted => "granted"@,
        ApprovalStatus::Denied => "denied"@,
        ApprovalStatus::Expired => "expired"@,
        ApprovalStatus::Revoked => "revoked"@,
        ApprovalStatus::Consumed => "consumed"@,
    }
}

/// The stored name of a status.
pub fn approval_status_name(value: ApprovalStatus) -> (name: &'static str)
    ensures
        name@ == status_text(value),
{
    match value {
        ApprovalStatus::Pending => "pending",
        ApprovalStatus::Granted => "granted",
        ApprovalStatus::Denied => "denied",
        ApprovalStatus::Expired => "expired",
        ApprovalStatus::Revoked => "revoked",
        ApprovalStatus::Consumed => "consumed",
    }
}

/// A stored name stands for one value only, so a name that was written is read back as the
/// value it was written for.
pub proof fn approval_status_names_are_distinct(left: ApprovalStatus, right: ApprovalStatus)
    requires
        status_text(left) == status_text(right),
    ensures
        left == right,
{
    reveal_strlit("pending");
    reveal_strlit("granted");
    reveal_strlit("denied");
    reveal_strlit("expired");
    reveal_strlit("revoked");
    reveal_strlit("consumed");
    assert(text_mark(status_text(left)) == text_mark(status_text(right)));
}

/// Where a use of leave stands.
#[derive(Clone, Copy, PartialEq, Eq, Debug, Structural)]
pub enum ApprovalEffectPhase {
    Reserved,
    Succeeded,
    Failed,
    Uncertain,
}

/// The stored name of a phase.
pub open spec fn use_phase_text(value: ApprovalEffectPhase) -> Seq<char> {
    match value {
        ApprovalEffectPhase::Reserved => "reserved"@,
        ApprovalEffectPhase::Succeeded => "succeeded"@,
        ApprovalEffectPhase::Failed => "failed"@,
        ApprovalEffectPhase::Uncertain => "uncertain"@,
    }
}

/// The stored name of a phase.
pub fn approval_effect_phase(value: ApprovalEffectPhase) -> (name: &'static str)
    ensures
        name@ == use_phase_text(value),
{
    match value {
        ApprovalEffectPhase::Reserved => "reserved",
        ApprovalEffectPhase::Succeeded => "succeeded",
        ApprovalEffectPhase::Failed => "failed",
        ApprovalEffectPhase::Uncertain => "uncertain",
    }
}

/// A stored name stands for one value only, so a name that was written is read back as the
/// value it was written for.
pub proof fn approval_phase_names_are_distinct(
    left: ApprovalEffectPhase,
    right: ApprovalEffectPhase,
)
    requires
        use_phase_text(left) == use_phase_text(right),
    ensures
        left == right,
{
    reveal_strlit("reserved");
    reveal_strlit("succeeded");
    reveal_strlit("failed");
    reveal_strlit("uncertain");
    assert(text_mark(use_phase_text(left)) == text_mark(use_phase_text(right)));
}

/// What can be done about approvals.
#[derive(Clone, Copy, PartialEq, Eq, Debug, Structural)]
pub enum ApprovalAction {
    Request,
    Approve,
    Deny,
    Expire,
    Revoke,
    Consume,
    FinishEffect,
}

/// The stored name of an action.
pub open spec fn approval_action_text(value: ApprovalAction) -> Seq<char> {
    match value {
        ApprovalAction::Request => "approval.request"@,
        ApprovalAction::Approve => "approval.approve"@,
        ApprovalAction::Deny => "approval.deny"@,
        ApprovalAction::Expire => "approval.expire"@,
        ApprovalAction::Revoke => "approval.revoke"@,
        ApprovalAction::Consume => "approval.consume"@,
        ApprovalAction::FinishEffect => "approval.effect.finish"@,
    }
}

/// The stored name of an action.
pub fn approval_action_name(value: ApprovalAction) -> (name: &'static str)
    ensures
        name@ == approval_action_text(value),
{
    match value {
        ApprovalAction::Request => "approval.request",
        ApprovalAction::Approve => "approval.approve",
        ApprovalAction::Deny => "approval.deny",
        ApprovalAction::Expire => "approval.expire",
        ApprovalAction::Revoke => "approval.revoke",
        ApprovalAction::Consume => "approval.consume",
        ApprovalAction::FinishEffect => "approval.effect.finish",
    }
}

/// A stored name stands for one value only, so a name that was written is read back as the
/// value it was written for.
pub proof fn approval_action_names_are_distinct(left: ApprovalAction, right: ApprovalAction)
    requires
        approval_action_text(left) == approval_action_text(right),
    ensures
        left == right,
{
    reveal_strlit("approval.request");
    reveal_strlit("approval.approve");
    reveal_strlit("approval.deny");
    reveal_strlit("approval.expire");
    reveal_strlit("approval.revoke");
    reveal_strlit("approval.consume");
    reveal_strlit("approval.effect.finish");
    assert(text_mark(approval_action_text(left)) == text_mark(approval_action_text(right)));
}

/// The type of the event that tells an action.
pub open spec fn approval_event_text(value: ApprovalAction) -> Seq<char> {
    match value {
        ApprovalAction::Request => "approval.requested"@,
        ApprovalAction::Approve => "approval.granted"@,
        ApprovalAction::Deny => "approval.denied"@,
        ApprovalAction::Expire => "approval.expired"@,
        ApprovalAction::Revoke => "approval.revoked"@,
        ApprovalAction::Consume => "approval.consumed"@,
        ApprovalAction::FinishEffect => "approval.effect.finished"@,
    }
}

/// The type of the event that tells an action.
pub fn approval_event_name(value: ApprovalAction) -> (name: &'static str)
    ensures
        name@ == approval_event_text(value),
{
    match value {
        ApprovalAction::Request => "approval.requested",
        ApprovalAction::Approve => "approval.granted",
        ApprovalAction::Deny => "approval.denied",
        ApprovalAction::Expire => "approval.expired",
        ApprovalAction::Revoke => "approval.revoked",
        ApprovalAction::Consume => "approval.consumed",
        ApprovalAction::FinishEffect => "approval.effect.finished",
    }
}

/// An event tells by its type which action it came of.
pub proof fn approval_event_types_are_distinct(left: ApprovalAction, right: ApprovalAction)
    requires
        approval_event_text(left) == approval_event_text(right),
    ensures
        left == right,
{
    reveal_strlit("approval.requested");
    reveal_strlit("approval.granted");
    reveal_strlit("approval.denied");
    reveal_strlit("approval.expired");
    reveal_strlit("approval.revoked");
    reveal_strlit("approval.consumed");
    reveal_strlit("approval.effect.finished");
    assert(text_mark(approval_event_text(left)) == text_mark(approval_event_text(right)));
}

/// A request for leave. Capability, resource and summary are known by their digests.
#[derive(Clone, Copy, PartialEq, Eq, Debug, Structural)]
pub struct ApprovalRequest {
    pub id: ApprovalId,
    pub session_id: SessionId,
    pub requester_id: ParticipantId,
    pub operation_id: OperationId,
    pub source_message_id: MessageId,
    pub source_delivery_attempt_id: DeliveryAttemptId,
    pub coordinator_id: ParticipantId,
    pub capability: Digest,
    pub resource: Digest,
    pub summary: Digest,
    pub status: ApprovalStatus,
    pub expires_at: Timestamp,
    pub grant_id: Option<GrantId>,
    /// Whether the trusted consumer decided it.
    pub decided_by_consumer: bool,
    pub created_at: Timestamp,
    pub decided_at: Option<Timestamp>,
    pub revision: Revision,
}

/// Leave that was given.
#[derive(Clone, Copy, PartialEq, Eq, Debug, Structural)]
pub struct ApprovalGrant {
    pub id: GrantId,
    pub request_id: ApprovalId,
    pub session_id: SessionId,
    pub subject_id: ParticipantId,
    pub operation_id: OperationId,
    pub capability: Digest,
    pub resource_hash: Digest,
    pub max_uses: u32,
    pub used_count: u32,
    pub expires_at: Timestamp,
    pub revoked_at: Option<Timestamp>,
    pub created_at: Timestamp,
    pub revision: Revision,
}

/// A use of leave.
#[derive(Clone, Copy, PartialEq, Eq, Debug, Structural)]
pub struct ApprovalEffect {
    pub effect_id: RequestId,
    pub session_id: SessionId,
    pub grant_id: GrantId,
    pub subject_id: ParticipantId,
    pub operation_id: OperationId,
    pub capability: Digest,
    pub resource_hash: Digest,
    pub phase: ApprovalEffectPhase,
    pub created_at: Timestamp,
    pub finished_at: Option<Timestamp>,
    pub revision: Revision,
}

/// A refusal of something about approvals.
///
/// One that comes before anything was written keeps the time floor that was reached; any other
/// rolls that back too.
#[derive(PartialEq, Eq, Debug)]
pub struct ApprovalRefusal {
    pub error: StoreError,
    pub keeps_time_floor: bool,
}

/// A refusal before anything was written.
pub open spec fn early(error: StoreError) -> ApprovalRefusal {
    ApprovalRefusal { error, keeps_time_floor: true }
}

/// A refusal after something was written.
pub open spec fn late(error: StoreError) -> ApprovalRefusal {
    ApprovalRefusal { error, keeps_time_floor: false }
}

/// A recorded action about approvals, as it is stored: the text of the identity of the caller, the
/// name of the action, and the bytes of the digest.
pub struct RecordedApproval {
    pub caller: String,
    pub action: String,
    pub digest: Vec<u8>,
}

/// Whether a recorded action is the one that is asked for again.
pub open spec fn same_approval(
    context: RequestContext,
    action: ApprovalAction,
    digest: Digest,
    row: RecordedApproval,
) -> bool {
    &&& row.caller@ == uuid_text(context.caller.0)
    &&& row.action@ == approval_action_text(action)
    &&& row.digest@ == digest_bytes(digest)
}

/// Whether an action was carried out before. Another one under the same identity conflicts, and
/// so does anything else that has the identity, which `taken` tells.
pub fn approval_replay(
    context: RequestContext,
    action: ApprovalAction,
    digest: Digest,
    recorded: Option<RecordedApproval>,
    taken: bool,
) -> (result: Result<bool, StoreError>)
    ensures
        result == (match recorded {
            Some(row) => if same_approval(context, action, digest, row) {
                Ok::<bool, StoreError>(true)
            } else {
                Err(StoreError::RequestConflict { request_id: context.request_id })
            },
            None => if taken {
                Err(StoreError::RequestConflict { request_id: context.request_id })
            } else {
                Ok(false)
            },
        }),
{
    match recorded {
        Some(row) => if is_identity(row.caller.as_str(), context.caller.0) && same_text(
            row.action.as_str(),
            approval_action_name(action),
        ) && is_digest(&row.digest, digest) {
            Ok(true)
        } else {
            Err(StoreError::RequestConflict { request_id: context.request_id })
        },
        None => if taken {
            Err(StoreError::RequestConflict { request_id: context.request_id })
        } else {
            Ok(false)
        },
    }
}

/// The most uses of leave that are taken up again at once.
pub const RECOVERY_BATCH_LIMIT: usize = 128;

/// Whether a use of leave is one of the session that was reserved and not finished.
pub open spec fn awaits_recovery(effect: ApprovalEffect, session_id: SessionId) -> bool {
    &&& effect.session_id == session_id
    &&& effect.phase == ApprovalEffectPhase::Reserved
    &&& effect.finished_at is None
}

/// Checks the uses of leave that were found reserved: too many are left for later, and one that
/// does not await recovery is corruption.
pub fn list_reserved_approval_effects(
    effects: &Vec<ApprovalEffect>,
    session_id: SessionId,
) -> (result: Result<(), StoreError>)
    ensures
        result == (if effects@.len() > RECOVERY_BATCH_LIMIT {
            Err::<(), StoreError>(StoreError::Unavailable)
        } else if exists|i: int|
            0 <= i < effects@.len() && !awaits_recovery(#[trigger] effects@[i], session_id) {
            Err(StoreError::Corrupt)
        } else {
            Ok(())
        }),
{
    if effects.len() > RECOVERY_BATCH_LIMIT {
        return Err(StoreError::Unavailable);
    }
    let mut index: usize = 0;
    while index < effects.len()
        invariant
            index <= effects.len(),
            effects.len() <= RECOVERY_BATCH_LIMIT,
            forall|i: int| 0 <= i < index ==> awaits_recovery(#[trigger] effects@[i], session_id),
        decreases effects.len() - index,
    {
        let effect: ApprovalEffect = effects[index];
        if effect.session_id != session_id || effect.phase != ApprovalEffectPhase::Reserved
            || effect.finished_at.is_some() {
            assert(!awaits_recovery(effects@[index as int], session_id));
            return Err(StoreError::Corrupt);
        }
        index = index + 1;
    }
    Ok(())
}

/// A wish for leave.
#[derive(Clone, Copy, PartialEq, Eq, Debug, Structural)]
pub struct RequestApproval {
    pub approval_id: ApprovalId,
    pub session_id: SessionId,
    pub requester_id: ParticipantId,
    pub operation_id: OperationId,
    pub source_message_id: MessageId,
    pub source_delivery_attempt_id: DeliveryAttemptId,
    pub capability: Digest,
    pub resource: Digest,
    pub summary: Digest,
    pub expires_at: Timestamp,
}

/// The message that a wish for leave says it comes of, as it was found.
#[derive(Clone, Copy, PartialEq, Eq, Debug, Structural)]
pub enum CausalMessage {
    Missing,
    Unreadable,
    Found(MessageSnapshot),
}

/// What was found for a wish for leave.
#[derive(Clone, Copy, PartialEq, Eq, Debug, Structural)]
pub struct ApprovalFacts {
    /// Whether the identity is taken.
    pub exists: bool,
    pub requester: Option<ParticipantSnapshot>,
    pub operation: Option<OperationSnapshot>,
    /// The message that the wish says it comes of.
    pub causal: CausalMessage,
    /// Whether the request that comes of the wish is well formed.
    pub well_formed: bool,
}

/// Whether an operation belongs to a participant of a session and goes on.
pub open spec fn operation_live(
    operation: Option<OperationSnapshot>,
    session_id: SessionId,
    participant_id: ParticipantId,
    operation_id: OperationId,
) -> bool {
    &&& operation matches Some(operation)
    &&& operation.operation_id == operation_id
    &&& operation.session_id == session_id
    &&& operation.participant_id == participant_id
    &&& working(operation.state)
}

/// Whether an operation belongs to a participant of a session and goes on.
pub fn approval_operation_live(
    operation: Option<OperationSnapshot>,
    session_id: SessionId,
    participant_id: ParticipantId,
    operation_id: OperationId,
) -> (result: bool)
    ensures
        result == operation_live(operation, session_id, participant_id, operation_id),
{
    match operation {
        Some(operation) => operation.operation_id == operation_id && operation.session_id
            == session_id && operation.participant_id == participant_id && (operation.state
            == OperationState::Running || operation.state == OperationState::Waiting),
        None => false,
    }
}

/// Whether a message is what set an operation going: its input, from the coordinator, accepted
/// in the delivery that the wish names.
pub open spec fn causes(
    causal: MessageSnapshot,
    command: RequestApproval,
    requester: ParticipantSnapshot,
    operation: OperationSnapshot,
) -> bool {
    &&& causal.session_id == command.session_id
    &&& causal.destination == command.requester_id
    &&& causal.source == (match requester.parent_participant_id {
        Some(parent) => parent,
        None => command.requester_id,
    })
    &&& causal.message_id == operation.input_message_id
    &&& causal.correlation.operation_id == Some(command.operation_id)
    &&& causal.envelope.body == (MessageBody::OperationInput {
        operation_id: command.operation_id,
        input_digest: operation.input_digest,
    })
    &&& causal.state matches DeliveryState::Accepted { attempt_id, .. } && attempt_id
        == command.source_delivery_attempt_id
}

/// A request for leave that was just made.
pub open spec fn pending_request(
    command: RequestApproval,
    requester: ParticipantSnapshot,
    now: Timestamp,
) -> ApprovalRequest {
    ApprovalRequest {
        id: command.approval_id,
        session_id: command.session_id,
        requester_id: command.requester_id,
        operation_id: command.operation_id,
        source_message_id: command.source_message_id,
        source_delivery_attempt_id: command.source_delivery_attempt_id,
        coordinator_id: match requester.parent_participant_id {
            Some(parent) => parent,
            None => command.requester_id,
        },
        capability: command.capability,
        resource: command.resource,
        summary: command.summary,
        status: ApprovalStatus::Pending,
        expires_at: command.expires_at,
        grant_id: None,
        decided_by_consumer: false,
        created_at: now,
        decided_at: None,
        revision: Revision(1),
    }
}

/// Whether a wish for leave is granted a hearing: it is in time and new, and its operation goes
/// on.
pub open spec fn request_admissible(
    command: RequestApproval,
    facts: ApprovalFacts,
    now: Timestamp,
) -> bool {
    &&& now.spec_before(command.expires_at)
    &&& !facts.exists
    &&& facts.requester matches Some(requester)
    &&& requester.session_id == command.session_id
    &&& operation_live(
        facts.operation,
        command.session_id,
        command.requester_id,
        command.operation_id,
    )
}

/// The outcome of a wish for leave.
///
/// A message that is missing, unlike one that does not fit, lets the time floor fall back.
pub open spec fn request_outcome(
    command: RequestApproval,
    facts: ApprovalFacts,
    now: Timestamp,
) -> Result<ApprovalRequest, ApprovalRefusal> {
    if !request_admissible(command, facts, now) {
        Err(early(StoreError::Invalid))
    } else {
        let requester = facts.requester->Some_0;
        match facts.causal {
            CausalMessage::Missing => Err(late(StoreError::Invalid)),
            CausalMessage::Unreadable => Err(early(StoreError::Corrupt)),
            CausalMessage::Found(causal) => if !causes(
                causal,
                command,
                requester,
                facts.operation->Some_0,
            ) {
                Err(early(StoreError::Invalid))
            } else if !facts.well_formed {
                Err(late(StoreError::Invalid))
            } else {
                Ok(pending_request(command, requester, now))
            },
        }
    }
}

/// Decides a wish for leave, at the time floor of its session.
pub fn request_approval(command: RequestApproval, facts: ApprovalFacts, now: Timestamp) -> (result:
    Result<ApprovalRequest, ApprovalRefusal>)
    ensures
        result == request_outcome(command, facts, now),
{
    if !now.before(command.expires_at) || facts.exists || !approval_operation_live(
        facts.operation,
        command.session_id,
        command.requester_id,
        command.operation_id,
    ) {
        return Err(ApprovalRefusal { error: StoreError::Invalid, keeps_time_floor: true });
    }
    let (requester, operation): (ParticipantSnapshot, OperationSnapshot) = match (
        facts.requester,
        facts.operation,
    ) {
        (Some(requester), Some(operation)) => (requester, operation),
        _ => {
            return Err(ApprovalRefusal { error: StoreError::Invalid, keeps_time_floor: true });
        },
    };
    if requester.session_id != command.session_id {
        return Err(ApprovalRefusal { error: StoreError::Invalid, keeps_time_floor: true });
    }
    let causal: MessageSnapshot = match facts.causal {
        CausalMessage::Found(causal) => causal,
        CausalMessage::Missing => {
            return Err(ApprovalRefusal { error: StoreError::Invalid, keeps_time_floor: false });
        },
        CausalMessage::Unreadable => {
            return Err(ApprovalRefusal { error: StoreError::Corrupt, keeps_time_floor: true });
        },
    };
    let coordinator_id: ParticipantId = match requester.parent_participant_id {
        Some(parent) => parent,
        None => command.requester_id,
    };
    let accepted: bool = match causal.state {
        DeliveryState::Accepted { attempt_id, .. } => attempt_id
            == command.source_delivery_attempt_id,
        _ => false,
    };
    let input = MessageBody::OperationInput {
        operation_id: command.operation_id,
        input_digest: operation.input_digest,
    };
    if causal.session_id != command.session_id || causal.destination != command.requester_id
        || causal.source != coordinator_id || causal.message_id != operation.input_message_id
        || causal.correlation.operation_id != Some(command.operation_id) || causal.envelope.body
        != input || !accepted {
        return Err(ApprovalRefusal { error: StoreError::Invalid, keeps_time_floor: true });
    }
    if !facts.well_formed {
        return Err(ApprovalRefusal { error: StoreError::Invalid, keeps_time_floor: false });
    }
    Ok(
        ApprovalRequest {
            id: command.approval_id,
            session_id: command.session_id,
            requester_id: command.requester_id,
            operation_id: command.operation_id,
            source_message_id: command.source_message_id,
            source_delivery_attempt_id: command.source_delivery_attempt_id,
            coordinator_id,
            capability: command.capability,
            resource: command.resource,
            summary: command.summary,
            status: ApprovalStatus::Pending,
            expires_at: command.expires_at,
            grant_id: None,
            decided_by_consumer: false,
            created_at: now,
            decided_at: None,
            revision: Revision::initial(),
        },
    )
}

/// The mailbox that a decision is told in.
#[derive(Clone, Copy, PartialEq, Eq, Debug, Structural)]
pub struct RelayFacts {
    /// The identity of the message, which follows from the request and the decision.
    pub message_id: MessageId,
    pub counter: Option<MailboxCounter>,
    /// The size of the envelope that tells the decision, in bytes.
    pub envelope_size: u64,
}

/// The decision that a status tells.
pub open spec fn decision_of(status: ApprovalStatus) -> Option<RelayedDecision> {
    match status {
        ApprovalStatus::Granted => Some(RelayedDecision::Granted),
        ApprovalStatus::Denied => Some(RelayedDecision::Denied),
        _ => None,
    }
}

/// The message that tells a decision: from the coordinator to the requester, in reply to the
/// message that the request came of.
pub open spec fn decision_message(
    approval: ApprovalRequest,
    decision: RelayedDecision,
    facts: RelayFacts,
) -> EnqueueMessage {
    EnqueueMessage {
        session_id: approval.session_id,
        message_id: facts.message_id,
        source: approval.coordinator_id,
        destination: approval.requester_id,
        correlation: Correlation {
            operation_id: Some(approval.operation_id),
            in_reply_to: Some(approval.source_message_id),
        },
        envelope: Envelope {
            body: MessageBody::ApprovalDecision {
                approval_id: approval.id,
                operation_id: approval.operation_id,
                decision,
                grant_id: approval.grant_id,
            },
            size: facts.envelope_size,
        },
        priority: MessagePriority::Control,
    }
}

/// How a decision is told; only grants and denials are.
pub open spec fn relay_outcome(
    approval: ApprovalRequest,
    facts: RelayFacts,
    limits: StoreLimits,
    now: Timestamp,
) -> Result<MessagePlan, StoreError> {
    match decision_of(approval.status) {
        None => Err(StoreError::Invalid),
        Some(decision) => match message_room(facts.counter, facts.envelope_size, false, limits) {
            Err(refusal) => Err(refusal.error),
            Ok((sequence, counter)) => Ok(
                MessagePlan {
                    message: queued_message(
                        decision_message(approval, decision, facts),
                        sequence,
                        now,
                    ),
                    counter,
                },
            ),
        },
    }
}

/// Tells a decision.
pub fn approval_insert_decision_relay(
    approval: ApprovalRequest,
    facts: RelayFacts,
    limits: StoreLimits,
    now: Timestamp,
) -> (result: Result<MessagePlan, StoreError>)
    requires
        limits.wf(),
    ensures
        result == relay_outcome(approval, facts, limits, now),
{
    let decision: RelayedDecision = match approval.status {
        ApprovalStatus::Granted => RelayedDecision::Granted,
        ApprovalStatus::Denied => RelayedDecision::Denied,
        _ => {
            return Err(StoreError::Invalid);
        },
    };
    match queue_counters(facts.counter, facts.envelope_size, false, limits) {
        Err(refusal) => Err(refusal.error),
        Ok((sequence, counter)) => {
            let message: MessageSnapshot = make_queued_message(
                EnqueueMessage {
                    session_id: approval.session_id,
                    message_id: facts.message_id,
                    source: approval.coordinator_id,
                    destination: approval.requester_id,
                    correlation: Correlation {
                        operation_id: Some(approval.operation_id),
                        in_reply_to: Some(approval.source_message_id),
                    },
                    envelope: Envelope {
                        body: MessageBody::ApprovalDecision {
                            approval_id: approval.id,
                            operation_id: approval.operation_id,
                            decision,
                            grant_id: approval.grant_id,
                        },
                        size: facts.envelope_size,
                    },
                    priority: MessagePriority::Control,
                },
                sequence,
                now,
            );
            Ok(MessagePlan { message, counter })
        },
    }
}

/// A wish to grant a request.
#[derive(Clone, Copy, PartialEq, Eq, Debug, Structural)]
pub struct ApproveRequest {
    pub grant_id: GrantId,
    pub max_uses: u32,
    pub grant_expires_at: Timestamp,
}

/// What was found for a wish to grant a request.
pub struct ApproveFacts {
    pub request: Option<ApprovalRequest>,
    /// Why the wish does not fit the request at this time, where it does not.
    pub mismatch: Option<StoreError>,
    pub operation: Option<OperationSnapshot>,
    pub grant_exists: bool,
    /// Whether the leave that comes of the wish is well formed.
    pub well_formed: bool,
    /// Why the granted request and the leave do not belong together, where they do not.
    pub defect: Option<StoreError>,
    pub relay: RelayFacts,
}

/// A request that was granted, the leave, and the message that tells it.
#[derive(Clone, Copy, PartialEq, Eq, Debug, Structural)]
pub struct GrantedRequest {
    pub request: ApprovalRequest,
    pub grant: ApprovalGrant,
    pub relay: MessagePlan,
}

/// The leave that granting a request gives: to its requester, for its operation, for what it
/// asked.
pub open spec fn given_leave(
    request: ApprovalRequest,
    command: ApproveRequest,
    now: Timestamp,
) -> ApprovalGrant {
    ApprovalGrant {
        id: command.grant_id,
        request_id: request.id,
        session_id: request.session_id,
        subject_id: request.requester_id,
        operation_id: request.operation_id,
        capability: request.capability,
        resource_hash: request.resource,
        max_uses: command.max_uses,
        used_count: 0,
        expires_at: command.grant_expires_at,
        revoked_at: None,
        created_at: now,
        revision: Revision(1),
    }
}

/// The outcome of a wish to grant a request.
pub open spec fn approve_outcome(
    command: ApproveRequest,
    facts: ApproveFacts,
    limits: StoreLimits,
    now: Timestamp,
) -> Result<GrantedRequest, ApprovalRefusal> {
    match facts.request {
        None => Err(early(StoreError::Invalid)),
        Some(request) => if facts.mismatch is Some {
            Err(early(facts.mismatch->Some_0))
        } else if !operation_live(
            facts.operation,
            request.session_id,
            request.requester_id,
            request.operation_id,
        ) || facts.grant_exists {
            Err(early(StoreError::Invalid))
        } else if !facts.well_formed {
            Err(late(StoreError::Invalid))
        } else {
            match request.revision.spec_next() {
                None => Err(late(StoreError::Invalid)),
                Some(_) if facts.defect is Some => Err(late(facts.defect->Some_0)),
                Some(revision) => {
                    let granted = ApprovalRequest {
                        status: ApprovalStatus::Granted,
                        grant_id: Some(command.grant_id),
                        decided_by_consumer: true,
                        decided_at: Some(now),
                        revision,
                        ..request
                    };
                    match relay_outcome(granted, facts.relay, limits, now) {
                        Err(error) => Err(late(error)),
                        Ok(relay) => Ok(
                            GrantedRequest {
                                request: granted,
                                grant: given_leave(request, command, now),
                                relay,
                            },
                        ),
                    }
                },
            }
        },
    }
}

/// Decides a wish to grant a request, at the time floor of its session.
pub fn approve_request(
    command: ApproveRequest,
    facts: ApproveFacts,
    limits: StoreLimits,
    now: Timestamp,
) -> (result: Result<GrantedRequest, ApprovalRefusal>)
    requires
        limits.wf(),
    ensures
        result == approve_outcome(command, facts, limits, now),
{
    let request: ApprovalRequest = match facts.request {
        Some(request) => request,
        None => {
            return Err(ApprovalRefusal { error: StoreError::Invalid, keeps_time_floor: true });
        },
    };
    match facts.mismatch {
        Some(error) => {
            return Err(ApprovalRefusal { error, keeps_time_floor: true });
        },
        None => {},
    }
    if !approval_operation_live(
        facts.operation,
        request.session_id,
        request.requester_id,
        request.operation_id,
    ) || facts.grant_exists {
        return Err(ApprovalRefusal { error: StoreError::Invalid, keeps_time_floor: true });
    }
    if !facts.well_formed {
        return Err(ApprovalRefusal { error: StoreError::Invalid, keeps_time_floor: false });
    }
    let revision: Revision = match request.revision.next() {
        Some(revision) => revision,
        None => {
            return Err(ApprovalRefusal { error: StoreError::Invalid, keeps_time_floor: false });
        },
    };
    match facts.defect {
        Some(error) => {
            return Err(ApprovalRefusal { error, keeps_time_floor: false });
        },
        None => {},
    }
    let granted = ApprovalRequest {
        status: ApprovalStatus::Granted,
        grant_id: Some(command.grant_id),
        decided_by_consumer: true,
        decided_at: Some(now),
        revision,
        ..request
    };
    let grant = ApprovalGrant {
        id: command.grant_id,
        request_id: request.id,
        session_id: request.session_id,
        subject_id: request.requester_id,
        operation_id: request.operation_id,
        capability: request.capability,
        resource_hash: request.resource,
        max_uses: command.max_uses,
        used_count: 0,
        expires_at: command.grant_expires_at,
        revoked_at: None,
        created_at: now,
        revision: Revision::initial(),
    };
    match approval_insert_decision_relay(granted, facts.relay, limits, now) {
        Err(error) => Err(ApprovalRefusal { error, keeps_time_floor: false }),
        Ok(relay) => Ok(GrantedRequest { request: granted, grant, relay }),
    }
}

/// How a request ends without being granted.
#[derive(Clone, Copy, PartialEq, Eq, Debug, Structural)]
pub enum Ending {
    Denied,
    Expired,
}

/// What was found for a wish to end a request.
#[derive(Clone, Copy, PartialEq, Eq, Debug, Structural)]
pub struct EndingFacts {
    pub request: Option<ApprovalRequest>,
    pub operation: Option<OperationSnapshot>,
    /// Whether the request is well formed once it ended.
    pub well_formed: bool,
    pub relay: RelayFacts,
}

/// A request that ended, and the message that tells it, where it is told.
#[derive(Clone, Copy, PartialEq, Eq, Debug, Structural)]
pub struct EndedRequest {
    pub request: ApprovalRequest,
    pub relay: Option<MessagePlan>,
}

/// Whether a request may end so: it waits for a decision and was seen as it is; its time has run
/// out, or else its operation goes on and it is still in time.
pub open spec fn ending_admissible(
    request: ApprovalRequest,
    session_id: SessionId,
    expected: Revision,
    ending: Ending,
    operation: Option<OperationSnapshot>,
    now: Timestamp,
) -> bool {
    &&& request.session_id == session_id
    &&& request.revision == expected
    &&& request.status == ApprovalStatus::Pending
    &&& match ending {
        Ending::Expired => !now.spec_before(request.expires_at),
        Ending::Denied => now.spec_before(request.expires_at) && operation_live(
            operation,
            request.session_id,
            request.requester_id,
            request.operation_id,
        ),
    }
}

/// A request after it ended.
pub open spec fn ended(
    request: ApprovalRequest,
    ending: Ending,
    revision: Revision,
    now: Timestamp,
) -> ApprovalRequest {
    match ending {
        Ending::Expired => ApprovalRequest { status: ApprovalStatus::Expired, revision, ..request },
        Ending::Denied => ApprovalRequest {
            status: ApprovalStatus::Denied,
            decided_by_consumer: true,
            decided_at: Some(now),
            revision,
            ..request
        },
    }
}

/// The outcome of a wish to deny a request, or to let it expire. Only a denial is told.
pub open spec fn ending_outcome(
    session_id: SessionId,
    expected: Revision,
    ending: Ending,
    facts: EndingFacts,
    limits: StoreLimits,
    now: Timestamp,
) -> Result<EndedRequest, ApprovalRefusal> {
    match facts.request {
        None => Err(early(StoreError::Invalid)),
        Some(request) => if !ending_admissible(
            request,
            session_id,
            expected,
            ending,
            facts.operation,
            now,
        ) {
            Err(early(StoreError::Invalid))
        } else {
            match request.revision.spec_next() {
                None => Err(late(StoreError::Invalid)),
                Some(_) if !facts.well_formed => Err(late(StoreError::Invalid)),
                Some(revision) => {
                    let after = ended(request, ending, revision, now);
                    match ending {
                        Ending::Expired => Ok(EndedRequest { request: after, relay: None }),
                        Ending::Denied => match relay_outcome(after, facts.relay, limits, now) {
                            Err(error) => Err(late(error)),
                            Ok(relay) => Ok(EndedRequest { request: after, relay: Some(relay) }),
                        },
                    }
                },
            }
        },
    }
}

/// Decides a wish to deny a request, or to let it expire, at the time floor of its session.
pub fn approval_decide_terminal(
    session_id: SessionId,
    expected: Revision,
    ending: Ending,
    facts: EndingFacts,
    limits: StoreLimits,
    now: Timestamp,
) -> (result: Result<EndedRequest, ApprovalRefusal>)
    requires
        limits.wf(),
    ensures
        result == ending_outcome(session_id, expected, ending, facts, limits, now),
{
    let request: ApprovalRequest = match facts.request {
        Some(request) => request,
        None => {
            return Err(ApprovalRefusal { error: StoreError::Invalid, keeps_time_floor: true });
        },
    };
    if request.session_id != session_id || request.revision != expected || request.status
        != ApprovalStatus::Pending {
        return Err(ApprovalRefusal { error: StoreError::Invalid, keeps_time_floor: true });
    }
    let mut after: ApprovalRequest = request;
    match ending {
        Ending::Expired => {
            if now.before(request.expires_at) {
                return Err(ApprovalRefusal { error: StoreError::Invalid, keeps_time_floor: true });
            }
            after.status = ApprovalStatus::Expired;
        },
        Ending::Denied => {
            if !now.before(request.expires_at) || !approval_operation_live(
                facts.operation,
                request.session_id,
                request.requester_id,
            request.operation_id,
            ) {
                return Err(ApprovalRefusal { error: StoreError::Invalid, keeps_time_floor: true });
            }
            after.status = ApprovalStatus::Denied;
            after.decided_by_consumer = true;
            after.decided_at = Some(now);
        },
    }
    match request.revision.next() {
        Some(revision) => {
            after.revision = revision;
        },
        None => {
            return Err(ApprovalRefusal { error: StoreError::Invalid, keeps_time_floor: false });
        },
    }
    if !facts.well_formed {
        return Err(ApprovalRefusal { error: StoreError::Invalid, keeps_time_floor: false });
    }
    match ending {
        Ending::Expired => Ok(EndedRequest { request: after, relay: None }),
        Ending::Denied => match approval_insert_decision_relay(after, facts.relay, limits, now) {
            Err(error) => Err(ApprovalRefusal { error, keeps_time_floor: false }),
            Ok(relay) => Ok(EndedRequest { request: after, relay: Some(relay) }),
        },
    }
}

/// Leave that was withdrawn, and its request.
#[derive(Clone, Copy, PartialEq, Eq, Debug, Structural)]
pub struct RevokedGrant {
    pub grant: ApprovalGrant,
    pub request: ApprovalRequest,
}

/// The outcome of a wish to withdraw leave.
pub open spec fn revoke_outcome(
    grant: Option<ApprovalGrant>,
    request: Option<ApprovalRequest>,
    mismatch: Option<StoreError>,
    now: Timestamp,
) -> Result<RevokedGrant, ApprovalRefusal> {
    match (grant, request) {
        (Some(grant), Some(request)) => if mismatch is Some {
            Err(early(mismatch->Some_0))
        } else {
            match (grant.revision.spec_next(), request.revision.spec_next()) {
                (Some(grant_revision), Some(request_revision)) => Ok(
                    RevokedGrant {
                        grant: ApprovalGrant {
                            revoked_at: Some(now),
                            revision: grant_revision,
                            ..grant
                        },
                        request: ApprovalRequest {
                            status: ApprovalStatus::Revoked,
                            revision: request_revision,
                            ..request
                        },
                    },
                ),
                _ => Err(late(StoreError::Invalid)),
            }
        },
        _ => Err(early(StoreError::Invalid)),
    }
}

/// Decides a wish to withdraw leave, at the time floor of its session.
///
/// `mismatch` tells why the wish does not fit the leave and its request, where it does not.
pub fn revoke_approval_grant(
    grant: Option<ApprovalGrant>,
    request: Option<ApprovalRequest>,
    mismatch: Option<StoreError>,
    now: Timestamp,
) -> (result: Result<RevokedGrant, ApprovalRefusal>)
    ensures
        result == revoke_outcome(grant, request, mismatch, now),
{
    match (grant, request) {
        (Some(grant), Some(request)) => {
            match mismatch {
                Some(error) => {
                    return Err(ApprovalRefusal { error, keeps_time_floor: true });
                },
                None => {},
            }
            match (grant.revision.next(), request.revision.next()) {
                (Some(grant_revision), Some(request_revision)) => Ok(
                    RevokedGrant {
                        grant: ApprovalGrant {
                            revoked_at: Some(now),
                            revision: grant_revision,
                            ..grant
                        },
                        request: ApprovalRequest {
                            status: ApprovalStatus::Revoked,
                            revision: request_revision,
                            ..request
                        },
                    },
                ),
                _ => Err(ApprovalRefusal { error: StoreError::Invalid, keeps_time_floor: false }),
            }
        },
        _ => Err(ApprovalRefusal { error: StoreError::Invalid, keeps_time_floor: true }),
    }
}

/// A wish to use leave.
#[derive(Clone, Copy, PartialEq, Eq, Debug, Structural)]
pub struct ConsumeApprovalGrant {
    pub request_id: RequestId,
    pub session_id: SessionId,
    pub effect_id: RequestId,
    pub subject_id: ParticipantId,
    pub operation_id: OperationId,
    pub capability: Digest,
    pub resource_hash: Digest,
}

/// What was found for a wish to use leave.
pub struct ConsumeFacts {
    pub grant: Option<ApprovalGrant>,
    pub request: Option<ApprovalRequest>,
    /// The status that the request then has; or why the wish does not fit.
    pub next: Result<ApprovalStatus, StoreError>,
    pub operation: Option<OperationSnapshot>,
    /// Whether something else has the identity of the use.
    pub effect_taken: bool,
    /// Whether the use that comes of the wish is well formed.
    pub well_formed: bool,
    /// Why the leave and the use do not belong together, where they do not.
    pub defect: Option<StoreError>,
}

/// Leave that was used: what is written of it, of its request where that changes, and the use.
#[derive(Clone, Copy, PartialEq, Eq, Debug, Structural)]
pub struct ConsumedGrant {
    pub grant: ApprovalGrant,
    pub request: Option<ApprovalRequest>,
    pub effect: ApprovalEffect,
}

/// A use of leave that was just reserved.
pub open spec fn reserved_use(
    command: ConsumeApprovalGrant,
    grant: ApprovalGrant,
    now: Timestamp,
) -> ApprovalEffect {
    ApprovalEffect {
        effect_id: command.effect_id,
        session_id: command.session_id,
        grant_id: grant.id,
        subject_id: command.subject_id,
        operation_id: command.operation_id,
        capability: command.capability,
        resource_hash: command.resource_hash,
        phase: ApprovalEffectPhase::Reserved,
        created_at: now,
        finished_at: None,
        revision: Revision(1),
    }
}

/// The outcome of a wish to use leave. The request changes only when the leave is used up.
pub open spec fn consume_outcome(
    command: ConsumeApprovalGrant,
    facts: ConsumeFacts,
    now: Timestamp,
) -> Result<ConsumedGrant, ApprovalRefusal> {
    match (facts.grant, facts.request) {
        (Some(grant), Some(request)) => match facts.next {
            Err(error) => Err(early(error)),
            Ok(next) => if !operation_live(
                facts.operation,
                request.session_id,
                request.requester_id,
            request.operation_id,
            ) {
                Err(early(StoreError::Invalid))
            } else if command.request_id == command.effect_id || facts.effect_taken {
                Err(early(StoreError::RequestConflict { request_id: command.effect_id }))
            } else if grant.used_count == u32::MAX || grant.revision.spec_next() is None || (next
                == ApprovalStatus::Consumed && request.revision.spec_next() is None)
                || !facts.well_formed {
                Err(late(StoreError::Invalid))
            } else if facts.defect is Some {
                Err(late(facts.defect->Some_0))
            } else {
                Ok(
                    ConsumedGrant {
                        grant: ApprovalGrant {
                            used_count: (grant.used_count + 1) as u32,
                            revision: grant.revision.spec_next()->Some_0,
                            ..grant
                        },
                        request: if next == ApprovalStatus::Consumed {
                            Some(
                                ApprovalRequest {
                                    status: next,
                                    revision: request.revision.spec_next()->Some_0,
                                    ..request
                                },
                            )
                        } else {
                            None
                        },
                        effect: reserved_use(command, grant, now),
                    },
                )
            },
        },
        _ => Err(early(StoreError::Invalid)),
    }
}

/// Decides a wish to use leave, at the time floor of its session.
pub fn consume_approval_grant(
    command: ConsumeApprovalGrant,
    facts: ConsumeFacts,
    now: Timestamp,
) -> (result: Result<ConsumedGrant, ApprovalRefusal>)
    ensures
        result == consume_outcome(command, facts, now),
{
    let (grant, request): (ApprovalGrant, ApprovalRequest) = match (facts.grant, facts.request) {
        (Some(grant), Some(request)) => (grant, request),
        _ => {
            return Err(ApprovalRefusal { error: StoreError::Invalid, keeps_time_floor: true });
        },
    };
    let next: ApprovalStatus = match facts.next {
        Ok(next) => next,
        Err(error) => {
            return Err(ApprovalRefusal { error, keeps_time_floor: true });
        },
    };
    if !approval_operation_live(
        facts.operation,
        request.session_id,
        request.requester_id,
        request.operation_id,
    ) {
        return Err(ApprovalRefusal { error: StoreError::Invalid, keeps_time_floor: true });
    }
    match approval_effect_identity_available(
        command.request_id,
        command.effect_id,
        facts.effect_taken,
    ) {
        Ok(_) => {},
        Err(error) => {
            return Err(ApprovalRefusal { error, keeps_time_floor: true });
        },
    }
    let (used_count, revision): (u32, Revision) = match (
        grant.used_count.checked_add(1),
        grant.revision.next(),
    ) {
        (Some(used_count), Some(revision)) => (used_count, revision),
        _ => {
            return Err(ApprovalRefusal { error: StoreError::Invalid, keeps_time_floor: false });
        },
    };
    let changed: Option<ApprovalRequest> = if next == ApprovalStatus::Consumed {
        match request.revision.next() {
            Some(revision) => Some(ApprovalRequest { status: next, revision, ..request }),
            None => {
                return Err(ApprovalRefusal { error: StoreError::Invalid, keeps_time_floor: false });
            },
        }
    } else {
        None
    };
    if !facts.well_formed {
        return Err(ApprovalRefusal { error: StoreError::Invalid, keeps_time_floor: false });
    }
    match facts.defect {
        Some(error) => {
            return Err(ApprovalRefusal { error, keeps_time_floor: false });
        },
        None => {},
    }
    Ok(
        ConsumedGrant {
            grant: ApprovalGrant { used_count, revision, ..grant },
            request: changed,
            effect: ApprovalEffect {
                effect_id: command.effect_id,
                session_id: command.session_id,
                grant_id: grant.id,
                subject_id: command.subject_id,
                operation_id: command.operation_id,
                capability: command.capability,
                resource_hash: command.resource_hash,
                phase: ApprovalEffectPhase::Reserved,
                created_at: now,
                finished_at: None,
                revision: Revision::initial(),
            },
        },
    )
}

/// How a use of leave was finished.
#[derive(Clone, Copy, PartialEq, Eq, Debug, Structural)]
pub enum FinishedPhase {
    Succeeded,
    Failed,
    Uncertain,
}

/// The phase that finishing leads to.
pub open spec fn finished(phase: FinishedPhase) -> ApprovalEffectPhase {
    match phase {
        FinishedPhase::Succeeded => ApprovalEffectPhase::Succeeded,
        FinishedPhase::Failed => ApprovalEffectPhase::Failed,
        FinishedPhase::Uncertain => ApprovalEffectPhase::Uncertain,
    }
}

/// The outcome of a wish to finish a use of leave.
pub open spec fn finish_outcome(
    effect: Option<ApprovalEffect>,
    mismatch: Option<StoreError>,
    phase: FinishedPhase,
    well_formed: bool,
    now: Timestamp,
) -> Result<ApprovalEffect, ApprovalRefusal> {
    match effect {
        None => Err(early(StoreError::Invalid)),
        Some(effect) => if mismatch is Some {
            Err(early(mismatch->Some_0))
        } else {
            match effect.revision.spec_next() {
                None => Err(late(StoreError::Invalid)),
                Some(_) if !well_formed => Err(late(StoreError::Invalid)),
                Some(revision) => Ok(
                    ApprovalEffect {
                        phase: finished(phase),
                        finished_at: Some(now),
                        revision,
                        ..effect
                    },
                ),
            }
        },
    }
}

/// Decides a wish to finish a use of leave, at the time floor of its session.
///
/// `mismatch` tells why the wish does not fit the use, where it does not, and `well_formed`
/// whether the use is well formed once it is finished.
pub fn finish_approval_effect(
    effect: Option<ApprovalEffect>,
    mismatch: Option<StoreError>,
    phase: FinishedPhase,
    well_formed: bool,
    now: Timestamp,
) -> (result: Result<ApprovalEffect, ApprovalRefusal>)
    ensures
        result == finish_outcome(effect, mismatch, phase, well_formed, now),
{
    let effect: ApprovalEffect = match effect {
        Some(effect) => effect,
        None => {
            return Err(ApprovalRefusal { error: StoreError::Invalid, keeps_time_floor: true });
        },
    };
    match mismatch {
        Some(error) => {
            return Err(ApprovalRefusal { error, keeps_time_floor: true });
        },
        None => {},
    }
    let phase: ApprovalEffectPhase = match phase {
        FinishedPhase::Succeeded => ApprovalEffectPhase::Succeeded,
        FinishedPhase::Failed => ApprovalEffectPhase::Failed,
        FinishedPhase::Uncertain => ApprovalEffectPhase::Uncertain,
    };
    match effect.revision.next() {
        Some(revision) if well_formed => Ok(
            ApprovalEffect { phase, finished_at: Some(now), revision, ..effect },
        ),
        _ => Err(ApprovalRefusal { error: StoreError::Invalid, keeps_time_floor: false }),
    }
}

/// What an event about approvals tells of.
#[derive(Clone, Copy, PartialEq, Eq, Debug, Structural)]
pub enum ApprovalRecord {
    Request(ApprovalRequest),
    Grant(ApprovalGrant),
    Effect(ApprovalEffect),
}

/// The members of an event about approvals that depend on what it tells of.
#[derive(Clone, Copy, PartialEq, Eq, Debug, Structural)]
pub struct ApprovalEventMembers {
    pub approval_id: Option<ApprovalId>,
    pub grant_id: Option<GrantId>,
    pub effect_id: Option<RequestId>,
    pub subject_id: ParticipantId,
    pub operation_id: OperationId,
    pub resource_hash: Digest,
    pub effect_revision: Option<Revision>,
}

/// The members of an event about approvals.
///
/// `approval_of_grant` is the request of the leave that was used, where that is there.
pub fn approval_event_members(
    record: ApprovalRecord,
    approval_of_grant: Option<ApprovalId>,
) -> (members: ApprovalEventMembers)
    ensures
        members == (match record {
            ApprovalRecord::Request(request) => ApprovalEventMembers {
                approval_id: Some(request.id),
                grant_id: request.grant_id,
                effect_id: None,
                subject_id: request.requester_id,
                operation_id: request.operation_id,
                resource_hash: request.resource,
                effect_revision: None,
            },
            ApprovalRecord::Grant(grant) => ApprovalEventMembers {
                approval_id: Some(grant.request_id),
                grant_id: Some(grant.id),
                effect_id: None,
                subject_id: grant.subject_id,
                operation_id: grant.operation_id,
                resource_hash: grant.resource_hash,
                effect_revision: None,
            },
            ApprovalRecord::Effect(effect) => ApprovalEventMembers {
                approval_id: approval_of_grant,
                grant_id: Some(effect.grant_id),
                effect_id: Some(effect.effect_id),
                subject_id: effect.subject_id,
                operation_id: effect.operation_id,
                resource_hash: effect.resource_hash,
                effect_revision: Some(effect.revision),
            },
        }),
{
    match record {
        ApprovalRecord::Request(request) => ApprovalEventMembers {
            approval_id: Some(request.id),
            grant_id: request.grant_id,
            effect_id: None,
            subject_id: request.requester_id,
            operation_id: request.operation_id,
            resource_hash: request.resource,
            effect_revision: None,
        },
        ApprovalRecord::Grant(grant) => ApprovalEventMembers {
            approval_id: Some(grant.request_id),
            grant_id: Some(grant.id),
            effect_id: None,
            subject_id: grant.subject_id,
            operation_id: grant.operation_id,
            resource_hash: grant.resource_hash,
            effect_revision: None,
        },
        ApprovalRecord::Effect(effect) => ApprovalEventMembers {
            approval_id: approval_of_grant,
            grant_id: Some(effect.grant_id),
            effect_id: Some(effect.effect_id),
            subject_id: effect.subject_id,
            operation_id: effect.operation_id,
            resource_hash: effect.resource_hash,
            effect_revision: Some(effect.revision),
        },
    }
}

/// A request that was denied or has expired is not denied and does not expire again.
pub proof fn ended_requests_stay_ended(
    session_id: SessionId,
    expected: Revision,
    ending: Ending,
    facts: EndingFacts,
    limits: StoreLimits,
    now: Timestamp,
    again: Ending,
    expected_again: Revision,
    later: Timestamp,
)
    ensures
        ending_outcome(session_id, expected, ending, facts, limits, now) matches Ok(after)
            ==> ending_outcome(
            session_id,
            expected_again,
            again,
            (EndingFacts { request: Some(after.request), ..facts }),
            limits,
            later,
        ) is Err,
{
}

/// At any one time a request can be denied or can expire, but not both.
pub proof fn denial_and_expiry_exclude_each_other(
    request: ApprovalRequest,
    session_id: SessionId,
    expected: Revision,
    operation: Option<OperationSnapshot>,
    now: Timestamp,
)
    ensures
        !(ending_admissible(request, session_id, expected, Ending::Denied, operation, now)
            && ending_admissible(request, session_id, expected, Ending::Expired, operation, now)),
{
}

/// Leave covers exactly what was asked for: it is given to the requester, for the operation,
/// capability and resource of the request, unused; and the message that tells it goes from the
/// coordinator to the requester.
pub proof fn leave_covers_the_request(
    command: ApproveRequest,
    facts: ApproveFacts,
    limits: StoreLimits,
    now: Timestamp,
)
    ensures
        approve_outcome(command, facts, limits, now) matches Ok(granted) ==> {
            let request = facts.request->Some_0;
            &&& granted.grant.subject_id == request.requester_id
            &&& granted.grant.operation_id == request.operation_id
            &&& granted.grant.capability == request.capability
            &&& granted.grant.resource_hash == request.resource
            &&& granted.grant.used_count == 0
            &&& granted.grant.revoked_at is None
            &&& granted.request.grant_id == Some(granted.grant.id)
            &&& granted.request.status == ApprovalStatus::Granted
            &&& granted.relay.message.source == request.coordinator_id
            &&& granted.relay.message.destination == request.requester_id
            &&& granted.relay.message.correlation.in_reply_to == Some(request.source_message_id)
        },
{
}

/// Each use of leave is counted once, and reserves one use that is not finished.
pub proof fn uses_are_counted(
    command: ConsumeApprovalGrant,
    facts: ConsumeFacts,
    now: Timestamp,
)
    ensures
        consume_outcome(command, facts, now) matches Ok(used) ==> {
            let grant = facts.grant->Some_0;
            &&& used.grant.used_count == grant.used_count + 1
            &&& used.grant.revision.0 == grant.revision.0 + 1
            &&& used.effect.grant_id == grant.id
            &&& awaits_recovery(used.effect, command.session_id)
        },
{
}

} // verus!
