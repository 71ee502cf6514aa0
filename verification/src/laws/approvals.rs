//! Approvals: what is asked, what is decided and told, and what may then be used.

use crate::approval::{
    approval_action_name, awaits_recovery,
    approval_decide_terminal, approval_event_members, approval_insert_decision_relay,
    approval_replay, approve_request, consume_approval_grant, finish_approval_effect,
    list_reserved_approval_effects, request_approval, revoke_approval_grant, ApprovalAction,
    ApprovalEffect, ApprovalEffectPhase, ApprovalEventMembers, ApprovalFacts, ApprovalGrant,
    ApprovalRecord, ApprovalRefusal, ApprovalRequest, ApprovalStatus, ApproveFacts, ApproveRequest,
    CausalMessage, ConsumeApprovalGrant, ConsumeFacts, ConsumedGrant, EndedRequest, Ending,
    EndingFacts, FinishedPhase, GrantedRequest, RecordedApproval, RelayFacts, RequestApproval,
    RevokedGrant,
};
use crate::error::StoreError;
use crate::ids::{
    digest_bytes, ApprovalId, Digest, OperationId, ParticipantId, Revision, SessionId,
};
use crate::laws::words::{just_queued, placed_next, takes};
use crate::ledger::RequestContext;
use crate::mailbox::{MessageBody, MessagePlan, MessageSnapshot, RelayedDecision, StoreLimits};
use crate::operation::{OperationSnapshot, ParticipantSnapshot};
use crate::text::uuid_text;
use crate::time::Timestamp;
use vstd::prelude::*;

verus! {

/// What was asked, as opposed to what became of it.
pub open spec fn same_question(before: ApprovalRequest, after: ApprovalRequest) -> bool {
    &&& after.id == before.id
    &&& after.session_id == before.session_id
    &&& after.requester_id == before.requester_id
    &&& after.operation_id == before.operation_id
    &&& after.source_message_id == before.source_message_id
    &&& after.source_delivery_attempt_id == before.source_delivery_attempt_id
    &&& after.coordinator_id == before.coordinator_id
    &&& after.capability == before.capability
    &&& after.resource == before.resource
    &&& after.summary == before.summary
    &&& after.expires_at == before.expires_at
    &&& after.created_at == before.created_at
}

/// The operation of the requester is at work: running, or waiting.
pub open spec fn is_at_work(
    operation: Option<OperationSnapshot>,
    session_id: SessionId,
    participant_id: ParticipantId,
    operation_id: OperationId,
) -> bool {
    &&& operation matches Some(found)
    &&& found.operation_id == operation_id
    &&& found.session_id == session_id
    &&& found.participant_id == participant_id
    &&& found.state is Running || found.state is Waiting
}

/// The requester is told what was decided: by its coordinator, about this request and its
/// operation, in answer to the message that caused it, ahead of ordinary messages.
pub open spec fn is_told(
    request: ApprovalRequest,
    relay: RelayFacts,
    now: Timestamp,
    plan: MessagePlan,
) -> bool {
    let message = plan.message;
    &&& message.session_id == request.session_id
    &&& message.message_id == relay.message_id
    &&& message.source == request.coordinator_id
    &&& message.destination == request.requester_id
    &&& message.priority is Control
    &&& message.correlation.operation_id == Some(request.operation_id)
    &&& message.correlation.in_reply_to == Some(request.source_message_id)
    &&& message.envelope.size == relay.envelope_size
    &&& message.envelope.body is ApprovalDecision
    &&& message.envelope.body->approval_id == request.id
    &&& message.envelope.body->ApprovalDecision_operation_id == request.operation_id
    &&& message.envelope.body->grant_id == request.grant_id
    &&& message.envelope.body->decision is Granted <==> request.status is Granted
    &&& message.envelope.body->decision is Denied <==> request.status is Denied
    &&& just_queued(message, now)
    &&& placed_next(relay.counter, relay.envelope_size, message.mailbox_sequence, plan.counter)
}

/// The message that tells a decision carries the decision of the request, and its grant. There is
/// one exactly for a request that was granted or denied, while the mailbox has room.
pub proof fn decisions_are_told_as_made(
    approval: ApprovalRequest,
    relay: RelayFacts,
    limits: StoreLimits,
    now: Timestamp,
    result: Result<MessagePlan, StoreError>,
)
    requires
        call_ensures(approval_insert_decision_relay, (approval, relay, limits, now), result),
    ensures
        result is Ok <==> (approval.status is Granted || approval.status is Denied) && takes(
            relay.counter,
            relay.envelope_size,
            limits.mailbox_queued_bytes as int,
            limits.mailbox_queued_messages as int,
        ),
        result matches Ok(plan) ==> is_told(approval, relay, now, plan),
        !(approval.status is Granted) && !(approval.status is Denied) ==> result == Err::<
            MessagePlan,
            StoreError,
        >(StoreError::Invalid),
{
}

/// The message is the accepted input of the operation, and came from the requester's parent, or
/// from the requester where it is the root.
pub open spec fn is_the_cause(
    message: MessageSnapshot,
    command: RequestApproval,
    requester: ParticipantSnapshot,
    operation: OperationSnapshot,
) -> bool {
    &&& message.session_id == command.session_id
    &&& message.destination == command.requester_id
    &&& requester.parent_participant_id matches Some(parent) ==> message.source == parent
    &&& requester.parent_participant_id is None ==> message.source == command.requester_id
    &&& message.message_id == operation.input_message_id
    &&& message.correlation.operation_id == Some(command.operation_id)
    &&& message.envelope.body is OperationInput
    &&& message.envelope.body->OperationInput_operation_id == command.operation_id
    &&& message.envelope.body->OperationInput_input_digest == operation.input_digest
    &&& message.state is Accepted
    &&& message.state->Accepted_attempt_id == command.source_delivery_attempt_id
}

/// Leave is asked for by a participant whose operation is at work, before the request expires,
/// on the ground of the accepted input of that operation. The request then waits for its
/// coordinator: the parent, or the requester itself at the root.
pub proof fn requests_have_a_cause(
    command: RequestApproval,
    facts: ApprovalFacts,
    now: Timestamp,
    result: Result<ApprovalRequest, ApprovalRefusal>,
)
    requires
        call_ensures(request_approval, (command, facts, now), result),
    ensures
        result is Ok <==> {
            &&& now.spec_before(command.expires_at)
            &&& !facts.exists
            &&& facts.well_formed
            &&& facts.requester matches Some(requester)
            &&& requester.session_id == command.session_id
            &&& is_at_work(
                facts.operation,
                command.session_id,
                command.requester_id,
                command.operation_id,
            )
            &&& facts.causal matches CausalMessage::Found(message)
            &&& is_the_cause(message, command, requester, facts.operation->Some_0)
        },
        result matches Ok(request) ==> {
            &&& request.id == command.approval_id
            &&& request.session_id == command.session_id
            &&& request.requester_id == command.requester_id
            &&& request.operation_id == command.operation_id
            &&& request.source_message_id == command.source_message_id
            &&& request.source_delivery_attempt_id == command.source_delivery_attempt_id
            &&& facts.requester->Some_0.parent_participant_id matches Some(parent)
                ==> request.coordinator_id == parent
            &&& facts.requester->Some_0.parent_participant_id is None ==> request.coordinator_id
                == command.requester_id
            &&& request.capability == command.capability
            &&& request.resource == command.resource
            &&& request.summary == command.summary
            &&& request.expires_at == command.expires_at
            &&& request.status is Pending
            &&& request.grant_id is None
            &&& !request.decided_by_consumer
            &&& request.created_at == now
            &&& request.decided_at is None
            &&& request.revision.0 == 1
        },
{
}

/// A request that is refused for what it says keeps the time floor; one whose cause is missing,
/// or that is not well formed, does not. A cause that cannot be read is corruption.
pub proof fn refused_requests_say_why(
    command: RequestApproval,
    facts: ApprovalFacts,
    now: Timestamp,
    result: Result<ApprovalRequest, ApprovalRefusal>,
)
    requires
        call_ensures(request_approval, (command, facts, now), result),
    ensures
        !now.spec_before(command.expires_at) || facts.exists || facts.requester is None
            || facts.operation is None ==> result == Err::<ApprovalRequest, ApprovalRefusal>(
            ApprovalRefusal { error: StoreError::Invalid, keeps_time_floor: true },
        ),
        result matches Err(refusal) ==> refusal.error == StoreError::Invalid || (refusal.error
            == StoreError::Corrupt && facts.causal is Unreadable && refusal.keeps_time_floor),
        result matches Err(refusal) && !refusal.keeps_time_floor ==> facts.causal is Missing
            || !facts.well_formed,
{
}

/// A granted request gives exactly the leave that was asked for, and the requester is told.
pub proof fn grants_answer_their_request(
    command: ApproveRequest,
    facts: ApproveFacts,
    limits: StoreLimits,
    now: Timestamp,
    result: Result<GrantedRequest, ApprovalRefusal>,
)
    requires
        call_ensures(approve_request, (command, facts, limits, now), result),
    ensures
        result is Ok <==> {
            &&& facts.request matches Some(request)
            &&& facts.mismatch is None
            &&& is_at_work(
                facts.operation,
                request.session_id,
                request.requester_id,
                request.operation_id,
            )
            &&& !facts.grant_exists
            &&& facts.well_formed
            &&& facts.defect is None
            &&& request.revision.0 < u64::MAX
            &&& takes(
                facts.relay.counter,
                facts.relay.envelope_size,
                limits.mailbox_queued_bytes as int,
                limits.mailbox_queued_messages as int,
            )
        },
        result matches Ok(granted) ==> {
            let request = facts.request->Some_0;
            &&& same_question(request, granted.request)
            &&& granted.request.status is Granted
            &&& granted.request.grant_id == Some(command.grant_id)
            &&& granted.request.decided_by_consumer
            &&& granted.request.decided_at == Some(now)
            &&& granted.request.revision.0 == request.revision.0 + 1
            &&& granted.grant.id == command.grant_id
            &&& granted.grant.request_id == request.id
            &&& granted.grant.session_id == request.session_id
            &&& granted.grant.subject_id == request.requester_id
            &&& granted.grant.operation_id == request.operation_id
            &&& granted.grant.capability == request.capability
            &&& granted.grant.resource_hash == request.resource
            &&& granted.grant.max_uses == command.max_uses
            &&& granted.grant.used_count == 0
            &&& granted.grant.expires_at == command.grant_expires_at
            &&& granted.grant.revoked_at is None
            &&& granted.grant.created_at == now
            &&& granted.grant.revision.0 == 1
            &&& is_told(granted.request, facts.relay, now, granted.relay)
            &&& granted.relay.message.envelope.body->decision is Granted
            &&& granted.relay.message.envelope.body->grant_id == Some(command.grant_id)
        },
        facts.request is None ==> result == Err::<GrantedRequest, ApprovalRefusal>(
            ApprovalRefusal { error: StoreError::Invalid, keeps_time_floor: true },
        ),
        facts.request is Some && facts.mismatch is Some ==> result == Err::<
            GrantedRequest,
            ApprovalRefusal,
        >(ApprovalRefusal { error: facts.mismatch->Some_0, keeps_time_floor: true }),
{
}

/// A pending request is denied while it has not expired and its operation is at work, and expires
/// once its time is up. The requester is told of a denial, and of nothing else.
pub proof fn requests_end_denied_or_expired(
    session_id: SessionId,
    expected: Revision,
    ending: Ending,
    facts: EndingFacts,
    limits: StoreLimits,
    now: Timestamp,
    result: Result<EndedRequest, ApprovalRefusal>,
)
    requires
        call_ensures(
            approval_decide_terminal,
            (session_id, expected, ending, facts, limits, now),
            result,
        ),
    ensures
        result is Ok <==> {
            &&& facts.request matches Some(request)
            &&& request.session_id == session_id
            &&& request.revision == expected
            &&& request.status is Pending
            &&& request.revision.0 < u64::MAX
            &&& facts.well_formed
            &&& ending is Expired ==> !now.spec_before(request.expires_at)
            &&& ending is Denied ==> {
                &&& now.spec_before(request.expires_at)
                &&& is_at_work(
                    facts.operation,
                    request.session_id,
                    request.requester_id,
                    request.operation_id,
                )
                &&& takes(
                    facts.relay.counter,
                    facts.relay.envelope_size,
                    limits.mailbox_queued_bytes as int,
                    limits.mailbox_queued_messages as int,
                )
            }
        },
        result matches Ok(ended) ==> {
            let request = facts.request->Some_0;
            &&& same_question(request, ended.request)
            &&& ended.request.grant_id == request.grant_id
            &&& ended.request.revision.0 == request.revision.0 + 1
            &&& ending is Expired ==> {
                &&& ended.request.status is Expired
                &&& ended.request.decided_by_consumer == request.decided_by_consumer
                &&& ended.request.decided_at == request.decided_at
                &&& ended.relay is None
            }
            &&& ending is Denied ==> {
                &&& ended.request.status is Denied
                &&& ended.request.decided_by_consumer
                &&& ended.request.decided_at == Some(now)
                &&& ended.relay matches Some(relay)
                &&& is_told(ended.request, facts.relay, now, relay)
                &&& relay.message.envelope.body->decision is Denied
            }
        },
        result matches Err(refusal) ==> refusal.keeps_time_floor ==> refusal.error
            == StoreError::Invalid,
        facts.request matches Some(request) && (request.session_id != session_id
            || request.revision != expected || !(request.status is Pending)) ==> result == Err::<
            EndedRequest,
            ApprovalRefusal,
        >(ApprovalRefusal { error: StoreError::Invalid, keeps_time_floor: true }),
{
}

/// Revoking takes the leave away from now on, and marks the request; both are revised once.
pub proof fn leave_can_be_taken_back(
    grant: Option<ApprovalGrant>,
    request: Option<ApprovalRequest>,
    mismatch: Option<StoreError>,
    now: Timestamp,
    result: Result<RevokedGrant, ApprovalRefusal>,
)
    requires
        call_ensures(revoke_approval_grant, (grant, request, mismatch, now), result),
    ensures
        result is Ok <==> grant is Some && request is Some && mismatch is None
            && grant->Some_0.revision.0 < u64::MAX && request->Some_0.revision.0 < u64::MAX,
        result matches Ok(revoked) ==> {
            let given = grant->Some_0;
            let asked = request->Some_0;
            &&& same_leave(given, revoked.grant)
            &&& revoked.grant.used_count == given.used_count
            &&& revoked.grant.revoked_at == Some(now)
            &&& revoked.grant.revision.0 == given.revision.0 + 1
            &&& same_question(asked, revoked.request)
            &&& revoked.request.status is Revoked
            &&& revoked.request.grant_id == asked.grant_id
            &&& revoked.request.decided_by_consumer == asked.decided_by_consumer
            &&& revoked.request.decided_at == asked.decided_at
            &&& revoked.request.revision.0 == asked.revision.0 + 1
        },
        grant is Some && request is Some && mismatch is Some ==> result == Err::<
            RevokedGrant,
            ApprovalRefusal,
        >(ApprovalRefusal { error: mismatch->Some_0, keeps_time_floor: true }),
        grant is None || request is None ==> result == Err::<RevokedGrant, ApprovalRefusal>(
            ApprovalRefusal { error: StoreError::Invalid, keeps_time_floor: true },
        ),
{
}

/// What leave is given for, as opposed to what was made of it.
pub open spec fn same_leave(before: ApprovalGrant, after: ApprovalGrant) -> bool {
    &&& after.id == before.id
    &&& after.request_id == before.request_id
    &&& after.session_id == before.session_id
    &&& after.subject_id == before.subject_id
    &&& after.operation_id == before.operation_id
    &&& after.capability == before.capability
    &&& after.resource_hash == before.resource_hash
    &&& after.max_uses == before.max_uses
    &&& after.expires_at == before.expires_at
    &&& after.created_at == before.created_at
}

/// Leave is used once per effect, under an identity of its own, while the operation is at work.
/// The request changes only with the last use.
pub proof fn leave_is_used_once_per_effect(
    command: ConsumeApprovalGrant,
    facts: ConsumeFacts,
    now: Timestamp,
    result: Result<ConsumedGrant, ApprovalRefusal>,
)
    requires
        call_ensures(consume_approval_grant, (command, facts, now), result),
    ensures
        result is Ok <==> {
            &&& facts.grant matches Some(grant)
            &&& facts.request matches Some(request)
            &&& facts.next matches Ok(next)
            &&& is_at_work(
                facts.operation,
                request.session_id,
                request.requester_id,
                request.operation_id,
            )
            &&& command.request_id != command.effect_id
            &&& !facts.effect_taken
            &&& grant.used_count < u32::MAX
            &&& grant.revision.0 < u64::MAX
            &&& next is Consumed ==> request.revision.0 < u64::MAX
            &&& facts.well_formed
            &&& facts.defect is None
        },
        result matches Ok(used) ==> {
            let grant = facts.grant->Some_0;
            let request = facts.request->Some_0;
            &&& same_leave(grant, used.grant)
            &&& used.grant.used_count == grant.used_count + 1
            &&& used.grant.revoked_at == grant.revoked_at
            &&& used.grant.revision.0 == grant.revision.0 + 1
            &&& used.request is Some <==> facts.next->Ok_0 is Consumed
            &&& used.request matches Some(after) ==> {
                &&& same_question(request, after)
                &&& after.status is Consumed
                &&& after.grant_id == request.grant_id
                &&& after.decided_by_consumer == request.decided_by_consumer
                &&& after.decided_at == request.decided_at
                &&& after.revision.0 == request.revision.0 + 1
            }
            &&& used.effect.effect_id == command.effect_id
            &&& used.effect.session_id == command.session_id
            &&& used.effect.grant_id == grant.id
            &&& used.effect.subject_id == command.subject_id
            &&& used.effect.operation_id == command.operation_id
            &&& used.effect.capability == command.capability
            &&& used.effect.resource_hash == command.resource_hash
            &&& used.effect.phase is Reserved
            &&& used.effect.created_at == now
            &&& used.effect.finished_at is None
            &&& used.effect.revision.0 == 1
        },
        facts.grant is Some && facts.request is Some && facts.next is Ok && is_at_work(
            facts.operation,
            facts.request->Some_0.session_id,
            facts.request->Some_0.requester_id,
            facts.request->Some_0.operation_id,
        ) && (command.request_id == command.effect_id || facts.effect_taken) ==> result == Err::<
            ConsumedGrant,
            ApprovalRefusal,
        >(
            ApprovalRefusal {
                error: StoreError::RequestConflict { request_id: command.effect_id },
                keeps_time_floor: true,
            },
        ),
{
}

/// An effect is finished in the way that is reported, and keeps what it was.
pub proof fn effects_finish_as_reported(
    effect: Option<ApprovalEffect>,
    mismatch: Option<StoreError>,
    phase: FinishedPhase,
    well_formed: bool,
    now: Timestamp,
    result: Result<ApprovalEffect, ApprovalRefusal>,
)
    requires
        call_ensures(finish_approval_effect, (effect, mismatch, phase, well_formed, now), result),
    ensures
        result is Ok <==> effect is Some && mismatch is None && well_formed
            && effect->Some_0.revision.0 < u64::MAX,
        result matches Ok(after) ==> {
            let before = effect->Some_0;
            &&& phase is Succeeded ==> after.phase is Succeeded
            &&& phase is Failed ==> after.phase is Failed
            &&& phase is Uncertain ==> after.phase is Uncertain
            &&& after.finished_at == Some(now)
            &&& after.revision.0 == before.revision.0 + 1
            &&& after.effect_id == before.effect_id
            &&& after.session_id == before.session_id
            &&& after.grant_id == before.grant_id
            &&& after.subject_id == before.subject_id
            &&& after.operation_id == before.operation_id
            &&& after.capability == before.capability
            &&& after.resource_hash == before.resource_hash
            &&& after.created_at == before.created_at
        },
        effect is Some && mismatch is Some ==> result == Err::<ApprovalEffect, ApprovalRefusal>(
            ApprovalRefusal { error: mismatch->Some_0, keeps_time_floor: true },
        ),
{
}

/// Only effects of the session that are reserved and not finished come back after a restart, and
/// not more of them than one batch holds.
pub proof fn only_open_effects_are_listed(
    effects: Vec<ApprovalEffect>,
    session_id: SessionId,
    result: Result<(), StoreError>,
)
    requires
        call_ensures(list_reserved_approval_effects, (&effects, session_id), result),
    ensures
        result is Ok <==> effects@.len() <= 128 && forall|i: int|
            0 <= i < effects@.len() ==> (#[trigger] effects@[i]).session_id == session_id
                && effects@[i].phase is Reserved && effects@[i].finished_at is None,
        effects@.len() > 128 ==> result == Err::<(), StoreError>(StoreError::Unavailable),
        result is Err && effects@.len() <= 128 ==> result == Err::<(), StoreError>(
            StoreError::Corrupt,
        ),
{
    if result is Err && effects@.len() <= 128 {
        let i = choose|i: int|
            0 <= i < effects@.len() && !awaits_recovery(
                #[trigger] effects@[i],
                session_id,
            );
        assert(!(effects@[i].session_id == session_id && effects@[i].phase is Reserved
            && effects@[i].finished_at is None));
    }
}

/// A request to an approval is repeated only by the same caller with the same action and content;
/// an identity that anything else has used is in conflict.
pub proof fn approval_requests_are_repeated_alike(
    context: RequestContext,
    action: ApprovalAction,
    name: &'static str,
    digest: Digest,
    recorded: Option<RecordedApproval>,
    taken: bool,
    result: Result<bool, StoreError>,
)
    requires
        call_ensures(approval_replay, (context, action, digest, recorded, taken), result),
        call_ensures(approval_action_name, (action,), name),
    ensures
        result == Ok::<bool, StoreError>(false) <==> recorded is None && !taken,
        result == Ok::<bool, StoreError>(true) <==> (recorded matches Some(row) && row.digest@
            == digest_bytes(digest) && row.caller@ == uuid_text(context.caller.0) && row.action@
            == name@),
        result matches Err(error) ==> error == (StoreError::RequestConflict {
            request_id: context.request_id,
        }),
{
}

/// What an event tells of a request, a grant or an effect is about that very record.
pub proof fn approval_events_name_their_record(
    record: ApprovalRecord,
    approval_of_grant: Option<ApprovalId>,
    members: ApprovalEventMembers,
)
    requires
        call_ensures(approval_event_members, (record, approval_of_grant), members),
    ensures
        record matches ApprovalRecord::Request(request) ==> {
            &&& members.approval_id == Some(request.id)
            &&& members.grant_id == request.grant_id
            &&& members.effect_id is None
            &&& members.subject_id == request.requester_id
            &&& members.operation_id == request.operation_id
            &&& members.resource_hash == request.resource
            &&& members.effect_revision is None
        },
        record matches ApprovalRecord::Grant(grant) ==> {
            &&& members.approval_id == Some(grant.request_id)
            &&& members.grant_id == Some(grant.id)
            &&& members.effect_id is None
            &&& members.subject_id == grant.subject_id
            &&& members.operation_id == grant.operation_id
            &&& members.resource_hash == grant.resource_hash
            &&& members.effect_revision is None
        },
        record matches ApprovalRecord::Effect(effect) ==> {
            &&& members.approval_id == approval_of_grant
            &&& members.grant_id == Some(effect.grant_id)
            &&& members.effect_id == Some(effect.effect_id)
            &&& members.subject_id == effect.subject_id
            &&& members.operation_id == effect.operation_id
            &&& members.resource_hash == effect.resource_hash
            &&& members.effect_revision == Some(effect.revision)
        },
{
}

} // verus!
