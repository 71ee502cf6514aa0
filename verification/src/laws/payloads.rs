//! What the documents of events and rows hold: which members, under which names, with which
//! values.

use crate::approval::{ApprovalAction, ApprovalEffectPhase, ApprovalRecord, ApprovalStatus};
use crate::effect::{EffectEntry, UncertaintyResolution};
use crate::error::StoreError;
use crate::ids::{ParticipantId, RequestId, Revision, SessionId};
use crate::mailbox::{DeliveryState, MessageSnapshot};
use crate::operation::{OperationSnapshot, OperationState, OutcomeKind, ParticipantSnapshot};
use crate::payload::{
    approval_event_payload, approval_members, authority_event_payload, authority_members,
    capacity_members, capacity_row_payload, json_object, message_event_payload, message_members,
    named, operation_event_payload, operation_members, participant_event_payload,
    participant_members, recovery_event_payload, recovery_members, resolution_event_payload,
    resolution_members, session_event_payload, session_members, spawned_members,
    spawned_participant_payload, tool_invocation_event_payload, tool_members, ApprovalState,
    ApprovalTexts, ResolutionTexts, Times, ToolTexts, ValueView,
};
use crate::session::SessionSnapshot;
use crate::text::uuid_text;
use crate::tool::{ToolInvocationSnapshot, ToolPhase};
use vstd::prelude::*;

verus! {

/// The bytes are those of the object with these members, or there are none for it.
pub open spec fn holds(
    result: Result<Vec<u8>, StoreError>,
    members: Seq<(Seq<char>, ValueView)>,
) -> bool {
    match result {
        Ok(data) => json_object(members) == Some(data@),
        Err(error) => error == StoreError::Corrupt && json_object(members) is None,
    }
}

/// An identity by its text.
pub open spec fn identity(bits: u128) -> ValueView {
    ValueView::Text(uuid_text(bits))
}

/// An identity by its text, or null.
pub open spec fn identity_if(bits: Option<u128>) -> ValueView {
    match bits {
        Some(bits) => ValueView::Text(uuid_text(bits)),
        None => ValueView::Null,
    }
}

/// A number, or null.
pub open spec fn number_if(number: Option<u64>) -> ValueView {
    match number {
        Some(number) => ValueView::Number(number),
        None => ValueView::Null,
    }
}

/// What was encoded before, or null.
pub open spec fn encoded_if(text: Option<String>) -> ValueView {
    match text {
        Some(text) => ValueView::Encoded(text@),
        None => ValueView::Null,
    }
}

/// A participant is told with its parent, its template and its depth.
pub proof fn participants_are_told(
    snapshot: ParticipantSnapshot,
    result: Result<Vec<u8>, StoreError>,
    spawned: Result<Vec<u8>, StoreError>,
)
    requires
        call_ensures(participant_event_payload, (snapshot,), result),
        call_ensures(spawned_participant_payload, (snapshot,), spawned),
    ensures
        ({
            let parent = identity_if(
                match snapshot.parent_participant_id {
                    Some(parent) => Some(parent.0),
                    None => None,
                },
            );
            &&& holds(
                result,
                seq![
                    ("schema_version"@, ValueView::Number(1)),
                    ("session_id"@, identity(snapshot.session_id.0)),
                    ("participant_id"@, identity(snapshot.participant_id.0)),
                    ("parent_participant_id"@, parent),
                    ("template_id"@, identity(snapshot.template_id.0)),
                    ("depth"@, ValueView::Number(snapshot.depth as u64)),
                    ("revision"@, ValueView::Number(snapshot.revision.0)),
                    ("lifecycle"@, ValueView::Text("registered"@)),
                ],
            )
            &&& holds(
                spawned,
                seq![
                    ("schema_version"@, ValueView::Number(1)),
                    ("participant_id"@, identity(snapshot.participant_id.0)),
                    ("parent_participant_id"@, parent),
                    ("template_id"@, identity(snapshot.template_id.0)),
                    ("depth"@, ValueView::Number(snapshot.depth as u64)),
                    ("revision"@, ValueView::Number(snapshot.revision.0)),
                    ("lifecycle"@, ValueView::Text("registered"@)),
                ],
            )
        }),
{
    let parent = identity_if(
        match snapshot.parent_participant_id {
            Some(parent) => Some(parent.0),
            None => None,
        },
    );
    assert(named(participant_members(snapshot)) =~= seq![
        ("schema_version"@, ValueView::Number(1)),
        ("session_id"@, identity(snapshot.session_id.0)),
        ("participant_id"@, identity(snapshot.participant_id.0)),
        ("parent_participant_id"@, parent),
        ("template_id"@, identity(snapshot.template_id.0)),
        ("depth"@, ValueView::Number(snapshot.depth as u64)),
        ("revision"@, ValueView::Number(snapshot.revision.0)),
        ("lifecycle"@, ValueView::Text("registered"@)),
    ]);
    assert(named(spawned_members(snapshot)) =~= seq![
        ("schema_version"@, ValueView::Number(1)),
        ("participant_id"@, identity(snapshot.participant_id.0)),
        ("parent_participant_id"@, parent),
        ("template_id"@, identity(snapshot.template_id.0)),
        ("depth"@, ValueView::Number(snapshot.depth as u64)),
        ("revision"@, ValueView::Number(snapshot.revision.0)),
        ("lifecycle"@, ValueView::Text("registered"@)),
    ]);
}

/// A session is told with its status and its times.
pub open spec fn session_document(snapshot: SessionSnapshot, times: Times) -> Seq<
    (Seq<char>, ValueView),
> {
    seq![
        ("schema_version"@, ValueView::Number(1)),
        ("session_id"@, identity(snapshot.id.0)),
        (
            "status"@,
            ValueView::Text(
                if snapshot.status is Open {
                    "open"@
                } else {
                    "closed"@
                },
            ),
        ),
        ("revision"@, ValueView::Number(snapshot.revision.0)),
        ("created_at"@, ValueView::Encoded(times.created_at@)),
        ("updated_at"@, ValueView::Encoded(times.updated_at@)),
    ]
}

/// The document of a session event tells the session as it is.
pub proof fn sessions_are_told(
    snapshot: SessionSnapshot,
    times: Times,
    result: Result<Vec<u8>, StoreError>,
)
    requires
        call_ensures(session_event_payload, (&snapshot, &times), result),
    ensures
        holds(result, session_document(snapshot, times)),
{
    assert(named(session_members(snapshot, times)) =~= session_document(snapshot, times));
}

/// An operation is told with its state, what it waits for, and how it ended.
pub open spec fn operation_document(snapshot: OperationSnapshot, times: Times) -> Seq<
    (Seq<char>, ValueView),
> {
    let state = match snapshot.state {
        OperationState::Queued => "queued"@,
        OperationState::Starting => "starting"@,
        OperationState::Running => "running"@,
        OperationState::Waiting => "waiting"@,
        OperationState::Cancelling => "cancelling"@,
        OperationState::Succeeded => "succeeded"@,
        OperationState::Failed => "failed"@,
        OperationState::Cancelled => "cancelled"@,
        OperationState::Blocked => "blocked"@,
        OperationState::Uncertain => "uncertain"@,
    };
    let (outcome, digest) = match snapshot.terminal_outcome {
        None => (ValueView::Null, ValueView::Null),
        Some(outcome) => {
            let kind = match outcome.kind {
                OutcomeKind::Succeeded => "succeeded"@,
                OutcomeKind::Failed => "failed"@,
                OutcomeKind::Cancelled => "cancelled"@,
                OutcomeKind::Blocked => "blocked"@,
                OutcomeKind::Uncertain => "uncertain"@,
            };
            (ValueView::Text(kind), ValueView::Octets(outcome.public_digest))
        },
    };
    seq![
        ("schema_version"@, ValueView::Number(1)),
        ("session_id"@, identity(snapshot.session_id.0)),
        ("operation_id"@, identity(snapshot.operation_id.0)),
        ("participant_id"@, identity(snapshot.participant_id.0)),
        ("state"@, ValueView::Text(state)),
        ("input_message_id"@, identity(snapshot.input_message_id.0)),
        (
            "waiting_on_message_id"@,
            identity_if(
                match snapshot.waiting_on_message_id {
                    Some(message) => Some(message.0),
                    None => None,
                },
            ),
        ),
        ("terminal_outcome"@, outcome),
        ("terminal_public_digest"@, digest),
        ("revision"@, ValueView::Number(snapshot.revision.0)),
        ("created_at"@, ValueView::Encoded(times.created_at@)),
        ("updated_at"@, ValueView::Encoded(times.updated_at@)),
    ]
}

/// The document of an operation event tells the operation as it is.
pub proof fn operations_are_told(
    snapshot: OperationSnapshot,
    times: Times,
    result: Result<Vec<u8>, StoreError>,
)
    requires
        call_ensures(operation_event_payload, (snapshot, &times), result),
    ensures
        holds(result, operation_document(snapshot, times)),
{
    assert(named(operation_members(snapshot, times)) =~= operation_document(snapshot, times));
}

/// A message is told with who sent it to whom, what it is about, and how far it has come.
pub open spec fn message_document(
    snapshot: MessageSnapshot,
    priority: Seq<char>,
    times: Times,
) -> Seq<(Seq<char>, ValueView)> {
    let state = match snapshot.state {
        DeliveryState::Queued => "queued"@,
        DeliveryState::RetryScheduled { .. } => "retry_scheduled"@,
        DeliveryState::Leased { .. } => "leased"@,
        DeliveryState::AcceptancePending { .. } => "acceptance_pending"@,
        DeliveryState::AcceptanceUnknown { .. } => "acceptance_unknown"@,
        DeliveryState::Accepted { .. } => "accepted"@,
        DeliveryState::Uncertain { .. } => "uncertain"@,
        DeliveryState::DeadLetter { .. } => "dead_lettered"@,
    };
    seq![
        ("schema_version"@, ValueView::Number(1)),
        ("session_id"@, identity(snapshot.session_id.0)),
        ("message_id"@, identity(snapshot.message_id.0)),
        ("source"@, identity(snapshot.source.0)),
        ("destination"@, identity(snapshot.destination.0)),
        ("mailbox_sequence"@, ValueView::Number(snapshot.mailbox_sequence)),
        ("priority"@, ValueView::Encoded(priority)),
        (
            "operation_id"@,
            identity_if(
                match snapshot.correlation.operation_id {
                    Some(operation) => Some(operation.0),
                    None => None,
                },
            ),
        ),
        (
            "in_reply_to"@,
            identity_if(
                match snapshot.correlation.in_reply_to {
                    Some(message) => Some(message.0),
                    None => None,
                },
            ),
        ),
        ("state"@, ValueView::Text(state)),
        ("attempt_count"@, ValueView::Number(snapshot.attempt_count as u64)),
        ("revision"@, ValueView::Number(snapshot.revision.0)),
        ("created_at"@, ValueView::Encoded(times.created_at@)),
        ("updated_at"@, ValueView::Encoded(times.updated_at@)),
    ]
}

/// The document of a message event tells the message as it is.
pub proof fn messages_are_told(
    snapshot: MessageSnapshot,
    priority: String,
    times: Times,
    result: Result<Vec<u8>, StoreError>,
)
    requires
        call_ensures(message_event_payload, (snapshot, &priority, &times), result),
    ensures
        holds(result, message_document(snapshot, priority@, times)),
{
    assert(named(message_members(snapshot, priority@, times)) =~= message_document(
        snapshot,
        priority@,
        times,
    ));
}

/// An invocation is told with whose it is, what it invokes, and where it stands.
pub open spec fn invocation_document(snapshot: ToolInvocationSnapshot, texts: ToolTexts) -> Seq<
    (Seq<char>, ValueView),
> {
    let phase = match snapshot.phase {
        ToolPhase::Reserved => "reserved"@,
        ToolPhase::Started => "started"@,
        ToolPhase::Uncertain => "uncertain"@,
        ToolPhase::Completed => "completed"@,
        ToolPhase::Failed => "failed"@,
    };
    seq![
        ("schema_version"@, ValueView::Number(1)),
        ("invocation_id"@, identity(snapshot.invocation.invocation_id.0)),
        ("request_id"@, identity(snapshot.invocation.request_id.0)),
        ("participant_id"@, identity(snapshot.invocation.participant_id.0)),
        ("operation_id"@, identity(snapshot.invocation.operation_id.0)),
        ("registration_id"@, identity(snapshot.registration_id.0)),
        ("tool_name"@, ValueView::Text(texts.name@)),
        ("tool_version"@, ValueView::Text(texts.version@)),
        ("phase"@, ValueView::Text(phase)),
        ("revision"@, ValueView::Number(snapshot.revision.0)),
        ("connection_generation"@, number_if(snapshot.dispatch.connection_generation)),
        ("terminal_digest"@, encoded_if(texts.terminal_digest)),
    ]
}

/// The document of a tool event tells the invocation as it is.
pub proof fn invocations_are_told(
    snapshot: ToolInvocationSnapshot,
    texts: ToolTexts,
    result: Result<Vec<u8>, StoreError>,
)
    requires
        call_ensures(tool_invocation_event_payload, (snapshot, &texts), result),
    ensures
        holds(result, invocation_document(snapshot, texts)),
{
    assert(named(tool_members(snapshot, texts)) =~= invocation_document(snapshot, texts));
}

/// A check of authority is told with its participant, a recovery with what it classified, and a
/// row of capacities with how much there is.
pub proof fn checks_and_recoveries_are_told(
    participant_id: ParticipantId,
    checked: Result<Vec<u8>, StoreError>,
    session_id: SessionId,
    request_id: RequestId,
    revision: Revision,
    classifications: String,
    recovered: Result<Vec<u8>, StoreError>,
    participants: u64,
    active_work: u64,
    deliveries: u64,
    resources: String,
    counted: Result<Vec<u8>, StoreError>,
)
    requires
        call_ensures(authority_event_payload, (participant_id,), checked),
        call_ensures(
            recovery_event_payload,
            (session_id, request_id, revision, &classifications),
            recovered,
        ),
        call_ensures(
            capacity_row_payload,
            (session_id, participants, active_work, deliveries, &resources),
            counted,
        ),
    ensures
        holds(
            checked,
            seq![
                ("schema"@, ValueView::Number(1)),
                ("participant_id"@, identity(participant_id.0)),
            ],
        ),
        holds(
            recovered,
            seq![
                ("schema_version"@, ValueView::Number(1)),
                ("session_id"@, identity(session_id.0)),
                ("request_id"@, identity(request_id.0)),
                ("revision"@, ValueView::Number(revision.0)),
                ("classifications"@, ValueView::Encoded(classifications@)),
            ],
        ),
        holds(
            counted,
            seq![
                ("schema_version"@, ValueView::Number(1)),
                ("session_id"@, identity(session_id.0)),
                ("participants"@, ValueView::Number(participants)),
                ("active_work"@, ValueView::Number(active_work)),
                ("deliveries"@, ValueView::Number(deliveries)),
                ("resources"@, ValueView::Encoded(resources@)),
            ],
        ),
{
    assert(named(authority_members(participant_id)) =~= seq![
        ("schema"@, ValueView::Number(1)),
        ("participant_id"@, identity(participant_id.0)),
    ]);
    assert(named(recovery_members(session_id, request_id, revision, classifications@)) =~= seq![
        ("schema_version"@, ValueView::Number(1)),
        ("session_id"@, identity(session_id.0)),
        ("request_id"@, identity(request_id.0)),
        ("revision"@, ValueView::Number(revision.0)),
        ("classifications"@, ValueView::Encoded(classifications@)),
    ]);
    assert(named(
        capacity_members(session_id, participants, active_work, deliveries, resources@),
    ) =~= seq![
        ("schema_version"@, ValueView::Number(1)),
        ("session_id"@, identity(session_id.0)),
        ("participants"@, ValueView::Number(participants)),
        ("active_work"@, ValueView::Number(active_work)),
        ("deliveries"@, ValueView::Number(deliveries)),
        ("resources"@, ValueView::Encoded(resources@)),
    ]);
}

/// How an uncertain effect was settled is told without the reason: only its digest is.
pub open spec fn resolution_document(
    effect: EffectEntry,
    resolution: UncertaintyResolution,
    texts: ResolutionTexts,
) -> Seq<(Seq<char>, ValueView)> {
    let name = match resolution {
        UncertaintyResolution::ConfirmCompleted => "confirm_completed"@,
        UncertaintyResolution::DoNotRetry => "do_not_retry"@,
        UncertaintyResolution::RetryWithEffectProof => "retry_with_effect_proof"@,
    };
    seq![
        ("effect_request_id"@, identity(effect.request_id.0)),
        ("effect_semantic_digest"@, ValueView::Encoded(texts.effect_semantic_digest@)),
        ("operation_id"@, identity(effect.operation_id.0)),
        ("participant_id"@, identity(effect.participant_id.0)),
        ("resolution"@, ValueView::Text(name)),
        ("reason"@, ValueView::Text("redacted"@)),
        ("reason_digest"@, ValueView::Encoded(texts.reason_digest@)),
        ("proof_kind"@, encoded_if(texts.proof_kind)),
        ("proof_digest"@, encoded_if(texts.proof_digest)),
        ("assertion_digest"@, ValueView::Encoded(texts.assertion_digest@)),
    ]
}

/// The document of a resolution tells the effect, and how it was settled.
pub proof fn resolutions_are_told(
    effect: EffectEntry,
    resolution: UncertaintyResolution,
    texts: ResolutionTexts,
    result: Result<Vec<u8>, StoreError>,
)
    requires
        call_ensures(resolution_event_payload, (effect, resolution, &texts), result),
    ensures
        holds(result, resolution_document(effect, resolution, texts)),
{
    assert(named(resolution_members(effect, resolution, texts)) =~= resolution_document(
        effect,
        resolution,
        texts,
    ));
}

/// What is told of a request for leave, of leave that was given, and of a use of it.
pub open spec fn approval_document(
    session_id: SessionId,
    record: ApprovalRecord,
    state: ApprovalState,
    texts: ApprovalTexts,
) -> Seq<(Seq<char>, ValueView)> {
    let status = match (state.request, record) {
        (Some(request), _) => Some(request.status),
        (None, ApprovalRecord::Request(request)) => Some(request.status),
        (None, _) => None,
    };
    let told = match status {
        None => ValueView::Null,
        Some(ApprovalStatus::Pending) => ValueView::Text("pending"@),
        Some(ApprovalStatus::Granted) => ValueView::Text("granted"@),
        Some(ApprovalStatus::Denied) => ValueView::Text("denied"@),
        Some(ApprovalStatus::Expired) => ValueView::Text("expired"@),
        Some(ApprovalStatus::Revoked) => ValueView::Text("revoked"@),
        Some(ApprovalStatus::Consumed) => ValueView::Text("consumed"@),
    };
    let request_revision = match state.request {
        Some(request) => ValueView::Number(request.revision),
        None => ValueView::Null,
    };
    let null = ValueView::Null;
    let (approval, grant, effect, subject, operation) = match record {
        ApprovalRecord::Request(request) => (
            Some(request.id),
            request.grant_id,
            null,
            request.requester_id,
            request.operation_id,
        ),
        ApprovalRecord::Grant(grant) => (
            Some(grant.request_id),
            Some(grant.id),
            null,
            grant.subject_id,
            grant.operation_id,
        ),
        ApprovalRecord::Effect(effect) => (
            state.approval_of_grant,
            Some(effect.grant_id),
            identity(effect.effect_id.0),
            effect.subject_id,
            effect.operation_id,
        ),
    };
    let (requester, coordinator, source) = match record {
        ApprovalRecord::Request(request) => (
            identity(request.requester_id.0),
            identity(request.coordinator_id.0),
            identity(request.source_message_id.0),
        ),
        _ => (null, null, null),
    };
    let (max_uses, used_count) = match record {
        ApprovalRecord::Grant(grant) => (
            ValueView::Number(grant.max_uses as u64),
            ValueView::Number(grant.used_count as u64),
        ),
        _ => (null, null),
    };
    let (effect_revision, phase) = match record {
        ApprovalRecord::Effect(effect) => (
            ValueView::Number(effect.revision.0),
            ValueView::Text(
                match effect.phase {
                    ApprovalEffectPhase::Reserved => "reserved"@,
                    ApprovalEffectPhase::Succeeded => "succeeded"@,
                    ApprovalEffectPhase::Failed => "failed"@,
                    ApprovalEffectPhase::Uncertain => "uncertain"@,
                },
            ),
        ),
        _ => (null, null),
    };
    let revision = match record {
        ApprovalRecord::Request(request) => request.revision.0,
        ApprovalRecord::Grant(grant) => grant.revision.0,
        ApprovalRecord::Effect(effect) => effect.revision.0,
    };
    seq![
        ("schema_version"@, ValueView::Number(1)),
        ("session_id"@, identity(session_id.0)),
        (
            "approval_id"@,
            identity_if(
                match approval {
                    Some(approval) => Some(approval.0),
                    None => None,
                },
            ),
        ),
        (
            "grant_id"@,
            identity_if(
                match grant {
                    Some(grant) => Some(grant.0),
                    None => None,
                },
            ),
        ),
        ("effect_id"@, effect),
        ("subject_id"@, identity(subject.0)),
        ("operation_id"@, identity(operation.0)),
        ("capability"@, ValueView::Encoded(texts.capability@)),
        ("resource_hash"@, ValueView::Encoded(texts.resource_hash@)),
        ("requester_id"@, requester),
        ("coordinator_id"@, coordinator),
        ("source_message_id"@, source),
        ("summary_digest"@, encoded_if(texts.summary_digest)),
        ("status"@, told),
        ("request_revision"@, request_revision),
        ("grant_revision"@, number_if(state.grant_revision)),
        ("effect_revision"@, effect_revision),
        ("phase"@, phase),
        ("max_uses"@, max_uses),
        ("used_count"@, used_count),
        ("expires_at"@, encoded_if(texts.expires_at)),
        ("revoked_at"@, encoded_if(texts.revoked_at)),
        ("created_at"@, ValueView::Encoded(texts.created_at@)),
        ("decided_at"@, encoded_if(texts.decided_at)),
        ("finished_at"@, encoded_if(texts.finished_at)),
        ("revision"@, ValueView::Number(revision)),
    ]
}

/// The document of an approval event tells what is kept of the request, the leave or the use that
/// it is about.
pub proof fn approvals_are_told(
    action: ApprovalAction,
    session_id: SessionId,
    record: ApprovalRecord,
    state: ApprovalState,
    texts: ApprovalTexts,
    result: Result<Vec<u8>, StoreError>,
)
    requires
        call_ensures(
            approval_event_payload,
            (action, session_id, record, state, &texts),
            result,
        ),
    ensures
        holds(result, approval_document(session_id, record, state, texts)),
{
    assert(named(approval_members(session_id, record, state, texts)) =~= approval_document(
        session_id,
        record,
        state,
        texts,
    ));
}

} // verus!
