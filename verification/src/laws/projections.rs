//! Events and the views that they change: what an event is about, and when it ends something.

use crate::approval::{
    approval_event_name, ApprovalAction, ApprovalEffectPhase, ApprovalRecord, ApprovalStatus,
};
use crate::error::StoreError;
use crate::ids::SessionId;
use crate::laws::operations::{can_be_taken, leads_to};
use crate::laws::words::has_ended;
use crate::mailbox::{delivery_event, message_event_names, DeliveryState, MessageSnapshot};
use crate::operation::{
    operation_event_name, state_event, state_text, OperationAction, OperationSnapshot,
    OperationState,
};
use crate::payload::{
    approval_event_payload, approval_of, message_event_payload, operation_event_payload,
    ApprovalState, ApprovalTexts, Times,
};
use crate::projection::event::{
    failing, json_is_array, json_number, json_text, projection_event_targets,
    projection_initial_event, projection_transition_allowed, read_document, terminal_state,
    EventFields, EventTarget,
};
use crate::projection::ProjectionView;
use crate::text::{uuid_text, uuid_value};
use vstd::prelude::*;

verus! {

pub(crate) proof fn lemma_words()
    ensures
        "queued"@.len() == 6 && "queued"@[0] == 'q',
        "starting"@.len() == 8 && "starting"@[0] == 's',
        "running"@.len() == 7 && "running"@[0] == 'r' && "running"@[2] == 'n',
        "waiting"@.len() == 7 && "waiting"@[0] == 'w',
        "cancelling"@.len() == 10,
        "succeeded"@.len() == 9 && "succeeded"@[0] == 's',
        "failed"@.len() == 6 && "failed"@[0] == 'f',
        "cancelled"@.len() == 9 && "cancelled"@[0] == 'c',
        "blocked"@.len() == 7 && "blocked"@[0] == 'b',
        "uncertain"@.len() == 9 && "uncertain"@[0] == 'u',
        "consumed"@.len() == 8 && "consumed"@[0] == 'c',
        "denied"@.len() == 6 && "denied"@[0] == 'd',
        "expired"@.len() == 7 && "expired"@[0] == 'e',
        "revoked"@.len() == 7 && "revoked"@[0] == 'r' && "revoked"@[2] == 'v',
        "accepted"@.len() == 8 && "accepted"@[0] == 'a',
        "dead_lettered"@.len() == 13 && "dead_lettered"@[0] == 'd',
        "pending"@.len() == 7 && "pending"@[0] == 'p',
        "granted"@.len() == 7 && "granted"@[0] == 'g',
        "reserved"@.len() == 8 && "reserved"@[0] == 'r',
        "retry_scheduled"@.len() == 15,
        "leased"@.len() == 6 && "leased"@[0] == 'l',
        "acceptance_pending"@.len() == 18,
        "acceptance_unknown"@.len() == 18,
{
    reveal_strlit("queued");
    reveal_strlit("starting");
    reveal_strlit("running");
    reveal_strlit("waiting");
    reveal_strlit("cancelling");
    reveal_strlit("succeeded");
    reveal_strlit("failed");
    reveal_strlit("cancelled");
    reveal_strlit("blocked");
    reveal_strlit("uncertain");
    reveal_strlit("consumed");
    reveal_strlit("denied");
    reveal_strlit("expired");
    reveal_strlit("revoked");
    reveal_strlit("accepted");
    reveal_strlit("dead_lettered");
    reveal_strlit("pending");
    reveal_strlit("granted");
    reveal_strlit("reserved");
    reveal_strlit("retry_scheduled");
    reveal_strlit("leased");
    reveal_strlit("acceptance_pending");
    reveal_strlit("acceptance_unknown");
}

proof fn lemma_ends(part: Seq<char>, text: Seq<char>)
    ensures
        part.is_suffix_of(text) ==> part.len() <= text.len() && forall|i: int|
            0 <= i < part.len() ==> #[trigger] part[i] == text[text.len() - part.len() + i],
{
    if part.is_suffix_of(text) {
        let from = text.len() - part.len();
        assert forall|i: int| 0 <= i < part.len() implies #[trigger] part[i] == text[from + i] by {
            assert(part[i] == text.subrange(from, text.len() as int)[i]);
        }
    }
}

proof fn lemma_failing_operation(state: OperationState)
    ensures
        failing(state_event(state)) <==> state is Failed || state is Uncertain,
{
    reveal_strlit(".failed");
    reveal_strlit(".dead_lettered");
    reveal_strlit(".uncertain");
    reveal_strlit("operation.queued");
    reveal_strlit("operation.starting");
    reveal_strlit("operation.running");
    reveal_strlit("operation.waiting");
    reveal_strlit("operation.cancelling");
    reveal_strlit("operation.succeeded");
    reveal_strlit("operation.failed");
    reveal_strlit("operation.cancelled");
    reveal_strlit("operation.blocked");
    reveal_strlit("operation.uncertain");
    let kind = state_event(state);
    let end = kind.len() as int;
    lemma_ends(".failed"@, kind);
    lemma_ends(".dead_lettered"@, kind);
    lemma_ends(".uncertain"@, kind);
    if state is Failed {
        assert(kind.subrange(end - 7, end) =~= ".failed"@);
    } else if ".failed"@.is_suffix_of(kind) {
        assert(".failed"@[6] == kind[end - 1] && ".failed"@[4] == kind[end - 3] && ".failed"@[3]
            == kind[end - 4]);
    }
    if state is Uncertain {
        assert(kind.subrange(end - 10, end) =~= ".uncertain"@);
    } else if ".uncertain"@.is_suffix_of(kind) {
        assert(".uncertain"@[9] == kind[end - 1]);
    }
    if ".dead_lettered"@.is_suffix_of(kind) {
        assert(".dead_lettered"@[13] == kind[end - 1] && ".dead_lettered"@[11] == kind[end - 3]);
    }
}

/// The event of an operation is about that operation among the active work. It ends the item for
/// an operation that succeeded, failed or was cancelled, and for no other; and it is a failure for
/// one that failed or whose end is uncertain.
pub proof fn operation_events_end_with_the_operation(
    snapshot: OperationSnapshot,
    times: Times,
    kind: &'static str,
    data: Vec<u8>,
    fields: EventFields,
    result: Result<Option<EventTarget>, StoreError>,
)
    requires
        call_ensures(
            operation_event_payload,
            (snapshot, &times),
            Ok::<Vec<u8>, StoreError>(data),
        ),
        call_ensures(operation_event_name, (snapshot.state,), kind),
        call_ensures(read_document, (&data,), Some(fields)),
        call_ensures(
            projection_event_targets,
            (snapshot.session_id, snapshot.revision.0, kind, Some(&fields)),
            result,
        ),
    ensures
        result matches Ok(Some(target)) && {
            &&& target.view is ActiveWork
            &&& target.key@ == uuid_text(snapshot.operation_id.0)
            &&& target.terminal <==> snapshot.state is Succeeded || snapshot.state is Failed
                || snapshot.state is Cancelled
            &&& target.failure_key is Some <==> snapshot.state is Failed || snapshot.state
                is Uncertain
            &&& target.failure_key matches Some(failure) ==> failure@ == kind@ + ":"@ + uuid_text(
                snapshot.operation_id.0,
            )
        },
{
    lemma_words();
    lemma_failing_operation(snapshot.state);
}

proof fn lemma_failing_message(state: DeliveryState)
    ensures
        failing(delivery_event(state).0) <==> state is DeadLetter || state is Uncertain,
{
    reveal_strlit(".failed");
    reveal_strlit(".dead_lettered");
    reveal_strlit(".uncertain");
    reveal_strlit("message.enqueued");
    reveal_strlit("message.retry_scheduled");
    reveal_strlit("message.leased");
    reveal_strlit("message.acceptance_pending");
    reveal_strlit("message.acceptance_unknown");
    reveal_strlit("message.accepted");
    reveal_strlit("message.uncertain");
    reveal_strlit("message.dead_lettered");
    let kind = delivery_event(state).0;
    let end = kind.len() as int;
    lemma_ends(".failed"@, kind);
    lemma_ends(".dead_lettered"@, kind);
    lemma_ends(".uncertain"@, kind);
    if state is DeadLetter {
        assert(kind.subrange(end - 14, end) =~= ".dead_lettered"@);
    } else if ".dead_lettered"@.is_suffix_of(kind) {
        assert(".dead_lettered"@[13] == kind[end - 1] && ".dead_lettered"@[11] == kind[end - 3]);
    }
    if state is Uncertain {
        assert(kind.subrange(end - 10, end) =~= ".uncertain"@);
    } else if ".uncertain"@.is_suffix_of(kind) {
        assert(".uncertain"@[9] == kind[end - 1] && ".uncertain"@[8] == kind[end - 2]);
    }
    if ".failed"@.is_suffix_of(kind) {
        assert(".failed"@[6] == kind[end - 1] && ".failed"@[4] == kind[end - 3] && ".failed"@[3]
            == kind[end - 4]);
    }
}

/// The event of a message is about that message among the deliveries. It ends the item once the
/// message was accepted or given up, and is a failure where it was given up or nobody knows.
pub proof fn message_events_end_with_the_delivery(
    snapshot: MessageSnapshot,
    priority: String,
    times: Times,
    names: (&'static str, &'static str),
    data: Vec<u8>,
    fields: EventFields,
    result: Result<Option<EventTarget>, StoreError>,
)
    requires
        call_ensures(
            message_event_payload,
            (snapshot, &priority, &times),
            Ok::<Vec<u8>, StoreError>(data),
        ),
        call_ensures(message_event_names, (snapshot.state,), names),
        call_ensures(read_document, (&data,), Some(fields)),
        call_ensures(
            projection_event_targets,
            (snapshot.session_id, snapshot.revision.0, names.0, Some(&fields)),
            result,
        ),
    ensures
        result matches Ok(Some(target)) && {
            &&& target.view is Delivery
            &&& target.key@ == uuid_text(snapshot.message_id.0)
            &&& target.terminal <==> snapshot.state is Accepted || snapshot.state is DeadLetter
            &&& target.failure_key is Some <==> snapshot.state is DeadLetter || snapshot.state
                is Uncertain
            &&& target.failure_key matches Some(failure) ==> failure@ == names.0@ + ":"@
                + uuid_text(snapshot.message_id.0)
        },
{
    lemma_words();
    lemma_failing_message(snapshot.state);
}

/// The event of an approval is about that approval. It ends the item once the request was
/// denied, expired, revoked or used up; without a request, once the effect came to an end that is
/// known.
pub proof fn approval_events_end_with_the_request(
    action: ApprovalAction,
    session_id: SessionId,
    record: ApprovalRecord,
    state: ApprovalState,
    texts: ApprovalTexts,
    kind: &'static str,
    data: Vec<u8>,
    fields: EventFields,
    result: Result<Option<EventTarget>, StoreError>,
)
    requires
        call_ensures(
            approval_event_payload,
            (action, session_id, record, state, &texts),
            Ok::<Vec<u8>, StoreError>(data),
        ),
        call_ensures(approval_event_name, (action,), kind),
        call_ensures(read_document, (&data,), Some(fields)),
        match record {
            ApprovalRecord::Request(request) => call_ensures(
                projection_event_targets,
                (session_id, request.revision.0, kind, Some(&fields)),
                result,
            ),
            ApprovalRecord::Grant(grant) => call_ensures(
                projection_event_targets,
                (session_id, grant.revision.0, kind, Some(&fields)),
                result,
            ),
            ApprovalRecord::Effect(effect) => call_ensures(
                projection_event_targets,
                (session_id, effect.revision.0, kind, Some(&fields)),
                result,
            ),
        },
    ensures
        record matches ApprovalRecord::Request(request) ==> state.request is None && fits(
            action,
            request.status,
        ) ==> (result matches Ok(Some(target)) && target.view is Approval && target.key@
            == uuid_text(request.id.0) && target.failure_key is None && (target.terminal
            <==> is_final(request.status))),
        record matches ApprovalRecord::Grant(grant) ==> (state.request matches Some(request) ==> (
        fits(action, request.status) ==> (result matches Ok(Some(target)) && target.view
            is Approval && target.key@ == uuid_text(grant.request_id.0) && (target.terminal
            <==> is_final(request.status))))),
        record matches ApprovalRecord::Effect(effect) ==> state.request is None
            && state.approval_of_grant is Some && action is FinishEffect && !(effect.phase
            is Reserved) ==> (result matches Ok(Some(target)) && target.view is Approval
            && target.key@ == uuid_text(state.approval_of_grant->Some_0.0) && (target.terminal
            <==> effect.phase is Succeeded || effect.phase is Failed)),
{
    lemma_words();
}

/// The action tells of a request in this state.
pub open spec fn fits(action: ApprovalAction, status: ApprovalStatus) -> bool {
    match action {
        ApprovalAction::Request => status is Pending,
        ApprovalAction::Approve => status is Granted,
        ApprovalAction::Deny => status is Denied,
        ApprovalAction::Expire => status is Expired,
        ApprovalAction::Revoke => status is Revoked,
        ApprovalAction::Consume => status is Granted || status is Consumed,
        ApprovalAction::FinishEffect => false,
    }
}

/// Nothing more comes of the request.
pub open spec fn is_final(status: ApprovalStatus) -> bool {
    status is Denied || status is Expired || status is Revoked || status is Consumed
}

pub(crate) proof fn lemma_families(kind: Seq<char>)
    ensures
        "participant."@.is_prefix_of(kind) ==> kind.len() >= 12 && kind[0] == 'p',
        "operation."@.is_prefix_of(kind) ==> kind.len() >= 10 && kind[0] == 'o',
        "message."@.is_prefix_of(kind) ==> kind.len() >= 8 && kind[0] == 'm',
        "approval."@.is_prefix_of(kind) ==> kind.len() >= 9 && kind[0] == 'a',
        "recovery."@.is_prefix_of(kind) ==> kind.len() >= 9 && kind[0] == 'r',
        "capacity."@.is_prefix_of(kind) ==> kind.len() >= 9 && kind[0] == 'c',
        "failure."@.is_prefix_of(kind) ==> kind.len() >= 8 && kind[0] == 'f',
        kind == "participant.create_root"@ || kind == "participant.create_child"@
            ==> "participant."@.is_prefix_of(kind),
        kind == "participant.created"@ ==> kind != "participant.create_root"@ && kind
            != "participant.create_child"@ && "participant."@.is_prefix_of(kind),
{
    reveal_strlit("participant.");
    reveal_strlit("operation.");
    reveal_strlit("message.");
    reveal_strlit("approval.");
    reveal_strlit("recovery.");
    reveal_strlit("capacity.");
    reveal_strlit("failure.");
    reveal_strlit("participant.create_root");
    reveal_strlit("participant.create_child");
    reveal_strlit("participant.created");
    if "participant."@.is_prefix_of(kind) {
        assert("participant."@[0] == kind.subrange(0, 12)[0]);
    }
    if "operation."@.is_prefix_of(kind) {
        assert("operation."@[0] == kind.subrange(0, 10)[0]);
    }
    if "message."@.is_prefix_of(kind) {
        assert("message."@[0] == kind.subrange(0, 8)[0]);
    }
    if "approval."@.is_prefix_of(kind) {
        assert("approval."@[0] == kind.subrange(0, 9)[0]);
    }
    if "recovery."@.is_prefix_of(kind) {
        assert("recovery."@[0] == kind.subrange(0, 9)[0]);
    }
    if "capacity."@.is_prefix_of(kind) {
        assert("capacity."@[0] == kind.subrange(0, 9)[0]);
    }
    if "failure."@.is_prefix_of(kind) {
        assert("failure."@[0] == kind.subrange(0, 8)[0]);
    }
    if kind == "participant.create_root"@ || kind == "participant.create_child"@ || kind
        == "participant.created"@ {
        assert(kind.subrange(0, 12) =~= "participant."@);
    }
}

/// Events of other families change no view, and neither do the requests that announce a
/// participant. Every other event must carry a document.
pub proof fn other_events_change_no_view(
    session_id: SessionId,
    revision: u64,
    kind: &str,
    fields: EventFields,
    result: Result<Option<EventTarget>, StoreError>,
    without: Result<Option<EventTarget>, StoreError>,
)
    requires
        call_ensures(
            projection_event_targets,
            (session_id, revision, kind, Some(&fields)),
            result,
        ),
        call_ensures(
            projection_event_targets,
            (session_id, revision, kind, None::<&EventFields>),
            without,
        ),
    ensures
        result matches Ok(None) <==> {
            ||| kind@ == "participant.create_root"@
            ||| kind@ == "participant.create_child"@
            ||| {
                &&& !"participant."@.is_prefix_of(kind@)
                &&& !"operation."@.is_prefix_of(kind@)
                &&& !"message."@.is_prefix_of(kind@)
                &&& !"approval."@.is_prefix_of(kind@)
                &&& !"recovery."@.is_prefix_of(kind@)
                &&& !"capacity."@.is_prefix_of(kind@)
                &&& !"failure."@.is_prefix_of(kind@)
            }
        },
        without matches Ok(None) <==> result matches Ok(None),
        without is Err <==> !(result matches Ok(None)),
        result matches Err(error) ==> error == StoreError::Corrupt,
        without matches Err(error) ==> error == StoreError::Corrupt,
{
    lemma_families(kind@);
}

/// What an event changes is what its document names: in its own session, at its revision, under
/// the identity that its family goes by, and in the state that its type says.
pub proof fn events_change_what_they_name(
    session_id: SessionId,
    revision: u64,
    kind: &str,
    data: Vec<u8>,
    fields: EventFields,
    target: EventTarget,
)
    requires
        call_ensures(read_document, (&data,), Some(fields)),
        call_ensures(
            projection_event_targets,
            (session_id, revision, kind, Some(&fields)),
            Ok::<Option<EventTarget>, StoreError>(Some(target)),
        ),
    ensures
        json_number(data@, "schema_version"@) == Some(1u64),
        json_text(data@, "session_id"@) == Some(uuid_text(session_id.0)),
        json_number(data@, "revision"@) == Some(revision),
        "participant."@.is_prefix_of(kind@) <==> target.view is SessionTree,
        "operation."@.is_prefix_of(kind@) <==> target.view is ActiveWork,
        "message."@.is_prefix_of(kind@) <==> target.view is Delivery,
        "approval."@.is_prefix_of(kind@) <==> target.view is Approval,
        "recovery."@.is_prefix_of(kind@) <==> target.view is Recovery,
        "capacity."@.is_prefix_of(kind@) <==> target.view is Capacity,
        "failure."@.is_prefix_of(kind@) <==> target.view is Failure,
        target.view is SessionTree ==> {
            &&& kind@ == "participant.created"@
            &&& json_text(data@, "participant_id"@) == Some(target.key@)
            &&& json_text(data@, "lifecycle"@) == Some("registered"@)
        },
        target.view is ActiveWork ==> {
            &&& json_text(data@, "operation_id"@) == Some(target.key@)
            &&& json_text(data@, "state"@) matches Some(state)
            &&& kind@ == "operation."@ + state
            &&& json_text(data@, "participant_id"@) matches Some(owner)
            &&& uuid_value(owner) is Some
        },
        target.view is Delivery ==> {
            &&& json_text(data@, "message_id"@) == Some(target.key@)
            &&& json_text(data@, "state"@) matches Some(state)
            &&& kind@ == "message."@ + state || (kind@ == "message.enqueued"@ && state
                == "queued"@)
            &&& json_text(data@, "source"@) matches Some(source)
            &&& uuid_value(source) is Some
            &&& json_text(data@, "destination"@) matches Some(destination)
            &&& uuid_value(destination) is Some
        },
        target.view is Approval ==> json_text(data@, "approval_id"@) == Some(target.key@),
        target.view is Recovery ==> {
            &&& kind@ == "recovery.classified"@
            &&& json_is_array(data@, "classifications"@)
            &&& json_text(data@, "entity_id"@) == Some(target.key@) || (json_text(
                data@,
                "entity_id"@,
            ) is None && json_text(data@, "request_id"@) == Some(target.key@))
        },
        target.view is Capacity ==> {
            &&& kind@ == "capacity.observed"@
            &&& json_number(data@, "available"@) matches Some(available)
            &&& json_number(data@, "total"@) matches Some(total)
            &&& available <= total
            &&& json_text(data@, "scope_id"@) == Some(target.key@) || (json_text(
                data@,
                "scope_id"@,
            ) is None && json_text(data@, "resource"@) == Some(target.key@))
        },
        target.view is Failure ==> {
            &&& kind@ == "failure.recorded"@
            &&& json_text(data@, "failure_id"@) == Some(target.key@)
            &&& json_text(data@, "code"@) is Some
            &&& json_text(data@, "entity_id"@) is Some
        },
        !(target.view is Capacity) ==> uuid_value(target.key@) is Some,
        target.key@.len() > 0,
{
    lemma_families(kind@);
}

/// What the events of an approval must say of it.
pub proof fn approval_events_say_what_happened(
    session_id: SessionId,
    revision: u64,
    kind: &str,
    data: Vec<u8>,
    fields: EventFields,
    target: EventTarget,
)
    requires
        call_ensures(read_document, (&data,), Some(fields)),
        call_ensures(
            projection_event_targets,
            (session_id, revision, kind, Some(&fields)),
            Ok::<Option<EventTarget>, StoreError>(Some(target)),
        ),
        target.view is Approval,
    ensures
        ({
            let status = json_text(data@, "status"@);
            let phase = json_text(data@, "phase"@);
            ||| kind@ == "approval.requested"@ && status == Some("pending"@)
            ||| kind@ == "approval.granted"@ && status == Some("granted"@)
            ||| kind@ == "approval.denied"@ && status == Some("denied"@)
            ||| kind@ == "approval.expired"@ && status == Some("expired"@)
            ||| kind@ == "approval.revoked"@ && status == Some("revoked"@)
            ||| kind@ == "approval.consumed"@ && (status == Some("granted"@) || status == Some(
                "consumed"@,
            ))
            ||| kind@ == "approval.effect.finished"@ && (phase == Some("succeeded"@) || phase
                == Some("failed"@) || phase == Some("uncertain"@))
        }),
{
    lemma_families(kind@);
}

/// The action that leads to a state.
pub open spec fn action_to(next: OperationState, previous: OperationState) -> OperationAction {
    match next {
        OperationState::Starting => OperationAction::BeginStart,
        OperationState::Running => if previous is Waiting {
            OperationAction::Resume
        } else {
            OperationAction::ReportRunning
        },
        OperationState::Waiting => OperationAction::Wait,
        OperationState::Cancelling => OperationAction::RequestCancel,
        OperationState::Succeeded => OperationAction::ReportSuccess,
        OperationState::Failed => OperationAction::ReportFailure,
        OperationState::Cancelled => OperationAction::ReportCancelled,
        OperationState::Blocked => OperationAction::ReportBlocked,
        _ => OperationAction::ReportUncertain,
    }
}

proof fn lemma_operation_names()
    ensures
        "operation.queued"@.len() == 16 && "operation.queued"@[10] == 'q',
        "operation.starting"@.len() == 18 && "operation.starting"@[10] == 's',
        "operation.running"@.len() == 17 && "operation.running"@[10] == 'r',
        "operation.waiting"@.len() == 17 && "operation.waiting"@[10] == 'w',
        "operation.cancelling"@.len() == 20,
        "operation.succeeded"@.len() == 19 && "operation.succeeded"@[10] == 's',
        "operation.failed"@.len() == 16 && "operation.failed"@[10] == 'f',
        "operation.cancelled"@.len() == 19 && "operation.cancelled"@[10] == 'c',
        "operation.blocked"@.len() == 17 && "operation.blocked"@[10] == 'b',
        "operation.uncertain"@.len() == 19 && "operation.uncertain"@[10] == 'u',
{
    reveal_strlit("operation.queued");
    reveal_strlit("operation.starting");
    reveal_strlit("operation.running");
    reveal_strlit("operation.waiting");
    reveal_strlit("operation.cancelling");
    reveal_strlit("operation.succeeded");
    reveal_strlit("operation.failed");
    reveal_strlit("operation.cancelled");
    reveal_strlit("operation.blocked");
    reveal_strlit("operation.uncertain");
}

/// The active work view follows an operation exactly along the moves that an operation makes, but
/// for an operation that ends while it is queued and one that is cancelled while it starts.
pub proof fn active_work_moves_like_operations(
    previous: OperationState,
    next: OperationState,
    previous_name: &'static str,
    next_name: &'static str,
    allowed: bool,
    initial: bool,
)
    requires
        call_ensures(operation_event_name, (previous,), previous_name),
        call_ensures(operation_event_name, (next,), next_name),
        call_ensures(
            projection_transition_allowed,
            (ProjectionView::ActiveWork, previous_name, next_name),
            allowed,
        ),
        call_ensures(projection_initial_event, (ProjectionView::ActiveWork, next_name), initial),
    ensures
        allowed <==> {
            &&& !(next is Queued)
            &&& can_be_taken(previous, action_to(next, previous))
            &&& leads_to(action_to(next, previous), next)
            &&& !(previous is Queued && has_ended(next))
            &&& !(previous is Starting && next is Cancelling)
        },
        initial <==> next is Queued,
{
    lemma_operation_names();
}

proof fn lemma_message_names()
    ensures
        "message.enqueued"@.len() == 16 && "message.enqueued"@[8] == 'e',
        "message.retry_scheduled"@.len() == 23,
        "message.leased"@.len() == 14,
        "message.acceptance_pending"@.len() == 26 && "message.acceptance_pending"@[19] == 'p',
        "message.acceptance_unknown"@.len() == 26 && "message.acceptance_unknown"@[19] == 'u',
        "message.accepted"@.len() == 16 && "message.accepted"@[8] == 'a',
        "message.uncertain"@.len() == 17,
        "message.dead_lettered"@.len() == 21,
{
    reveal_strlit("message.enqueued");
    reveal_strlit("message.retry_scheduled");
    reveal_strlit("message.leased");
    reveal_strlit("message.acceptance_pending");
    reveal_strlit("message.acceptance_unknown");
    reveal_strlit("message.accepted");
    reveal_strlit("message.uncertain");
    reveal_strlit("message.dead_lettered");
}

/// The delivery view follows a message from the queue to a lease, from a lease to acceptance,
/// back to the queue or out of it, and from acceptance to what came of it.
pub proof fn deliveries_move_like_messages(
    previous: DeliveryState,
    next: DeliveryState,
    previous_names: (&'static str, &'static str),
    next_names: (&'static str, &'static str),
    allowed: bool,
    initial: bool,
)
    requires
        call_ensures(message_event_names, (previous,), previous_names),
        call_ensures(message_event_names, (next,), next_names),
        call_ensures(
            projection_transition_allowed,
            (ProjectionView::Delivery, previous_names.0, next_names.0),
            allowed,
        ),
        call_ensures(projection_initial_event, (ProjectionView::Delivery, next_names.0), initial),
    ensures
        allowed <==> match previous {
            DeliveryState::Queued | DeliveryState::RetryScheduled { .. } => next is Leased,
            DeliveryState::Leased { .. } => next is AcceptancePending || next is RetryScheduled
                || next is DeadLetter,
            DeliveryState::AcceptancePending { .. } => next is AcceptanceUnknown || next
                is Accepted || next is Uncertain,
            DeliveryState::AcceptanceUnknown { .. } => next is Accepted || next is Uncertain,
            _ => false,
        },
        initial <==> next is Queued,
{
    lemma_message_names();
}

/// A participant is told of again only as created; what was classified, observed or failed once
/// is not told again under the same name.
pub proof fn single_events_are_not_repeated(
    previous: &str,
    next: &str,
    tree: bool,
    recovery: bool,
    capacity: bool,
    failure: bool,
    first_in_tree: bool,
    first_recovery: bool,
    first_observation: bool,
)
    requires
        call_ensures(
            projection_transition_allowed,
            (ProjectionView::SessionTree, previous, next),
            tree,
        ),
        call_ensures(
            projection_transition_allowed,
            (ProjectionView::Recovery, previous, next),
            recovery,
        ),
        call_ensures(
            projection_transition_allowed,
            (ProjectionView::Capacity, previous, next),
            capacity,
        ),
        call_ensures(
            projection_transition_allowed,
            (ProjectionView::Failure, previous, next),
            failure,
        ),
        call_ensures(
            projection_initial_event,
            (ProjectionView::SessionTree, next),
            first_in_tree,
        ),
        call_ensures(projection_initial_event, (ProjectionView::Recovery, next), first_recovery),
        call_ensures(projection_initial_event, (ProjectionView::Capacity, next), first_observation),
    ensures
        tree <==> previous@ == "participant.created"@ && next@ == "participant.created"@,
        !recovery && !capacity && !failure,
        first_in_tree <==> next@ == "participant.created"@,
        first_recovery <==> next@ == "recovery.classified"@,
        first_observation <==> next@ == "capacity.observed"@,
{
}

} // verus!
