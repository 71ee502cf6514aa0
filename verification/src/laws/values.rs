//! Values that the operations share: identities, revisions, leases and the words for an end.

use crate::approval::approval_operation_live;
use crate::error::{OwnershipSnapshot, StoreError};
use crate::ids::{
    derived_identity_bits, derived_identities_are_random_uuids, parse_artifact_id,
    parse_driver_id, parse_host_id, parse_instance_id, parse_launch_attempt, parse_message_id,
    parse_operation_id, parse_participant_id, parse_request_id, parse_session_id,
    parse_template_id, ArtifactId, Digest, DriverId, HostId, InstanceId, LaunchAttemptId,
    MessageId, OperationId, ParticipantId, RequestId, Revision, SessionId, TemplateId,
};
use crate::launch::ProcessEvidence;
use crate::mailbox::{
    make_queued_message, resumption_of, validate_work_limit, DeliveryPlan, DeliveryState,
    EnqueueMessage, MessageSnapshot,
};
use crate::operation::{
    public_terminal_outcome, terminal_matches_state, OperationSnapshot, OperationState,
    OutcomeKind, TerminalOutcome,
};
use crate::session::{ownership_snapshot, LeaseWire, OwnershipLease};
use crate::text::uuid_value;
use crate::time::Timestamp;
use vstd::prelude::*;

verus! {

/// The identities of sessions, participants and their work are read from the text of a UUID that
/// their types accept, and from nothing else.
pub proof fn identities_are_read(
    text: &str,
    accepted: bool,
    session: Result<SessionId, StoreError>,
    participant: Result<ParticipantId, StoreError>,
    template: Result<TemplateId, StoreError>,
    operation: Result<OperationId, StoreError>,
    message: Result<MessageId, StoreError>,
    request: Result<RequestId, StoreError>,
)
    requires
        call_ensures(parse_session_id, (text, accepted), session),
        call_ensures(parse_participant_id, (text, accepted), participant),
        call_ensures(parse_template_id, (text, accepted), template),
        call_ensures(parse_operation_id, (text, accepted), operation),
        call_ensures(parse_message_id, (text, accepted), message),
        call_ensures(parse_request_id, (text, accepted), request),
    ensures
        session is Ok <==> accepted && uuid_value(text@) is Some,
        session matches Ok(id) ==> uuid_value(text@) == Some(id.0),
        session matches Err(error) ==> error == StoreError::Corrupt,
        participant is Ok <==> accepted && uuid_value(text@) is Some,
        participant matches Ok(id) ==> uuid_value(text@) == Some(id.0),
        participant matches Err(error) ==> error == StoreError::Corrupt,
        template is Ok <==> accepted && uuid_value(text@) is Some,
        template matches Ok(id) ==> uuid_value(text@) == Some(id.0),
        template matches Err(error) ==> error == StoreError::Corrupt,
        operation is Ok <==> accepted && uuid_value(text@) is Some,
        operation matches Ok(id) ==> uuid_value(text@) == Some(id.0),
        operation matches Err(error) ==> error == StoreError::Corrupt,
        message is Ok <==> accepted && uuid_value(text@) is Some,
        message matches Ok(id) ==> uuid_value(text@) == Some(id.0),
        message matches Err(error) ==> error == StoreError::Corrupt,
        request is Ok <==> accepted && uuid_value(text@) is Some,
        request matches Ok(id) ==> uuid_value(text@) == Some(id.0),
        request matches Err(error) ==> error == StoreError::Corrupt,
{
}

/// The identities of drivers, launches, artifacts and hosts are read in the same way.
pub proof fn identities_of_the_outside_are_read(
    text: &str,
    accepted: bool,
    driver: Result<DriverId, StoreError>,
    attempt: Result<LaunchAttemptId, StoreError>,
    instance: Result<InstanceId, StoreError>,
    artifact: Result<ArtifactId, StoreError>,
    host: Result<HostId, StoreError>,
)
    requires
        call_ensures(parse_driver_id, (text, accepted), driver),
        call_ensures(parse_launch_attempt, (text, accepted), attempt),
        call_ensures(parse_instance_id, (text, accepted), instance),
        call_ensures(parse_artifact_id, (text, accepted), artifact),
        call_ensures(parse_host_id, (text, accepted), host),
    ensures
        driver is Ok <==> accepted && uuid_value(text@) is Some,
        driver matches Ok(id) ==> uuid_value(text@) == Some(id.0),
        driver matches Err(error) ==> error == StoreError::Corrupt,
        attempt is Ok <==> accepted && uuid_value(text@) is Some,
        attempt matches Ok(id) ==> uuid_value(text@) == Some(id.0),
        attempt matches Err(error) ==> error == StoreError::Corrupt,
        instance is Ok <==> accepted && uuid_value(text@) is Some,
        instance matches Ok(id) ==> uuid_value(text@) == Some(id.0),
        instance matches Err(error) ==> error == StoreError::Corrupt,
        artifact is Ok <==> accepted && uuid_value(text@) is Some,
        artifact matches Ok(id) ==> uuid_value(text@) == Some(id.0),
        artifact matches Err(error) ==> error == StoreError::Corrupt,
        host is Ok <==> accepted && uuid_value(text@) is Some,
        host matches Ok(id) ==> uuid_value(text@) == Some(id.0),
        host matches Err(error) ==> error == StoreError::Corrupt,
{
}

/// A revision is followed by the next number, until there is none left.
pub proof fn revisions_count_up(
    revision: Revision,
    next: Option<Revision>,
    advanced: Result<Revision, StoreError>,
)
    requires
        call_ensures(Revision::next, (revision,), next),
        call_ensures(Revision::advance, (revision,), advanced),
    ensures
        next is None <==> revision.0 == u64::MAX,
        next matches Some(following) ==> following.0 == revision.0 + 1,
        advanced is Ok <==> next is Some,
        advanced matches Ok(following) ==> next == Some(following),
        advanced matches Err(error) ==> error == StoreError::Corrupt,
{
}

/// An identity that follows from a digest is stamped as a random UUID: six bits of it are fixed,
/// all others are the digest's.
pub proof fn identities_follow_from_digests(digest: Digest, bits: u128)
    requires
        call_ensures(derived_identity_bits, (digest,), bits),
    ensures
        (bits >> 76) & 0xf == 4,
        (bits >> 62) & 0x3 == 2,
        bits & 0xffff_ffff_ffff_0fff_3fff_ffff_ffff_ffffu128 == digest.high
            & 0xffff_ffff_ffff_0fff_3fff_ffff_ffff_ffffu128,
{
    derived_identities_are_random_uuids(digest);
}

/// A lease holds up to its end, is shown as it is, and is recorded with the time at which it was
/// issued; the record is read back as the same lease, if it ends after it was issued.
pub proof fn leases_are_kept_as_they_are(
    lease: OwnershipLease,
    now: Timestamp,
    effective: bool,
    snapshot: OwnershipSnapshot,
    wire: LeaseWire,
    ids_accepted: bool,
    read: Result<OwnershipLease, StoreError>,
)
    requires
        call_ensures(OwnershipLease::is_effective_at, (lease, now), effective),
        call_ensures(ownership_snapshot, (lease,), snapshot),
        call_ensures(LeaseWire::from_lease, (lease, now), wire),
        call_ensures(LeaseWire::into_lease, (wire, ids_accepted), read),
    ensures
        effective <==> now.seconds < lease.expires_at.seconds || (now.seconds
            == lease.expires_at.seconds && now.nanos < lease.expires_at.nanos),
        snapshot matches OwnershipSnapshot::Owned { host_id, epoch, expires_at } && host_id
            == lease.owner && epoch == lease.epoch && expires_at == lease.expires_at,
        wire.session_id == lease.session_id,
        wire.owner == lease.owner,
        wire.epoch == lease.epoch.0,
        wire.issued_seconds == now.seconds,
        wire.issued_nanos == now.nanos,
        wire.expires_seconds == lease.expires_at.seconds,
        wire.expires_nanos == lease.expires_at.nanos,
        read is Ok <==> ids_accepted && effective && lease.epoch.0 >= 1 && now.nanos
            < 1_000_000_000 && lease.expires_at.nanos < 1_000_000_000,
        read matches Ok(again) ==> again == lease,
        read matches Err(error) ==> error == StoreError::Corrupt,
{
}

/// An operation has ended when it succeeded, failed, was cancelled or blocked, or is uncertain; a
/// delivery when it was accepted, is uncertain, or was given up.
pub proof fn ends_are_known(
    state: OperationState,
    ended: bool,
    delivery: DeliveryState,
    delivered: bool,
    outcome: TerminalOutcome,
    fits: bool,
    kind: OutcomeKind,
)
    requires
        call_ensures(OperationState::is_terminal, (state,), ended),
        call_ensures(DeliveryState::is_terminal, (delivery,), delivered),
        call_ensures(terminal_matches_state, (state, outcome), fits),
        call_ensures(public_terminal_outcome, (outcome,), kind),
    ensures
        ended <==> state is Succeeded || state is Failed || state is Cancelled || state is Blocked
            || state is Uncertain,
        delivered <==> delivery is Accepted || delivery is Uncertain || delivery is DeadLetter,
        kind == outcome.kind,
        fits <==> {
            ||| outcome.kind is Succeeded && state is Succeeded
            ||| outcome.kind is Failed && state is Failed
            ||| outcome.kind is Cancelled && state is Cancelled
            ||| outcome.kind is Blocked && state is Blocked
            ||| outcome.kind is Uncertain && state is Uncertain
        },
{
}

/// Leave is asked for and used only in an operation of the participant that is at work.
pub proof fn leave_is_for_operations_at_work(
    operation: Option<OperationSnapshot>,
    session_id: SessionId,
    participant_id: ParticipantId,
    operation_id: OperationId,
    result: bool,
)
    requires
        call_ensures(
            approval_operation_live,
            (operation, session_id, participant_id, operation_id),
            result,
        ),
    ensures
        result <==> {
            &&& operation matches Some(operation)
            &&& operation.operation_id == operation_id
            &&& operation.session_id == session_id
            &&& operation.participant_id == participant_id
            &&& operation.state is Running || operation.state is Waiting
        },
{
}

/// A process is known by all of its marks: none of them is zero.
pub proof fn evidence_is_whole(evidence: ProcessEvidence, result: bool)
    requires
        call_ensures(ProcessEvidence::is_complete, (evidence,), result),
    ensures
        result <==> {
            &&& evidence.process_id != 0
            &&& evidence.process_group_id != 0
            &&& evidence.parent_process_id != 0
            &&& evidence.creation_marker != 0
            &&& evidence.executable_identity.high != 0 || evidence.executable_identity.low != 0
        },
{
}

/// A message is queued as it was sent, and work that goes on with a delivery is told as resumed.
pub proof fn messages_are_queued_as_sent(
    command: EnqueueMessage,
    sequence: u64,
    now: Timestamp,
    message: MessageSnapshot,
    plan: DeliveryPlan,
    told: Option<(OperationSnapshot, &'static str)>,
    limit: usize,
    max: usize,
    bounded: Result<(), StoreError>,
)
    requires
        call_ensures(make_queued_message, (command, sequence, now), message),
        call_ensures(resumption_of, (&plan,), told),
        call_ensures(validate_work_limit, (limit, max), bounded),
    ensures
        message.session_id == command.session_id,
        message.message_id == command.message_id,
        message.source == command.source,
        message.destination == command.destination,
        message.mailbox_sequence == sequence,
        message.priority == command.priority,
        message.correlation == command.correlation,
        message.envelope == command.envelope,
        message.attempt_count == 0,
        message.state is Queued,
        message.revision.0 == 1,
        message.created_at == now,
        message.updated_at == now,
        plan.operation is None ==> told is None,
        plan.operation matches Some(operation) ==> (told matches Some((resumed, kind)) && resumed
            == operation && kind@ == "operation.resumed"@),
        bounded is Ok <==> 0 < limit <= max,
        bounded matches Err(error) ==> error == StoreError::Invalid,
{
}

} // verus!
