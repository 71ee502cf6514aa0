//! Records: requests that were answered before, events that are appended, and the numbers, times
//! and identities that are read from them.

use crate::database::{
    map_database_error, map_sqlx, validate_compatibility_manifest, DatabaseFault, ManifestRow,
};
use crate::error::{error_of, wire_of, CapacityReason, CapacityResource, StoreError};
use crate::ids::{
    decode_digest, decode_epoch, decode_revision, derived_identities_are_random_uuids,
    derived_store_message_id, digest_bytes,
    digests_read_back, encode_digest, is_digest, is_identity, to_i64, to_u64, Digest, FencingEpoch,
    HostId, MessageId, RequestId, Revision, SessionId,
};
use crate::journal::{append_event, decode_event, EventHeader, EventNumbers, EventPlan, JournalFacts};
use crate::laws::sessions::{is_owned_by, is_shut_out};
use crate::laws::words::latest;
use crate::ledger::{
    action_name, approval_effect_identity_available, begin_request, decode_stored_request,
    mutation_replay, reject_effect_identity_collision, reject_request_collision, replay_bytes,
    stored_result_kind, Begin, LedgerRow, RecordedMutation, Request, RequestContext, StoreAction,
    StoredEffect, StoredOutcome, StoredRequest, StoredResultKind,
};
use crate::session::SessionRow;
use crate::text::{same_text, uuid_text, uuid_value};
use crate::time::{
    decode_timestamp, effect_expiry, elapsed_is, expiry, lease_lasts_its_duration, on_calendar,
    timestamp_before, Timestamp,
};
use vstd::prelude::*;

verus! {

/// The row was written by the same caller for the same action and content.
pub open spec fn is_the_same(request: Request, row: LedgerRow) -> bool {
    &&& row.caller@ == uuid_text(request.context.caller.0)
    &&& row.action@ == request.action@
    &&& row.digest@ == digest_bytes(request.digest)
}

/// A request is done only if nothing is known of its identity. One that was answered gets the
/// same answer again, and one under an identity that anything else has used is in conflict.
pub proof fn answers_are_given_again(
    request: Request,
    row: Option<LedgerRow>,
    taken: bool,
    result: Result<bool, StoreError>,
)
    requires
        call_ensures(replay_bytes, (&request, row, taken), result),
    ensures
        result == Ok::<bool, StoreError>(false) <==> row is None && !taken,
        result == Ok::<bool, StoreError>(true) <==> (row matches Some(row) && is_the_same(
            request,
            row,
        ) && row.outcome@ == "succeeded"@),
        row is None && taken ==> result == Err::<bool, StoreError>(
            StoreError::RequestConflict { request_id: request.context.request_id },
        ),
        row matches Some(row) ==> {
            &&& !is_the_same(request, row) ==> result == Err::<bool, StoreError>(
                StoreError::RequestConflict { request_id: request.context.request_id },
            )
            &&& is_the_same(request, row) && row.outcome@ == "failed"@ ==> {
                &&& row.failure is None ==> result == Err::<bool, StoreError>(StoreError::Corrupt)
                &&& row.failure matches Some(failure) ==> result == Err::<bool, StoreError>(
                    error_of(failure),
                )
            }
            &&& is_the_same(request, row) && row.outcome@ != "failed"@ && row.outcome@
                != "succeeded"@ ==> result == Err::<bool, StoreError>(StoreError::Corrupt)
        },
{
    reveal_strlit("failed");
    reveal_strlit("succeeded");
    assert("failed"@.len() != "succeeded"@.len());
}

/// A new request goes on exactly for the owner of an open session, at a time that never falls
/// behind. A refusal of the owner is kept with that time; a conflict is not kept.
pub proof fn requests_begin_once(
    request: Request,
    row: Option<LedgerRow>,
    taken: bool,
    session_id: SessionId,
    session: SessionRow,
    epoch: FencingEpoch,
    closing: bool,
    observed: Timestamp,
    earlier: Result<bool, StoreError>,
    begin: Begin,
)
    requires
        call_ensures(replay_bytes, (&request, row, taken), earlier),
        call_ensures(
            begin_request,
            (&request, row, taken, session_id, Some(&session), epoch, closing, observed),
            begin,
        ),
    ensures
        begin is Replayed <==> earlier == Ok::<bool, StoreError>(true),
        begin matches Begin::Proceed { now } ==> {
            &&& earlier == Ok::<bool, StoreError>(false)
            &&& session.snapshot.status is Open
            &&& latest(session.time_floor, observed, now)
            &&& is_owned_by(session, request.context.caller, epoch, now)
        },
        begin matches Begin::Refused { refusal, time_floor } ==> {
            &&& earlier is Err ==> refusal.error == earlier->Err_0 && !refusal.recorded
                && time_floor is None
            &&& earlier is Ok ==> refusal.recorded && (time_floor is Some
                <==> session.snapshot.status is Open)
            &&& earlier is Ok && time_floor is Some ==> latest(
                session.time_floor,
                observed,
                time_floor->Some_0,
            ) && is_shut_out(
                session,
                request.context.caller,
                epoch,
                time_floor->Some_0,
                refusal.error,
            )
        },
        begin is Refused <== earlier is Err,
{
}

/// Identities are used once: a request that is taken, or names its effect like itself, is in
/// conflict, and the conflict names the one that was asked for.
pub proof fn identities_are_used_once(
    mutation_request_id: RequestId,
    effect_request_id: RequestId,
    taken: bool,
    plain: Result<(), StoreError>,
    effect: Result<(), StoreError>,
    approval: Result<(), StoreError>,
)
    requires
        call_ensures(reject_request_collision, (mutation_request_id, taken), plain),
        call_ensures(
            reject_effect_identity_collision,
            (mutation_request_id, effect_request_id, taken),
            effect,
        ),
        call_ensures(
            approval_effect_identity_available,
            (mutation_request_id, effect_request_id, taken),
            approval,
        ),
    ensures
        plain is Ok <==> !taken,
        effect is Ok <==> !taken && mutation_request_id != effect_request_id,
        approval is Ok <==> !taken && mutation_request_id != effect_request_id,
        plain matches Err(error) ==> error == (StoreError::RequestConflict {
            request_id: mutation_request_id,
        }),
        effect matches Err(error) ==> error == (StoreError::RequestConflict {
            request_id: mutation_request_id,
        }),
        approval matches Err(error) ==> error == (StoreError::RequestConflict {
            request_id: effect_request_id,
        }),
{
}

/// A change is repeated only by the same caller, on the same subject, with the same content.
pub proof fn changes_are_repeated_alike(
    context: RequestContext,
    subject: u128,
    digest: Digest,
    recorded: Option<RecordedMutation>,
    result: Result<bool, StoreError>,
)
    requires
        call_ensures(mutation_replay, (context, subject, digest, recorded), result),
    ensures
        result == Ok::<bool, StoreError>(false) <==> recorded is None,
        result == Ok::<bool, StoreError>(true) <==> (recorded matches Some(row) && row.subject@
            == uuid_text(subject) && row.caller@ == uuid_text(context.caller.0) && row.digest@
            == digest_bytes(digest)),
        result matches Err(error) ==> error == (StoreError::RequestConflict {
            request_id: context.request_id,
        }),
{
}

/// What kind of result each family of actions keeps.
pub proof fn actions_keep_results_of_their_kind(action: StoreAction, kind: StoredResultKind)
    requires
        call_ensures(stored_result_kind, (action,), kind),
    ensures
        kind is Session <==> action is OpenSession || action is CloseSession,
        kind is OwnershipLease <==> action is AcquireOwnership || action is RenewOwnership,
        kind is Ownership <==> action is ReleaseOwnership,
        kind is Launch <==> action is PrepareLaunch || action is AttachLaunch || action
            is TransitionLaunch,
        kind is Participant <==> action is CreateRootParticipant || action
            is CreateChildParticipant,
        kind is Operation <==> action is StartOperation || action is TransitionOperation,
        kind is Message <==> action is EnqueueMessage || action is LeaseNextMessage || action
            is TransitionMessageDelivery,
        kind is AuthorityPolicy <==> action is PutAuthorityPolicy,
        kind is Grant <==> action is IssueGrant || action is RevokeGrant,
        kind is AuthorityEffect <==> action is CheckAuthorityEffect,
        kind is AuthorizedChild <==> action is CreateAuthorizedChild,
        kind is HierarchyEffect <==> action is ApplyHierarchyEffect,
        kind is AuthorityTemplatePolicy <==> action is RegisterAuthorityTemplatePolicy,
{
}

/// A stored request is read back as it was written: its caller, its action, its content, and
/// whether it failed, and with which error, or succeeded, and whether that changed anything.
pub proof fn stored_requests_are_read_back(
    request_id: RequestId,
    row: LedgerRow,
    accepted: bool,
    effect: &str,
    well_formed: bool,
    name: &'static str,
    kind: StoredResultKind,
    stored: StoredRequest,
)
    requires
        call_ensures(
            decode_stored_request,
            (request_id, row, accepted, Some(effect), well_formed),
            Ok::<StoredRequest, StoreError>(stored),
        ),
        call_ensures(action_name, (stored.action,), name),
        call_ensures(stored_result_kind, (stored.action,), kind),
    ensures
        well_formed,
        accepted,
        stored.request_id == request_id,
        uuid_value(row.caller@) == Some(stored.caller.0),
        row.action@ == name@,
        row.digest@ == digest_bytes(stored.digest),
        stored.outcome matches StoredOutcome::Failed(error) ==> row.outcome@ == "failed"@ && (
        row.failure matches Some(failure) && error == error_of(failure)),
        stored.outcome matches StoredOutcome::Succeeded { effect: change, kind: kept } ==> {
            &&& row.outcome@ == "succeeded"@
            &&& kept == kind
            &&& change is Applied ==> effect@ == "applied"@
            &&& change is Unchanged ==> effect@ == "unchanged"@
        },
{
}

/// An error is kept under its own name, and comes back as it was.
pub proof fn errors_are_kept_under_their_name(error: StoreError)
    ensures
        error_of(wire_of(error)) == error,
        wire_of(error) is SessionNotFound <==> error is SessionNotFound,
        wire_of(error) is TemplateNotFound <==> error is TemplateNotFound,
        wire_of(error) is ParticipantNotFound <==> error is ParticipantNotFound,
        wire_of(error) is RootParticipantNotFound <==> error is RootParticipantNotFound,
        wire_of(error) is OperationNotFound <==> error is OperationNotFound,
        wire_of(error) is SessionClosed <==> error is SessionClosed,
        wire_of(error) is AlreadyClosed <==> error is AlreadyClosed,
        wire_of(error) is CompatibilityConflict <==> error is CompatibilityConflict,
        wire_of(error) is InterruptedSession <==> error is InterruptedSession,
        wire_of(error) is ConsumerConflict <==> error is ConsumerConflict,
        wire_of(error) is RequestConflict <==> error is RequestConflict,
        wire_of(error) is OwnershipHeld <==> error is OwnershipHeld,
        wire_of(error) is OwnershipExpired <==> error is OwnershipExpired,
        wire_of(error) is StaleOwnership <==> error is StaleOwnership,
        wire_of(error) is LeaseTooLong <==> error is LeaseTooLong,
        wire_of(error) is SchemaTooNew <==> error is SchemaTooNew,
        wire_of(error) is Corrupt <==> error is Corrupt,
        wire_of(error) is Busy <==> error is Busy,
        wire_of(error) is Invalid <==> error is Invalid,
        wire_of(error) is MessageNotFound <==> error is MessageNotFound,
        wire_of(error) is ArtifactNotFound <==> error is ArtifactNotFound,
        wire_of(error) is LaunchNotFound <==> error is LaunchNotFound,
        wire_of(error) is MessageOversize <==> error is MessageOversize,
        wire_of(error) is MailboxQuotaExceeded <==> error is MailboxQuotaExceeded,
        wire_of(error) is CapacityExceeded <==> error is CapacityExceeded,
        wire_of(error) is ProjectionStale <==> error is ProjectionStale,
        wire_of(error) is Unavailable <==> error is Unavailable,
{
}

/// An event goes right behind the last one, while both the session and the store may keep one
/// more, and never before the time of the one in front.
pub proof fn events_are_appended_in_order(
    facts: JournalFacts,
    occurred_at: Timestamp,
    result: Result<EventPlan, StoreError>,
)
    requires
        call_ensures(append_event, (facts, occurred_at), result),
    ensures
        result is Ok <==> {
            &&& facts.limits matches Some((per_session, global))
            &&& facts.session_events + 1 <= per_session
            &&& facts.global_events + 1 <= global
            &&& facts.last_position < i64::MAX
        },
        result matches Ok(plan) ==> {
            &&& plan.position == facts.last_position + 1
            &&& facts.previous is None ==> plan.occurred_at == occurred_at
            &&& facts.previous matches Some(previous) ==> latest(
                previous,
                occurred_at,
                plan.occurred_at,
            )
        },
        facts.limits is None ==> result == Err::<EventPlan, StoreError>(StoreError::Corrupt),
        facts.limits matches Some((per_session, global)) ==> {
            &&& facts.session_events >= per_session ==> result == Err::<EventPlan, StoreError>(
                StoreError::CapacityExceeded {
                    reason: CapacityReason::SessionLimit {
                        resource: CapacityResource::RetainedEvents,
                    },
                },
            )
            &&& facts.session_events < per_session && facts.global_events >= global ==> result
                == Err::<EventPlan, StoreError>(
                StoreError::CapacityExceeded {
                    reason: CapacityReason::GlobalLimit {
                        resource: CapacityResource::RetainedEvents,
                    },
                },
            )
        },
{
}

/// The identity of an event is the digest of its request and type, stamped as a random UUID: six
/// bits of it are fixed, all others are the digest's.
pub proof fn event_identities_come_from_the_digest(
    facts: JournalFacts,
    occurred_at: Timestamp,
    message: MessageId,
    plan: EventPlan,
)
    requires
        call_ensures(append_event, (facts, occurred_at), Ok::<EventPlan, StoreError>(plan)),
        call_ensures(
            derived_store_message_id,
            (facts.identity, true),
            Ok::<MessageId, StoreError>(message),
        ),
    ensures
        plan.event_id == message.0,
        (plan.event_id >> 76) & 0xf == 4,
        (plan.event_id >> 62) & 0x3 == 2,
        plan.event_id & 0xffff_ffff_ffff_0fff_3fff_ffff_ffff_ffffu128 == facts.identity.high
            & 0xffff_ffff_ffff_0fff_3fff_ffff_ffff_ffffu128,
{
    derived_identities_are_random_uuids(facts.identity);
}

/// An event is read back as its columns say.
pub proof fn event_columns_are_read(
    numbers: EventNumbers,
    event_id: &str,
    related: &str,
    result: Result<EventHeader, StoreError>,
    alone: Result<EventHeader, StoreError>,
)
    requires
        call_ensures(decode_event, (numbers, event_id, Some(related)), result),
        call_ensures(decode_event, (numbers, event_id, None::<&str>), alone),
    ensures
        alone is Ok <==> {
            &&& numbers.accepted
            &&& uuid_value(event_id@) is Some
            &&& numbers.position >= 0
            &&& numbers.revision >= 1
            &&& 0 <= numbers.schema_version <= 65535
            &&& 0 <= numbers.occurred.1 < 1_000_000_000
        },
        result is Ok <==> alone is Ok && uuid_value(related@) is Some,
        result matches Ok(header) ==> header.related_request_id == Some(
            RequestId(uuid_value(related@)->Some_0),
        ),
        alone matches Ok(header) ==> {
            &&& uuid_value(event_id@) == Some(header.event_id)
            &&& header.position == numbers.position
            &&& header.revision.0 == numbers.revision
            &&& header.schema_version == numbers.schema_version
            &&& header.related_request_id is None
            &&& header.occurred_at.seconds == numbers.occurred.0
            &&& header.occurred_at.nanos == numbers.occurred.1
        },
        result is Ok && alone is Ok ==> result->Ok_0 == (EventHeader {
            related_request_id: result->Ok_0.related_request_id,
            ..alone->Ok_0
        }),
        result matches Err(error) ==> error == StoreError::Corrupt,
{
}

/// Times are ordered by seconds, and within a second by nanoseconds; the later of two is one of
/// them.
pub proof fn times_are_ordered(
    one: Timestamp,
    other: Timestamp,
    before: bool,
    later: Timestamp,
)
    requires
        call_ensures(Timestamp::before, (one, other), before),
        call_ensures(Timestamp::later, (one, other), later),
    ensures
        before <==> one.seconds < other.seconds || (one.seconds == other.seconds && one.nanos
            < other.nanos),
        one.spec_before(other) <==> before,
        later == one || later == other,
        later.seconds >= one.seconds && later.seconds >= other.seconds,
        later.seconds == one.seconds ==> later.nanos >= one.nanos,
        later.seconds == other.seconds ==> later.nanos >= other.nanos,
{
}

/// A time is read from seconds and nanoseconds that stay below a second; the one just before it is
/// a nanosecond earlier.
pub proof fn times_are_read(
    seconds: i64,
    nanos: i64,
    result: Result<Timestamp, StoreError>,
    fraction: u32,
    earlier: Result<Timestamp, StoreError>,
)
    requires
        call_ensures(decode_timestamp, (seconds, nanos), result),
        call_ensures(timestamp_before, (seconds, fraction), earlier),
    ensures
        result is Ok <==> 0 <= nanos < 1_000_000_000,
        result matches Ok(read) ==> read.seconds == seconds && read.nanos == nanos,
        result matches Err(error) ==> error == StoreError::Corrupt,
        earlier matches Ok(read) ==> read.nanos < 1_000_000_000 && read.seconds * 1_000_000_000
            + read.nanos + 1 == seconds * 1_000_000_000 + fraction,
        fraction < 1_000_000_000 && seconds > i64::MIN ==> earlier is Ok,
        earlier matches Err(error) ==> error == StoreError::Corrupt,
{
}

/// A lease ends as many milliseconds after now as were asked for, if that is on the calendar and
/// not longer than allowed.
pub proof fn leases_end_when_asked(
    now: Timestamp,
    millis: u64,
    max_lease_millis: u64,
    result: Result<Timestamp, StoreError>,
    unbounded: Result<Timestamp, StoreError>,
)
    requires
        call_ensures(expiry, (now, millis, max_lease_millis), result),
        call_ensures(effect_expiry, (now, millis), unbounded),
        now.wf(),
    ensures
        result matches Ok(end) ==> {
            &&& millis <= max_lease_millis
            &&& end.nanos < 1_000_000_000
            &&& end.seconds * 1_000_000_000 + end.nanos == now.seconds * 1_000_000_000 + now.nanos
                + millis * 1_000_000
        },
        unbounded matches Ok(end) ==> end.nanos < 1_000_000_000 && end.seconds * 1_000_000_000
            + end.nanos == now.seconds * 1_000_000_000 + now.nanos + millis * 1_000_000,
        millis > max_lease_millis ==> result == Err::<Timestamp, StoreError>(
            StoreError::LeaseTooLong,
        ),
        millis > i64::MAX ==> unbounded == Err::<Timestamp, StoreError>(StoreError::LeaseTooLong),
        millis <= max_lease_millis ==> result == unbounded,
        millis <= i64::MAX && -377_705_116_800 <= now.seconds <= 253_402_300_799 ==> {
            let end = (now.seconds * 1_000_000_000 + now.nanos + millis * 1_000_000)
                / 1_000_000_000;
            if end <= 253_402_300_799 {
                unbounded is Ok
            } else {
                unbounded == Err::<Timestamp, StoreError>(StoreError::Invalid)
            }
        },
        millis <= i64::MAX && !(-377_705_116_800 <= now.seconds <= 253_402_300_799) ==> unbounded
            == Err::<Timestamp, StoreError>(StoreError::Corrupt),
{
    if unbounded is Ok {
        lease_lasts_its_duration(now, millis, millis);
    }
}

/// So many whole milliseconds lie between two times.
pub proof fn elapsed_time_is_counted(start: Timestamp, end: Timestamp, millis: u64, result: bool)
    requires
        call_ensures(elapsed_is, (start, end, millis), result),
        start.instant() <= end.instant(),
    ensures
        result <==> millis * 1_000_000 <= end.instant() - start.instant() < (millis + 1)
            * 1_000_000,
{
}

/// Numbers are read only as far as they can be what they stand for.
pub proof fn numbers_are_read(
    stored: i64,
    counter: Result<u64, StoreError>,
    revision: Result<Revision, StoreError>,
    epoch: Result<FencingEpoch, StoreError>,
    number: u64,
    column: Result<i64, StoreError>,
)
    requires
        call_ensures(to_u64, (stored,), counter),
        call_ensures(decode_revision, (stored,), revision),
        call_ensures(decode_epoch, (stored,), epoch),
        call_ensures(to_i64, (number,), column),
    ensures
        counter is Ok <==> stored >= 0,
        counter matches Ok(read) ==> read == stored,
        revision is Ok <==> stored >= 1,
        revision matches Ok(read) ==> read.0 == stored,
        epoch is Ok <==> stored >= 1,
        epoch matches Ok(read) ==> read.0 == stored,
        column is Ok <==> number <= i64::MAX,
        column matches Ok(written) ==> written == number,
        counter matches Err(error) ==> error == StoreError::Corrupt,
        revision matches Err(error) ==> error == StoreError::Corrupt,
        epoch matches Err(error) ==> error == StoreError::Corrupt,
        column matches Err(error) ==> error == StoreError::Corrupt,
{
}

/// A digest is written in thirty-two bytes, of which each value is read back as itself; any other
/// number of bytes is corruption.
pub proof fn digests_are_read_back_from_bytes(
    digest: Digest,
    bytes: Vec<u8>,
    read: Result<Digest, StoreError>,
    other: Vec<u8>,
    refused: Result<Digest, StoreError>,
    same: bool,
)
    requires
        call_ensures(encode_digest, (digest,), bytes),
        call_ensures(decode_digest, (&bytes,), read),
        call_ensures(decode_digest, (&other,), refused),
        call_ensures(is_digest, (&other, digest), same),
    ensures
        bytes@.len() == 32,
        read == Ok::<Digest, StoreError>(digest),
        refused is Ok <==> other@.len() == 32,
        refused matches Err(error) ==> error == StoreError::Corrupt,
        same <==> other@ == bytes@,
        same <==> refused == Ok::<Digest, StoreError>(digest),
{
    digests_read_back(digest, digest);
    if let Ok(found) = read {
        digests_read_back(digest, found);
    }
    if let Ok(found) = refused {
        digests_read_back(digest, found);
    }
}

/// Texts are the same exactly if they read the same; a text is an identity if it is written as
/// that identity is.
pub proof fn texts_are_compared(left: &str, right: &str, bits: u128, same: bool, named: bool)
    requires
        call_ensures(same_text, (left, right), same),
        call_ensures(is_identity, (left, bits), named),
    ensures
        same <==> left@ == right@,
        named <==> left@ == uuid_text(bits),
{
}

/// What the database reports as busy or locked can be tried again; what it reports as damaged is
/// corruption; everything else is unavailable.
pub proof fn faults_are_told_apart(
    code: &str,
    error: StoreError,
    other: StoreError,
    found: i64,
    supported: i64,
    newer: StoreError,
    damaged: StoreError,
    misplaced: StoreError,
    wrapped: StoreError,
)
    requires
        call_ensures(map_sqlx, (Some(code),), error),
        call_ensures(map_sqlx, (None::<&str>,), other),
        call_ensures(
            map_database_error,
            (DatabaseFault::SchemaTooNew { found, supported },),
            newer,
        ),
        call_ensures(map_database_error, (DatabaseFault::SchemaCorrupt,), damaged),
        call_ensures(map_database_error, (DatabaseFault::InvalidPath,), misplaced),
        call_ensures(
            map_database_error,
            (DatabaseFault::Database { code: Some(code) },),
            wrapped,
        ),
    ensures
        error is Busy <==> code@ == "5"@ || code@ == "6"@,
        error is Corrupt <==> code@ == "11"@ || code@ == "17"@ || code@ == "26"@,
        error is Busy || error is Corrupt || error is Unavailable,
        other is Unavailable,
        wrapped == error,
        newer is SchemaTooNew,
        0 <= found <= u32::MAX ==> newer->found == found,
        0 <= supported <= u32::MAX ==> newer->supported == supported,
        damaged is Corrupt,
        misplaced is Invalid,
{
    reveal_strlit("5");
    reveal_strlit("6");
    reveal_strlit("11");
    reveal_strlit("17");
    reveal_strlit("26");
    assert("5"@.len() == 1 && "6"@.len() == 1 && "11"@.len() == 2 && "17"@.len() == 2
        && "26"@.len() == 2);
}

/// A session's manifest stands if the compatibility that follows from it is the session's, and
/// every template is bound as it is registered.
pub proof fn manifests_agree_with_registrations(
    rows: Vec<ManifestRow>,
    derived: Option<Digest>,
    compatibility: Digest,
    result: Result<(), StoreError>,
)
    requires
        call_ensures(validate_compatibility_manifest, (&rows, derived, compatibility), result),
    ensures
        result is Ok <==> derived == Some(compatibility) && forall|i: int|
            0 <= i < rows@.len() ==> (#[trigger] rows@[i]).bound == rows@[i].registered,
        result matches Err(error) ==> error == StoreError::Corrupt,
{
}

} // verus!
