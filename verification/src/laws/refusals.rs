//! Why an operation is refused: which error tells it, and whether the time that was reached is
//! kept.

use crate::approval::{
    approval_decide_terminal, approve_request, consume_approval_grant, finish_approval_effect,
    request_approval, revoke_approval_grant, ApprovalEffect, ApprovalFacts, ApprovalGrant,
    ApprovalRefusal, ApprovalRequest, ApproveFacts, ApproveRequest, CausalMessage, ConsumeFacts,
    ConsumedGrant, ConsumeApprovalGrant, EndedRequest, Ending, EndingFacts, FinishedPhase,
    GrantedRequest, RequestApproval, RevokedGrant,
};
use crate::artifact::{decode_artifact, ArtifactColumns, ArtifactSnapshot};
use crate::capacity::{
    configure_capacity_limit, consume_capacity_reservation, release_capacity,
    release_global_capacity, reserve_capacity, reserve_global_capacity, CapacityLimit,
    CapacityUsage, GlobalReservationPlan, ReleasePlan, ReservationPlan, ReserveCapacity,
    ReserveGlobalCapacity, StoredGlobalReservation, StoredLimit, StoredReservation,
};
use crate::effect::{
    takeover_effect, transition_effect, EffectEntry, EffectTransition, TakeoverEffect,
};
use crate::error::{Refusal, StoreError};
use crate::hierarchy::{cancel_operation, CancellationStep, CancellationTerms, SubtreeOperation};
use crate::ids::{digest_bytes, FencingEpoch, RequestId, Revision, SessionId};
use crate::journal::{append_event, EventPlan, JournalFacts};
use crate::laws::tools::{may_step, speaks_for};
use crate::laws::words::{has_ended, refused_for_good};
use crate::ledger::RequestContext;
use crate::mailbox::{MessageSnapshot, StoreLimits};
use crate::projection::page::{admit_page, PageStart, PinnedGeneration};
use crate::recovery::{recovery_replay, RecordedRecovery, RecoveryRequest};
use crate::session::{
    acquire_ownership, renew_ownership, AcquireOwnership, OwnershipLease, OwnershipPlan,
    SessionRow,
};
use crate::text::uuid_text;
use crate::time::{lease_end, lease_lasts_its_duration, order_follows_instants, Timestamp};
use crate::tool::{
    count_connection, transition_tool, ConnectFacts, ConnectToolProvider, ConnectionCounters,
    ToolTransitionPlan, TransitionToolFacts, TransitionToolInvocation,
};
use vstd::prelude::*;

verus! {

/// The operation was refused with this error.
pub open spec fn is_refused<T>(result: Result<T, StoreError>, error: StoreError) -> bool {
    result matches Err(given) && given == error
}

/// It was refused before anything was written: the time that was reached is kept.
pub open spec fn is_refused_early<T>(
    result: Result<T, ApprovalRefusal>,
    error: StoreError,
) -> bool {
    result matches Err(refusal) && refusal.error == error && refusal.keeps_time_floor
}

/// It was refused when something had been written: all of it is taken back.
pub open spec fn is_refused_late<T>(result: Result<T, ApprovalRefusal>, error: StoreError) -> bool {
    result matches Err(refusal) && refusal.error == error && !refusal.keeps_time_floor
}

/// What was asked for is invalid where it makes no sense; what is stored is corrupt where it
/// cannot be, or can no longer be counted.
pub proof fn reservations_are_refused(
    command: ReserveCapacity,
    existing: Option<StoredReservation>,
    campaign_session: Option<SessionId>,
    usage: CapacityUsage,
    limit: CapacityLimit,
    result: Result<ReservationPlan, StoreError>,
)
    requires
        call_ensures(
            reserve_capacity,
            (command, existing, campaign_session, usage, limit),
            result,
        ),
    ensures
        command.resource is Subscriptions || command.amount == 0 ==> is_refused(
            result,
            StoreError::Invalid,
        ),
        !(command.resource is Subscriptions) && command.amount > 0 && existing is None ==> {
            let session = usage.derived_session + usage.reserved_session + command.amount;
            let global = usage.derived_global + usage.reserved_global + command.amount;
            &&& campaign_session != Some(command.session_id) ==> is_refused(
                result,
                StoreError::ParticipantNotFound { participant_id: command.campaign_id },
            )
            &&& campaign_session == Some(command.session_id) ==> {
                &&& usage.reserved_session < 0 ==> is_refused(result, StoreError::Corrupt)
                &&& usage.reserved_session >= 0 && session <= u64::MAX && usage.reserved_global < 0
                    ==> is_refused(result, StoreError::Corrupt)
                &&& usage.reserved_session >= 0 && usage.reserved_global >= 0 && session
                    <= limit.per_session && global <= limit.global ==> {
                    &&& command.amount > i64::MAX ==> is_refused(result, StoreError::Invalid)
                    &&& command.amount <= i64::MAX && result is Err ==> is_refused(
                        result,
                        StoreError::Corrupt,
                    )
                }
            }
        },
{
}

/// The store refuses its own reservations in the same way.
pub proof fn reservations_of_the_store_are_refused(
    command: ReserveGlobalCapacity,
    existing: Option<StoredGlobalReservation>,
    used: i64,
    limit: CapacityLimit,
    result: Result<GlobalReservationPlan, StoreError>,
)
    requires
        call_ensures(reserve_global_capacity, (command, existing, used, limit), result),
    ensures
        command.amount == 0 ==> is_refused(result, StoreError::Invalid),
        command.amount > 0 ==> (existing matches Some(stored) ==> {
            &&& stored.resource == command.resource && stored.amount < 0 ==> is_refused(
                result,
                StoreError::Corrupt,
            )
            &&& stored.resource != command.resource || (stored.amount >= 0 && stored.amount
                != command.amount) ==> is_refused(
                result,
                StoreError::RequestConflict { request_id: command.reservation_id },
            )
        }),
        command.amount > 0 && existing is None ==> {
            &&& used < 0 ==> is_refused(result, StoreError::Corrupt)
            &&& used >= 0 && used + command.amount <= limit.global && command.amount > i64::MAX
                ==> is_refused(result, StoreError::Invalid)
            &&& used >= 0 && used + command.amount <= limit.global && command.amount <= i64::MAX
                && used + command.amount > i64::MAX ==> is_refused(result, StoreError::Corrupt)
        },
{
}

/// A reservation that is not there, is not the one, or was given back cannot be taken up; one that
/// cannot be what was stored, or is not counted, is corrupt.
pub proof fn taking_up_is_refused(
    wish: ReserveCapacity,
    stored: Option<StoredReservation>,
    session_used: Option<i64>,
    global_used: Option<i64>,
    result: Result<(i64, i64), StoreError>,
)
    requires
        call_ensures(
            consume_capacity_reservation,
            (wish, stored, session_used, global_used),
            result,
        ),
    ensures
        stored is None ==> is_refused(result, StoreError::Invalid),
        stored matches Some(kept) ==> {
            let own = kept.session_id == wish.session_id && kept.campaign_id == wish.campaign_id
                && kept.resource == wish.resource;
            &&& !own ==> is_refused(result, StoreError::Invalid)
            &&& own && kept.amount < 0 ==> is_refused(result, StoreError::Corrupt)
            &&& own && kept.amount >= 0 && (kept.amount != wish.amount || kept.released)
                ==> is_refused(result, StoreError::Invalid)
            &&& own && kept.amount == wish.amount && !kept.released && result is Err
                ==> is_refused(result, StoreError::Corrupt)
        },
{
}

/// What was never reserved cannot be given back; what is not counted is corrupt.
pub proof fn giving_back_is_refused(
    reservation_id: RequestId,
    stored: Option<StoredReservation>,
    session_used: Option<i64>,
    global_used: Option<i64>,
    result: Result<ReleasePlan, StoreError>,
    kept: Option<StoredGlobalReservation>,
    used: Option<i64>,
    global: Result<GlobalReservationPlan, StoreError>,
)
    requires
        call_ensures(
            release_capacity,
            (reservation_id, stored, session_used, global_used),
            result,
        ),
        call_ensures(release_global_capacity, (reservation_id, kept, used), global),
    ensures
        stored is None ==> is_refused(result, StoreError::Invalid),
        stored is Some && result is Err ==> is_refused(result, StoreError::Corrupt),
        kept is None ==> is_refused(global, StoreError::Invalid),
        kept is Some && global is Err ==> is_refused(global, StoreError::Corrupt),
{
}

/// A limit that does not fit its column, or is another than the configured one, is invalid; that
/// there is no row for it is corruption.
pub proof fn limits_are_refused(
    stored: Option<StoredLimit>,
    limit: CapacityLimit,
    result: Result<Option<(i64, i64)>, StoreError>,
)
    requires
        call_ensures(configure_capacity_limit, (stored, limit), result),
    ensures
        stored is None ==> is_refused(result, StoreError::Corrupt),
        stored is Some && result is Err ==> is_refused(result, StoreError::Invalid),
        stored is Some && (limit.per_session > i64::MAX || limit.global > i64::MAX) ==> result
            is Err,
{
}

/// Ownership is refused for good where the lease does not last; that no epoch is left is told
/// without being recorded.
pub proof fn ownership_is_refused(
    command: AcquireOwnership,
    row: SessionRow,
    now: Timestamp,
    max_lease_millis: u64,
    result: Result<OwnershipPlan, Refusal>,
    context: RequestContext,
    session_id: SessionId,
    epoch: FencingEpoch,
    renewed: Result<OwnershipLease, Refusal>,
)
    requires
        call_ensures(acquire_ownership, (command, &row, now, max_lease_millis), result),
        call_ensures(
            renew_ownership,
            (context, session_id, epoch, command.duration_millis, now, max_lease_millis),
            renewed,
        ),
        now.wf(),
        lease_end(now, command.duration_millis) is Ok,
        command.duration_millis <= max_lease_millis,
    ensures
        command.duration_millis == 0 ==> refused_for_good(result, StoreError::Invalid),
        command.duration_millis == 0 ==> refused_for_good(renewed, StoreError::Invalid),
        command.duration_millis > 0 ==> renewed is Ok,
        command.duration_millis > 0 && (row.owner matches Some(lease) ==> !now.spec_before(
            lease.expires_at,
        )) && (row.epoch_high_water == u64::MAX || row.snapshot.revision.0 == u64::MAX) ==> (
        result matches Err(refusal) && refusal.error == StoreError::Corrupt && !refusal.recorded),
{
    let end = lease_end(now, command.duration_millis)->Ok_0;
    lease_lasts_its_duration(now, command.duration_millis, max_lease_millis);
    order_follows_instants(now, end);
}

/// A request for leave without a cause that fits is invalid; a cause that cannot be read is
/// corrupt.
pub proof fn requests_for_leave_are_refused(
    command: RequestApproval,
    facts: ApprovalFacts,
    now: Timestamp,
    result: Result<ApprovalRequest, ApprovalRefusal>,
    sound: Result<ApprovalRequest, ApprovalRefusal>,
    causal: MessageSnapshot,
)
    requires
        call_ensures(request_approval, (command, facts, now), result),
        call_ensures(
            request_approval,
            (command, ApprovalFacts { causal: CausalMessage::Found(causal), ..facts }, now),
            sound,
        ),
        sound is Ok,
    ensures
        facts.causal is Missing ==> is_refused_late(result, StoreError::Invalid),
        facts.causal is Unreadable ==> is_refused_early(result, StoreError::Corrupt),
        facts.causal is Found && result is Err ==> is_refused_early(result, StoreError::Invalid),
{
}

/// Leave is refused early where it does not fit, and late where what was written is not sound.
pub proof fn leave_is_refused(
    command: ApproveRequest,
    facts: ApproveFacts,
    limits: StoreLimits,
    now: Timestamp,
    result: Result<GrantedRequest, ApprovalRefusal>,
)
    requires
        call_ensures(approve_request, (command, facts, limits, now), result),
    ensures
        facts.request is None ==> is_refused_early(result, StoreError::Invalid),
        facts.request matches Some(request) ==> {
            let live = facts.operation matches Some(operation) && operation.operation_id
                == request.operation_id && operation.session_id == request.session_id
                && operation.participant_id == request.requester_id && (operation.state is Running
                || operation.state is Waiting);
            &&& facts.mismatch matches Some(error) ==> is_refused_early(result, error)
            &&& facts.mismatch is None && (!live || facts.grant_exists) ==> is_refused_early(
                result,
                StoreError::Invalid,
            )
            &&& facts.mismatch is None && live && !facts.grant_exists ==> {
                &&& !facts.well_formed || request.revision.0 == u64::MAX ==> is_refused_late(
                    result,
                    StoreError::Invalid,
                )
                &&& facts.well_formed && request.revision.0 < u64::MAX ==> (facts.defect
                    matches Some(error) ==> is_refused_late(result, error))
            }
        },
{
}

/// A request is not ended where that does not fit it; what was written is taken back where it is
/// not sound.
pub proof fn endings_are_refused(
    session_id: SessionId,
    expected: Revision,
    ending: Ending,
    facts: EndingFacts,
    limits: StoreLimits,
    now: Timestamp,
    result: Result<EndedRequest, ApprovalRefusal>,
)
    requires
        call_ensures(
            approval_decide_terminal,
            (session_id, expected, ending, facts, limits, now),
            result,
        ),
    ensures
        facts.request is None ==> is_refused_early(result, StoreError::Invalid),
        facts.request matches Some(request) ==> {
            let pending = request.session_id == session_id && request.revision == expected
                && request.status is Pending;
            let live = facts.operation matches Some(operation) && operation.operation_id
                == request.operation_id && operation.session_id == request.session_id
                && operation.participant_id == request.requester_id && (operation.state is Running
                || operation.state is Waiting);
            let fits = pending && (if ending is Expired {
                !now.spec_before(request.expires_at)
            } else {
                now.spec_before(request.expires_at) && live
            });
            &&& !fits ==> is_refused_early(result, StoreError::Invalid)
            &&& fits && (!facts.well_formed || request.revision.0 == u64::MAX) ==> is_refused_late(
                result,
                StoreError::Invalid,
            )
        },
{
}

/// Leave is taken back or used only where there is some that fits.
pub proof fn uses_of_leave_are_refused(
    grant: Option<ApprovalGrant>,
    request: Option<ApprovalRequest>,
    mismatch: Option<StoreError>,
    now: Timestamp,
    revoked: Result<RevokedGrant, ApprovalRefusal>,
    command: ConsumeApprovalGrant,
    facts: ConsumeFacts,
    used: Result<ConsumedGrant, ApprovalRefusal>,
    effect: Option<ApprovalEffect>,
    phase: FinishedPhase,
    well_formed: bool,
    finished: Result<ApprovalEffect, ApprovalRefusal>,
)
    requires
        call_ensures(revoke_approval_grant, (grant, request, mismatch, now), revoked),
        call_ensures(consume_approval_grant, (command, facts, now), used),
        call_ensures(
            finish_approval_effect,
            (effect, mismatch, phase, well_formed, now),
            finished,
        ),
    ensures
        grant is None || request is None ==> is_refused_early(revoked, StoreError::Invalid),
        grant is Some && request is Some ==> {
            &&& mismatch matches Some(error) ==> is_refused_early(revoked, error)
            &&& mismatch is None && revoked is Err ==> is_refused_late(revoked, StoreError::Invalid)
        },
        facts.grant is None || facts.request is None ==> is_refused_early(
            used,
            StoreError::Invalid,
        ),
        facts.grant is Some && facts.request is Some ==> {
            let asked = facts.request->Some_0;
            let live = facts.operation matches Some(operation) && operation.operation_id
                == asked.operation_id && operation.session_id == asked.session_id
                && operation.participant_id == asked.requester_id && (operation.state is Running
                || operation.state is Waiting);
            &&& facts.next matches Err(error) ==> is_refused_early(used, error)
            &&& facts.next is Ok && !live ==> is_refused_early(used, StoreError::Invalid)
            &&& facts.next is Ok && live && (command.request_id == command.effect_id
                || facts.effect_taken) ==> is_refused_early(
                used,
                StoreError::RequestConflict { request_id: command.effect_id },
            )
            &&& facts.next is Ok && live && command.request_id != command.effect_id
                && !facts.effect_taken ==> {
                &&& !facts.well_formed || facts.grant->Some_0.used_count == u32::MAX
                    || facts.grant->Some_0.revision.0 == u64::MAX ==> is_refused_late(
                    used,
                    StoreError::Invalid,
                )
                &&& facts.defect is None && used is Err ==> is_refused_late(
                    used,
                    StoreError::Invalid,
                )
            }
        },
        effect is None ==> is_refused_early(finished, StoreError::Invalid),
        effect is Some ==> {
            &&& mismatch matches Some(error) ==> is_refused_early(finished, error)
            &&& mismatch is None && finished is Err ==> is_refused_late(
                finished,
                StoreError::Invalid,
            )
        },
{
}

/// An operation that cannot be counted on is corrupt; a request to cancel whose message is there
/// already is invalid.
pub proof fn cancellations_are_refused(
    facts: SubtreeOperation,
    terms: CancellationTerms,
    result: Result<CancellationStep, StoreError>,
)
    requires
        call_ensures(cancel_operation, (facts, terms), result),
        !has_ended(facts.operation.state),
        !(facts.operation.state is Cancelling),
    ensures
        facts.operation.revision.0 == u64::MAX ==> is_refused(result, StoreError::Corrupt),
        facts.operation.revision.0 < u64::MAX && facts.message_exists && !(facts.operation.state
            is Queued) && (facts.launch_exists || !(facts.operation.state is Starting))
            ==> is_refused(result, StoreError::Invalid),
{
}

/// What was recorded under another digest, session, caller or epoch is in conflict; an epoch that
/// cannot have been stored is corrupt.
pub proof fn recoveries_are_refused(
    request: RecoveryRequest,
    row: RecordedRecovery,
    result: Result<bool, StoreError>,
)
    requires
        call_ensures(recovery_replay, (request, Some(row)), result),
    ensures
        result is Err ==> is_refused(
            result,
            StoreError::RequestConflict { request_id: request.request_id },
        ) || (request.epoch.0 > i64::MAX && is_refused(result, StoreError::Corrupt)),
        row.owner_epoch == 0 && request.epoch.0 > i64::MAX && is_refused(
            result,
            StoreError::RequestConflict { request_id: request.request_id },
        ) ==> row.digest@ != digest_bytes(request.digest) || row.session_id@
            != uuid_text(request.session_id.0) || row.caller@
            != uuid_text(request.caller.0),
{
}

/// An event for which there is no position left is refused for now.
pub proof fn journals_are_full_at_the_last_position(
    facts: JournalFacts,
    occurred_at: Timestamp,
    result: Result<EventPlan, StoreError>,
)
    requires
        call_ensures(append_event, (facts, occurred_at), result),
        facts.last_position == i64::MAX,
    ensures
        facts.limits matches Some((per_session, global)) ==> facts.session_events < per_session
            && facts.global_events < global ==> is_refused(result, StoreError::Unavailable),
{
}

/// A page whose generation is no longer kept as it was, or whose token has run out, is stale.
pub proof fn pages_are_refused(
    start: PageStart,
    pinned: PinnedGeneration,
    now: Timestamp,
    result: Result<Timestamp, StoreError>,
)
    requires
        call_ensures(admit_page, (&start, Some(pinned), now), result),
        start.generation <= i64::MAX,
    ensures
        start.checkpoint > i64::MAX ==> is_refused(result, StoreError::Invalid),
        start.checkpoint <= i64::MAX && pinned.checkpoint != start.checkpoint ==> is_refused(
            result,
            StoreError::ProjectionStale,
        ),
        start.checkpoint <= i64::MAX && pinned.checkpoint == start.checkpoint ==> {
            let sound = 0 <= pinned.floor_nanos < 1_000_000_000;
            &&& !sound ==> is_refused(result, StoreError::Corrupt)
            &&& sound && result is Err ==> is_refused(result, StoreError::ProjectionStale)
        },
{
}

/// An effect is not moved by who does not keep it, or not from where it stands; one whose revision
/// cannot go on is corrupt.
pub proof fn effects_are_not_moved(
    entry: Option<EffectEntry>,
    command: EffectTransition,
    now: Timestamp,
    result: Result<EffectEntry, StoreError>,
    takeover: TakeoverEffect,
    taken: Result<EffectEntry, StoreError>,
)
    requires
        call_ensures(transition_effect, (entry, command, now), result),
        call_ensures(takeover_effect, (entry, takeover, now), taken),
    ensures
        entry is None ==> is_refused(result, StoreError::Invalid) && is_refused(
            taken,
            StoreError::Invalid,
        ),
        entry matches Some(effect) ==> {
            &&& effect.revision.0 < u64::MAX && result is Err ==> is_refused(
                result,
                StoreError::Invalid,
            )
            &&& effect.owner_host != command.caller || effect.owner_epoch != command.owner_epoch
                || effect.revision != command.expected_revision ==> is_refused(
                result,
                StoreError::Invalid,
            )
            &&& effect.owner_host == command.caller && effect.owner_epoch == command.owner_epoch
                && effect.revision == command.expected_revision && effect.revision.0 == u64::MAX
                && command.resolution is Some && effect.phase is Started ==> is_refused(
                result,
                StoreError::Corrupt,
            )
            &&& now.spec_before(effect.lease_expires_at) || effect.revision
                != takeover.expected_revision || !(effect.phase is Reserved || effect.phase
                is Started) ==> is_refused(taken, StoreError::Invalid)
            &&& !now.spec_before(effect.lease_expires_at) && effect.revision
                == takeover.expected_revision && effect.phase is Started && effect.revision.0
                == u64::MAX ==> is_refused(taken, StoreError::Corrupt)
        },
{
}

/// A step of an invocation that cannot be taken is invalid; a second request to cancel is in
/// conflict; and what can no longer be counted is corrupt.
pub proof fn steps_are_refused(
    command: TransitionToolInvocation,
    facts: TransitionToolFacts,
    now: Timestamp,
    result: Result<ToolTransitionPlan, StoreError>,
)
    requires
        call_ensures(transition_tool, (command, facts, now), result),
        !(facts.current.phase is Completed),
        !(facts.current.phase is Failed),
        speaks_for(command, facts),
    ensures
        may_step(command, facts) && facts.current.revision.0 == u64::MAX ==> is_refused(
            result,
            StoreError::Corrupt,
        ),
        !may_step(command, facts) && !(command.transition is RequestCancel) ==> is_refused(
            result,
            StoreError::Invalid,
        ),
        command.transition is RequestCancel && (!facts.current.definition.cancellable
            || facts.current.phase is Uncertain) ==> is_refused(result, StoreError::Invalid),
        command.transition is RequestCancel && facts.current.definition.cancellable && !(
        facts.current.phase is Uncertain) && facts.current.revision.0 < u64::MAX ==> {
            &&& facts.current.dispatch.cancellation_id is Some ==> is_refused(
                result,
                StoreError::RequestConflict { request_id: command.request_id },
            )
            &&& facts.current.dispatch.cancellation_id is None && result is Err ==> is_refused(
                result,
                StoreError::Corrupt,
            )
        },
{
}

/// A provider that acknowledges what it cannot have been told, or what is not dealt with, is
/// refused; numbers that cannot have been stored are corrupt.
pub proof fn connections_are_refused(
    command: ConnectToolProvider,
    facts: ConnectFacts,
    result: Result<ConnectionCounters, StoreError>,
)
    requires
        call_ensures(count_connection, (command, &facts), result),
        command.consumer == facts.session_consumer,
        facts.alias is None,
        facts.registration_consumers@.len() == 0,
    ensures
        facts.previous is None && command.after_server_sequence > 0 ==> is_refused(
            result,
            StoreError::Invalid,
        ),
        facts.previous matches Some(previous) ==> {
            let sound = previous.generation >= 0 && previous.next_server_sequence >= 0
                && previous.acknowledged_server_sequence >= 0;
            let told = previous.acknowledged_server_sequence <= command.after_server_sequence
                < previous.next_server_sequence;
            &&& previous.consumer != command.consumer ==> is_refused(result, StoreError::Invalid)
            &&& previous.consumer == command.consumer && !sound ==> is_refused(
                result,
                StoreError::Corrupt,
            )
            &&& previous.consumer == command.consumer && sound && !told ==> is_refused(
                result,
                StoreError::Invalid,
            )
            &&& previous.consumer == command.consumer && sound && told
                && previous.acknowledged_server_sequence == command.after_server_sequence
                && previous.generation == i64::MAX ==> is_refused(result, StoreError::Corrupt)
            &&& previous.consumer == command.consumer && sound && told
                && previous.acknowledged_server_sequence < command.after_server_sequence
                && facts.invocations@.len() == 1 && (facts.invocations@[0].server_sequence < 0
                || (facts.invocations@[0].cancellation_server_sequence matches Some(sequence)
                && sequence < 0)) ==> is_refused(result, StoreError::Corrupt)
        },
{
}

/// An artifact that is not read is corrupt.
pub proof fn unreadable_artifacts_are_corrupt(
    columns: ArtifactColumns,
    state: &str,
    well_formed: bool,
    result: Result<ArtifactSnapshot, StoreError>,
)
    requires
        call_ensures(decode_artifact, (columns, state, well_formed), result),
    ensures
        result is Err ==> is_refused(result, StoreError::Corrupt),
        !well_formed ==> result is Err,
{
}

} // verus!
