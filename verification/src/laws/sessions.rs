//! Sessions: who owns one, for how long, and what may be opened, closed and handed on.

use crate::error::{OwnershipSnapshot, Refusal, StoreError};
use crate::ids::{Digest, FencingEpoch, HostId, SessionId};
use crate::laws::words::{latest, refused_for_good, refused_for_now};
use crate::ledger::RequestContext;
use crate::session::{
    acquire_ownership, authorize, close_session, decode_session, event_page,
    new_session_manifest_is_registered, open_session, read_ownership,
    register_template, register_templates_and_open_session, release_ownership, renew_ownership,
    require_open_session, require_owner, resolve_open_mode, seal_authority,
    session_allows_template, session_storage_key, validate_close_replay, validate_launch_authority,
    validate_lease_replay, validate_open_replay, validate_registered_templates,
    validate_registration_replay, validate_session_manifest, validate_template_set_before_open,
    AcquireOwnership, Authorization, KeptManifest, LaunchAuthority, LeaseWire, OpenSession,
    OwnershipLease, OwnershipPlan, SealedAuthority, SessionColumns, SessionOpenMode, SessionRow,
    SessionSnapshot, SessionStatus, TemplateBinding, TemplateFinding,
};
use crate::text::uuid_text;
use crate::time::{
    bounded_lease_end, lease_lasts_its_duration, on_calendar, order_follows_instants, Timestamp,
};
use vstd::prelude::*;

verus! {

/// The host holds the session in this epoch, and its time is not up.
pub open spec fn is_owned_by(
    row: SessionRow,
    caller: HostId,
    epoch: FencingEpoch,
    now: Timestamp,
) -> bool {
    &&& row.owner matches Some(lease)
    &&& lease.owner == caller
    &&& lease.epoch == epoch
    &&& now.spec_before(lease.expires_at)
}

/// Why a host may not act on a session: another epoch or another host is in its place, or its own
/// time is up.
pub open spec fn is_shut_out(
    row: SessionRow,
    caller: HostId,
    epoch: FencingEpoch,
    now: Timestamp,
    error: StoreError,
) -> bool {
    match row.owner {
        None => error == (StoreError::StaleOwnership {
            session_id: row.snapshot.id,
            attempted: epoch,
            current: None,
        }),
        Some(lease) => {
            &&& lease.owner != caller || lease.epoch != epoch ==> error
                == (StoreError::StaleOwnership {
                session_id: row.snapshot.id,
                attempted: epoch,
                current: Some(lease.epoch),
            })
            &&& lease.owner == caller && lease.epoch == epoch ==> !now.spec_before(
                lease.expires_at,
            ) && error == (StoreError::OwnershipExpired { session_id: row.snapshot.id, epoch })
        },
    }
}

/// Only the host that holds the session, in the epoch it names and within its time, may act.
pub proof fn only_owners_may_act(
    row: SessionRow,
    caller: HostId,
    attempted: FencingEpoch,
    now: Timestamp,
    result: Result<(), StoreError>,
)
    requires
        call_ensures(require_owner, (&row, caller, attempted, now), result),
    ensures
        result is Ok <==> is_owned_by(row, caller, attempted, now),
        result matches Err(error) ==> is_shut_out(row, caller, attempted, now, error),
{
}

/// A session that is missing, closed, or closed already is told apart.
pub proof fn only_open_sessions_are_worked_on(
    session_id: SessionId,
    row: SessionRow,
    closing: bool,
    result: Result<(), StoreError>,
    missing: Result<(), StoreError>,
)
    requires
        call_ensures(require_open_session, (session_id, Some(&row), closing), result),
        call_ensures(require_open_session, (session_id, None::<&SessionRow>, closing), missing),
    ensures
        result is Ok <==> row.snapshot.status is Open,
        result is Err && closing ==> result == Err::<(), StoreError>(
            StoreError::AlreadyClosed { session_id },
        ),
        result is Err && !closing ==> result == Err::<(), StoreError>(
            StoreError::SessionClosed { session_id },
        ),
        missing == Err::<(), StoreError>(StoreError::SessionNotFound { session_id }),
{
}

/// A request is let through exactly for the owner of an open session, at a time that never falls
/// behind what was seen before. The time is kept even if the owner is refused.
pub proof fn requests_are_let_through_for_owners(
    session_id: SessionId,
    row: SessionRow,
    caller: HostId,
    epoch: FencingEpoch,
    closing: bool,
    observed: Timestamp,
    granted: Authorization,
    missing: Authorization,
)
    requires
        call_ensures(
            authorize,
            (session_id, Some(&row), caller, epoch, closing, observed),
            granted,
        ),
        call_ensures(
            authorize,
            (session_id, None::<&SessionRow>, caller, epoch, closing, observed),
            missing,
        ),
    ensures
        granted.time_floor is Some <==> row.snapshot.status is Open,
        granted.time_floor matches Some(now) ==> {
            &&& latest(row.time_floor, observed, now)
            &&& granted.refusal is None <==> is_owned_by(row, caller, epoch, now)
            &&& granted.refusal matches Some(error) ==> is_shut_out(row, caller, epoch, now, error)
        },
        row.snapshot.status is Closed ==> granted.refusal == Some(
            if closing {
                StoreError::AlreadyClosed { session_id }
            } else {
                StoreError::SessionClosed { session_id }
            },
        ),
        missing.refusal == Some(StoreError::SessionNotFound { session_id }),
        missing.time_floor is None,
{
}

/// A session can be taken exactly when nobody holds it, for as long as was asked, in a new epoch
/// higher than all before.
pub proof fn free_sessions_can_be_taken(
    command: AcquireOwnership,
    row: SessionRow,
    now: Timestamp,
    max_lease_millis: u64,
    result: Result<OwnershipPlan, Refusal>,
)
    requires
        call_ensures(acquire_ownership, (command, &row, now, max_lease_millis), result),
        now.wf(),
    ensures
        result matches Ok(plan) ==> {
            &&& row.owner matches Some(lease) ==> !now.spec_before(lease.expires_at)
            &&& 0 < command.duration_millis <= max_lease_millis
            &&& plan.lease.session_id == command.session_id
            &&& plan.lease.owner == command.context.caller
            &&& plan.lease.epoch.0 == row.epoch_high_water + 1
            &&& plan.lease.expires_at.instant() == now.instant() + command.duration_millis
                * 1_000_000
            &&& plan.epoch_high_water == row.epoch_high_water + 1
            &&& plan.revision.0 == row.snapshot.revision.0 + 1
        },
        0 < command.duration_millis <= max_lease_millis && command.duration_millis <= i64::MAX
            && on_calendar(now.seconds as int) && on_calendar(
            (now.instant() + command.duration_millis * 1_000_000) / 1_000_000_000,
        ) ==> {
            &&& row.owner is Some && now.spec_before(row.owner->Some_0.expires_at) ==> result
                == Err::<OwnershipPlan, Refusal>(
                Refusal {
                    error: StoreError::OwnershipHeld {
                        ownership: OwnershipSnapshot::Owned {
                            host_id: row.owner->Some_0.owner,
                            epoch: row.owner->Some_0.epoch,
                            expires_at: row.owner->Some_0.expires_at,
                        },
                    },
                    recorded: true,
                },
            )
            &&& (row.owner matches Some(lease) ==> !now.spec_before(lease.expires_at))
                && row.epoch_high_water < u64::MAX && row.snapshot.revision.0 < u64::MAX
                ==> result is Ok
        },
        command.duration_millis > max_lease_millis ==> refused_for_good(
            result,
            StoreError::LeaseTooLong,
        ),
{
    if bounded_lease_end(now, command.duration_millis, max_lease_millis) is Ok {
        let end = bounded_lease_end(now, command.duration_millis, max_lease_millis)->Ok_0;
        lease_lasts_its_duration(now, command.duration_millis, max_lease_millis);
        order_follows_instants(now, end);
    }
}

/// A renewed lease is the same host's in the same epoch, from now on for as long as was asked.
pub proof fn renewed_leases_start_over(
    context: RequestContext,
    session_id: SessionId,
    epoch: FencingEpoch,
    duration_millis: u64,
    now: Timestamp,
    max_lease_millis: u64,
    result: Result<OwnershipLease, Refusal>,
)
    requires
        call_ensures(
            renew_ownership,
            (context, session_id, epoch, duration_millis, now, max_lease_millis),
            result,
        ),
        now.wf(),
    ensures
        result matches Ok(lease) ==> {
            &&& 0 < duration_millis <= max_lease_millis
            &&& lease.session_id == session_id
            &&& lease.owner == context.caller
            &&& lease.epoch == epoch
            &&& lease.expires_at.instant() == now.instant() + duration_millis * 1_000_000
        },
        0 < duration_millis <= max_lease_millis && duration_millis <= i64::MAX && on_calendar(
            now.seconds as int,
        ) && on_calendar((now.instant() + duration_millis * 1_000_000) / 1_000_000_000)
            ==> result is Ok,
        duration_millis > max_lease_millis ==> refused_for_good(result, StoreError::LeaseTooLong),
        result matches Err(refusal) ==> refusal.recorded,
{
    if bounded_lease_end(now, duration_millis, max_lease_millis) is Ok {
        let end = bounded_lease_end(now, duration_millis, max_lease_millis)->Ok_0;
        lease_lasts_its_duration(now, duration_millis, max_lease_millis);
        order_follows_instants(now, end);
    }
}

/// A released session has no owner; its epochs go on from where they were.
pub proof fn released_sessions_are_free(
    row: SessionRow,
    now: Timestamp,
    result: Result<SessionRow, StoreError>,
)
    requires
        call_ensures(release_ownership, (row, now), result),
    ensures
        result is Ok <==> row.snapshot.revision.0 < u64::MAX,
        result matches Ok(after) ==> {
            &&& after.owner is None
            &&& after.epoch_high_water == row.epoch_high_water
            &&& after.time_floor == now
            &&& after.snapshot.revision.0 == row.snapshot.revision.0 + 1
            &&& after.snapshot.updated_at == now
            &&& same_session(row.snapshot, after.snapshot)
            &&& after.snapshot.status == row.snapshot.status
        },
        result matches Err(error) ==> error == StoreError::Corrupt,
{
}

/// What a session is, as opposed to what was done with it.
pub open spec fn same_session(before: SessionSnapshot, after: SessionSnapshot) -> bool {
    &&& after.id == before.id
    &&& after.consumer_key == before.consumer_key
    &&& after.compatibility == before.compatibility
    &&& after.created_at == before.created_at
}

/// A closed session is the same session, closed, one revision on.
pub proof fn sessions_are_closed_once(
    snapshot: SessionSnapshot,
    now: Timestamp,
    result: Result<SessionSnapshot, StoreError>,
)
    requires
        call_ensures(close_session, (snapshot, now), result),
    ensures
        result is Ok <==> snapshot.revision.0 < u64::MAX && !now.spec_before(snapshot.updated_at),
        result matches Ok(after) ==> {
            &&& same_session(snapshot, after)
            &&& after.status is Closed
            &&& after.revision.0 == snapshot.revision.0 + 1
            &&& after.updated_at == now
        },
        result matches Err(error) ==> error == StoreError::Invalid,
{
}

/// A close that is told again must have left this session closed.
pub proof fn recorded_closes_are_checked(
    snapshot: SessionSnapshot,
    session_id: SessionId,
    result: Result<(), StoreError>,
)
    requires
        call_ensures(validate_close_replay, (&snapshot, session_id), result),
    ensures
        result is Ok <==> snapshot.id == session_id && snapshot.status is Closed,
        result matches Err(error) ==> error == StoreError::Corrupt,
{
}

/// Whoever reads the ownership sees the owner exactly while its time is not up.
pub proof fn owners_are_seen_while_they_own(
    row: SessionRow,
    observed: Timestamp,
    now: Timestamp,
    snapshot: OwnershipSnapshot,
)
    requires
        call_ensures(read_ownership, (&row, observed), snapshot),
        latest(row.time_floor, observed, now),
    ensures
        snapshot is Owned <==> (row.owner matches Some(lease) && now.spec_before(
            lease.expires_at,
        )),
        snapshot is Owned ==> {
            &&& row.owner matches Some(lease)
            &&& snapshot->host_id == lease.owner
            &&& snapshot->Owned_epoch == lease.epoch
            &&& snapshot->expires_at == lease.expires_at
        },
{
}

/// A host that launches drivers judges its own standing by the latest time it ever saw, and has
/// it sealed exactly when its lease has run out.
pub proof fn launches_stop_with_the_lease(
    session_id: SessionId,
    row: SessionRow,
    remembered: Option<Timestamp>,
    host_id: HostId,
    epoch: FencingEpoch,
    observed: Timestamp,
    judged: LaunchAuthority,
)
    requires
        call_ensures(
            validate_launch_authority,
            (session_id, Some(&row), remembered, host_id, epoch, observed),
            judged,
        ),
    ensures
        judged.remembered is Some <==> row.snapshot.status is Open,
        judged.remembered matches Some(now) ==> {
            &&& !now.spec_before(row.time_floor) && !now.spec_before(observed)
            &&& remembered matches Some(floor) ==> !now.spec_before(floor)
            &&& now == row.time_floor || now == observed || Some(now) == remembered
            &&& judged.refusal is None <==> is_owned_by(row, host_id, epoch, now)
            &&& judged.refusal matches Some(error) ==> is_shut_out(row, host_id, epoch, now, error)
            &&& judged.seal <==> (row.owner matches Some(lease) && lease.owner == host_id
                && lease.epoch == epoch && !now.spec_before(lease.expires_at))
        },
        row.snapshot.status is Closed ==> judged.refusal == Some(
            StoreError::SessionClosed { session_id },
        ) && !judged.seal,
{
}

/// Sealing raises the floor to the time at which the lease was seen to have run out, and judges
/// again by that.
pub proof fn sealing_raises_the_floor(
    session_id: SessionId,
    row: SessionRow,
    host_id: HostId,
    epoch: FencingEpoch,
    effective: Timestamp,
    sealed: SealedAuthority,
    missing: SealedAuthority,
)
    requires
        call_ensures(
            seal_authority,
            (session_id, Some(&row), host_id, epoch, effective),
            sealed,
        ),
        call_ensures(
            seal_authority,
            (session_id, None::<&SessionRow>, host_id, epoch, effective),
            missing,
        ),
    ensures
        sealed.floor is Some <==> row.snapshot.status is Open,
        sealed.floor matches Some(floor) ==> {
            &&& latest(row.time_floor, effective, floor)
            &&& sealed.refusal is None <==> is_owned_by(row, host_id, epoch, floor)
            &&& sealed.refusal matches Some(error) ==> is_shut_out(
                row,
                host_id,
                epoch,
                floor,
                error,
            )
        },
        missing.floor is None,
        missing.refusal == Some(StoreError::SessionNotFound { session_id }),
{
}

/// A manifest stands exactly as it was kept: all of it, in its order; and none where none was.
pub proof fn manifests_are_kept_whole(
    command: OpenSession,
    complete: i64,
    kept: Vec<TemplateBinding>,
    result: Result<(), StoreError>,
)
    requires
        call_ensures(validate_session_manifest, (&command, complete, &kept), result),
    ensures
        command.manifest is None ==> (result is Ok <==> complete == 0),
        command.manifest matches Some(manifest) ==> (result is Ok <==> complete == 1 && kept@
            == manifest@),
        result matches Err(error) ==> error == (StoreError::CompatibilityConflict {
            session_id: command.session_id,
            persisted: command.compatibility,
            requested: command.compatibility,
        }),
{
}

/// Every template of a new manifest is registered as it is bound.
pub proof fn manifests_name_registered_templates(
    command: OpenSession,
    registered: Vec<Option<Digest>>,
    result: bool,
)
    requires
        call_ensures(new_session_manifest_is_registered, (&command, &registered), result),
    ensures
        command.manifest is None ==> result,
        command.manifest matches Some(manifest) ==> (result <==> forall|i: int|
            0 <= i < manifest@.len() ==> registered@[i] == Some(
                (#[trigger] manifest@[i]).compatibility,
            )),
{
}

/// A session with a manifest allows the templates bound in it; any other allows what is
/// compatible with it as a whole.
pub proof fn sessions_allow_their_templates(
    own: Digest,
    complete: i64,
    bound: Option<Digest>,
    compatibility: Digest,
    result: bool,
    missing: bool,
)
    requires
        call_ensures(session_allows_template, (Some((own, complete)), bound, compatibility), result),
        call_ensures(
            session_allows_template,
            (None::<(Digest, i64)>, bound, compatibility),
            missing,
        ),
    ensures
        complete == 0 ==> (result <==> own == compatibility),
        complete != 0 ==> (result <==> bound == Some(compatibility)),
        !missing,
{
}

/// An open that is told again must have been for this session, consumer and compatibility.
pub proof fn recorded_opens_are_checked(
    snapshot: SessionSnapshot,
    command: OpenSession,
    result: Result<(), StoreError>,
)
    requires
        call_ensures(validate_open_replay, (&snapshot, &command), result),
    ensures
        result is Ok <==> snapshot.id == command.session_id && snapshot.consumer_key@
            == command.consumer_key@ && snapshot.compatibility == command.compatibility,
        result matches Err(error) ==> error == StoreError::Corrupt,
{
}

/// A session that was just opened.
pub open spec fn is_just_opened(
    session: SessionSnapshot,
    command: OpenSession,
    now: Timestamp,
) -> bool {
    &&& session.id == command.session_id
    &&& session.consumer_key == command.consumer_key
    &&& session.compatibility == command.compatibility
    &&& session.status is Open
    &&& session.revision.0 == 1
    &&& session.created_at == now
    &&& session.updated_at == now
}

/// The manifest of the command is the one that was kept.
pub open spec fn keeps_its_manifest(command: OpenSession, kept: KeptManifest) -> bool {
    match command.manifest {
        None => kept.complete == 0,
        Some(manifest) => kept.complete == 1 && kept.bindings@ == manifest@,
    }
}

/// A session that is there is opened again only by the same consumer, with the same compatibility
/// and manifest; it is not changed.
pub proof fn sessions_are_opened_again_unchanged(
    command: OpenSession,
    existing: SessionSnapshot,
    kept: KeptManifest,
    registered: Vec<Option<Digest>>,
    now: Timestamp,
    result: Result<Option<SessionSnapshot>, Refusal>,
)
    requires
        call_ensures(
            open_session,
            (&command, Some(&existing), &kept, &registered, now),
            result,
        ),
    ensures
        result is Ok <==> existing.compatibility == command.compatibility && existing.consumer_key@
            == command.consumer_key@ && keeps_its_manifest(command, kept),
        result matches Ok(opened) ==> opened is None,
        existing.compatibility != command.compatibility ==> refused_for_good(
            result,
            StoreError::CompatibilityConflict {
                session_id: command.session_id,
                persisted: existing.compatibility,
                requested: command.compatibility,
            },
        ),
        existing.compatibility == command.compatibility && existing.consumer_key@
            != command.consumer_key@ ==> refused_for_good(
            result,
            StoreError::ConsumerConflict {
                session_id: command.session_id,
                persisted: existing.consumer_key,
                requested: command.consumer_key,
            },
        ),
        result matches Err(refusal) ==> refusal.recorded,
{
}

/// A session that is not there is opened with what was asked, if its templates are registered.
pub proof fn new_sessions_are_opened_as_asked(
    command: OpenSession,
    kept: KeptManifest,
    registered: Vec<Option<Digest>>,
    now: Timestamp,
    result: Result<Option<SessionSnapshot>, Refusal>,
)
    requires
        call_ensures(
            open_session,
            (&command, None::<&SessionSnapshot>, &kept, &registered, now),
            result,
        ),
    ensures
        result is Ok <==> (command.manifest matches Some(manifest) ==> forall|i: int|
            0 <= i < manifest@.len() ==> registered@[i] == Some(
                (#[trigger] manifest@[i]).compatibility,
            )),
        result matches Ok(opened) ==> (opened matches Some(session) && is_just_opened(
            session,
            command,
            now,
        )),
        result is Err ==> refused_for_good(result, StoreError::Invalid),
{
}

/// Under each mode: exactly the session that is named; one to go on with or open anew, unless
/// work in it was interrupted; one to resume; and, for a reset, a new one, unless the old one is
/// still there or launches are unresolved.
pub proof fn modes_choose_the_session(
    command: OpenSession,
    existing: SessionSnapshot,
    unfinished: bool,
    unresolved_launches: bool,
    result: Result<SessionId, Refusal>,
    without: Result<SessionId, Refusal>,
)
    requires
        call_ensures(
            resolve_open_mode,
            (&command, Some(&existing), unfinished, unresolved_launches),
            result,
        ),
        call_ensures(
            resolve_open_mode,
            (&command, None::<&SessionSnapshot>, unfinished, unresolved_launches),
            without,
        ),
    ensures
        command.mode is Exact ==> result == Ok::<SessionId, Refusal>(command.session_id)
            && without == Ok::<SessionId, Refusal>(command.session_id),
        command.mode is Open || command.mode is Resume ==> {
            &&& result is Ok <==> existing.compatibility == command.compatibility && (
            command.mode is Open ==> !unfinished)
            &&& result matches Ok(chosen) ==> chosen == existing.id
            &&& without == Ok::<SessionId, Refusal>(command.session_id)
        },
        (command.mode is Open || command.mode is Resume) && existing.compatibility
            != command.compatibility ==> refused_for_good(
            result,
            StoreError::CompatibilityConflict {
                session_id: existing.id,
                persisted: existing.compatibility,
                requested: command.compatibility,
            },
        ),
        command.mode is Open && existing.compatibility == command.compatibility && unfinished
            ==> refused_for_good(
            result,
            StoreError::InterruptedSession { session_id: existing.id },
        ),
        command.mode is Reset ==> {
            &&& refused_for_good(
                result,
                StoreError::InterruptedSession { session_id: existing.id },
            )
            &&& unresolved_launches ==> refused_for_now(without, StoreError::Invalid)
            &&& !unresolved_launches ==> without == Ok::<SessionId, Refusal>(command.session_id)
        },
{
}

/// Templates may be registered before a session is opened unless one is malformed or differs from
/// what is registered; afterwards each must be registered as it is.
pub proof fn templates_must_agree(
    findings: Vec<TemplateFinding>,
    before: Result<(), StoreError>,
    after: Result<(), StoreError>,
    finding: TemplateFinding,
    one: Result<bool, StoreError>,
)
    requires
        call_ensures(validate_template_set_before_open, (&findings,), before),
        call_ensures(validate_registered_templates, (&findings,), after),
        call_ensures(register_template, (finding,), one),
    ensures
        before is Ok <==> forall|i: int|
            0 <= i < findings@.len() ==> !(#[trigger] findings@[i] is Malformed) && !(findings@[i]
                is Different),
        before matches Err(error) ==> error == StoreError::Invalid,
        after is Ok <==> forall|i: int| 0 <= i < findings@.len() ==> #[trigger] findings@[i]
            is Same,
        after matches Err(error) ==> error == StoreError::Corrupt,
        finding is Missing ==> one == Ok::<bool, StoreError>(true),
        finding is Same ==> one == Ok::<bool, StoreError>(false),
        finding is Malformed || finding is Different ==> one == Err::<bool, StoreError>(
            StoreError::Invalid,
        ),
{
    if forall|i: int|
        0 <= i < findings@.len() ==> !(#[trigger] findings@[i] is Malformed) && !(findings@[i]
            is Different) {
        assert forall|i: int| 0 <= i < findings@.len() implies #[trigger] findings@[i]
            == TemplateFinding::Missing || findings@[i] == TemplateFinding::Same by {
            assert(!(findings@[i] is Malformed));
        }
    }
    if forall|i: int| 0 <= i < findings@.len() ==> #[trigger] findings@[i] is Same {
        assert forall|i: int| 0 <= i < findings@.len() implies #[trigger] findings@[i]
            == TemplateFinding::Same by {
            assert(findings@[i] is Same);
        }
    }
}

/// Templates are registered together with a session that is new, or is the same as before.
pub proof fn templates_come_with_their_session(
    open: OpenSession,
    findings: Vec<TemplateFinding>,
    existing: SessionSnapshot,
    kept: KeptManifest,
    now: Timestamp,
    result: Result<Option<SessionSnapshot>, StoreError>,
    fresh: Result<Option<SessionSnapshot>, StoreError>,
)
    requires
        call_ensures(
            register_templates_and_open_session,
            (&open, &findings, Some(&existing), &kept, now),
            result,
        ),
        call_ensures(
            register_templates_and_open_session,
            (&open, &findings, None::<&SessionSnapshot>, &kept, now),
            fresh,
        ),
    ensures
        ({
            let agree = forall|i: int|
                0 <= i < findings@.len() ==> !(#[trigger] findings@[i] is Malformed) && !(
                findings@[i] is Different);
            &&& result is Ok <==> agree && existing.consumer_key@ == open.consumer_key@
                && existing.compatibility == open.compatibility && keeps_its_manifest(open, kept)
            &&& fresh is Ok <==> agree
        }),
        result matches Ok(opened) ==> opened is None,
        fresh matches Ok(opened) ==> (opened matches Some(session) && is_just_opened(
            session,
            open,
            now,
        )),
        result matches Err(error) ==> error == StoreError::Invalid,
        fresh matches Err(error) ==> error == StoreError::Invalid,
{
    if forall|i: int|
        0 <= i < findings@.len() ==> !(#[trigger] findings@[i] is Malformed) && !(findings@[i]
            is Different) {
        assert forall|i: int| 0 <= i < findings@.len() implies #[trigger] findings@[i]
            == TemplateFinding::Missing || findings@[i] == TemplateFinding::Same by {
            assert(!(findings@[i] is Malformed));
        }
    }
}

/// A registration that is told again must find every template as it is, and, where the session
/// was named exactly, that session.
pub proof fn recorded_registrations_are_checked(
    snapshot: SessionSnapshot,
    command: OpenSession,
    findings: Vec<TemplateFinding>,
    result: Result<(), StoreError>,
)
    requires
        call_ensures(validate_registration_replay, (&snapshot, &command, &findings), result),
    ensures
        result is Ok <==> (forall|i: int| 0 <= i < findings@.len() ==> #[trigger] findings@[i]
            is Same) && (command.mode is Exact ==> snapshot.id == command.session_id
            && snapshot.consumer_key@ == command.consumer_key@ && snapshot.compatibility
            == command.compatibility),
        result matches Err(error) ==> error == StoreError::Corrupt,
{
    if forall|i: int| 0 <= i < findings@.len() ==> #[trigger] findings@[i] is Same {
        assert forall|i: int| 0 <= i < findings@.len() implies #[trigger] findings@[i]
            == TemplateFinding::Same by {
            assert(findings@[i] is Same);
        }
    }
}

/// The first session of a consumer is kept under its own key, a further one under its identity.
pub proof fn further_sessions_have_keys_of_their_own(
    consumer_key: String,
    session_id: SessionId,
    free: String,
    occupied: String,
)
    requires
        call_ensures(session_storage_key, (&consumer_key, false, session_id), free),
        call_ensures(session_storage_key, (&consumer_key, true, session_id), occupied),
    ensures
        free@ == consumer_key@,
        occupied@ == "session:"@ + uuid_text(session_id.0),
{
}

/// A lease that is told again must be what was asked for: for this session and host, in the epoch
/// that was named if one was, and as long as was asked.
pub proof fn recorded_leases_are_checked(
    wire: LeaseWire,
    ids_accepted: bool,
    session_id: SessionId,
    caller: HostId,
    epoch: Option<FencingEpoch>,
    duration_millis: u64,
    result: Result<OwnershipLease, StoreError>,
)
    requires
        call_ensures(
            validate_lease_replay,
            (wire, ids_accepted, session_id, caller, epoch, duration_millis),
            result,
        ),
    ensures
        result matches Ok(lease) ==> {
            let issued = Timestamp { seconds: wire.issued_seconds, nanos: wire.issued_nanos };
            &&& ids_accepted
            &&& lease.session_id == session_id && wire.session_id == session_id
            &&& lease.owner == caller && wire.owner == caller
            &&& lease.epoch.0 == wire.epoch
            &&& wire.epoch >= 1
            &&& epoch matches Some(expected) ==> lease.epoch == expected
            &&& lease.expires_at.seconds == wire.expires_seconds
            &&& lease.expires_at.nanos == wire.expires_nanos
            &&& wire.issued_nanos < 1_000_000_000
            &&& wire.expires_nanos < 1_000_000_000
            &&& issued.instant() < lease.expires_at.instant()
            &&& duration_millis * 1_000_000 <= lease.expires_at.instant() - issued.instant() < (
            duration_millis + 1) * 1_000_000
        },
        result matches Err(error) ==> error == StoreError::Corrupt,
        ids_accepted && wire.session_id == session_id && wire.owner == caller && wire.epoch >= 1
            && wire.issued_nanos < 1_000_000_000 && wire.expires_nanos < 1_000_000_000 && (
        epoch matches Some(expected) ==> wire.epoch == expected.0) && on_calendar(
            wire.issued_seconds as int,
        ) && on_calendar(wire.expires_seconds as int) && duration_millis > 0
            && wire.expires_seconds * 1_000_000_000 + wire.expires_nanos == wire.issued_seconds
            * 1_000_000_000 + wire.issued_nanos + duration_millis * 1_000_000 ==> result is Ok,
{
    let issued = Timestamp { seconds: wire.issued_seconds, nanos: wire.issued_nanos };
    let expires = Timestamp { seconds: wire.expires_seconds, nanos: wire.expires_nanos };
    if issued.wf() && expires.wf() {
        order_follows_instants(issued, expires);
    }
}

/// A page holds what was found, up to its limit, and says whether there is more.
pub proof fn pages_say_whether_there_is_more(found: usize, limit: usize, result: (usize, bool))
    requires
        call_ensures(event_page, (found, limit), result),
    ensures
        result.0 <= found && result.0 <= limit,
        result.0 == found || result.0 == limit,
        result.1 <==> result.0 < found,
{
}

/// A session is read back from its columns as they are: open at zero, closed at one, with an
/// owner whose epoch was given out.
pub proof fn session_columns_are_read(columns: SessionColumns, result: Result<SessionRow, StoreError>)
    requires
        call_ensures(decode_session, (columns,), result),
    ensures
        result matches Ok(row) ==> {
            &&& row.snapshot.id == columns.id
            &&& row.snapshot.consumer_key == columns.consumer_key
            &&& row.snapshot.compatibility == columns.compatibility
            &&& columns.closed == 0 ==> row.snapshot.status is Open
            &&& columns.closed == 1 ==> row.snapshot.status is Closed
            &&& row.snapshot.revision.0 == columns.revision
            &&& row.snapshot.created_at.seconds == columns.created_at.0
            &&& row.snapshot.created_at.nanos == columns.created_at.1
            &&& row.snapshot.updated_at.seconds == columns.updated_at.0
            &&& row.snapshot.updated_at.nanos == columns.updated_at.1
            &&& row.time_floor.seconds == columns.time_floor.0
            &&& row.time_floor.nanos == columns.time_floor.1
            &&& row.epoch_high_water == columns.epoch_high_water
            &&& row.owner is Some <==> columns.owner is Some
            &&& columns.owner matches Some(owner) ==> {
                let lease = row.owner->Some_0;
                &&& lease.session_id == columns.id
                &&& lease.owner == owner.host_id
                &&& lease.epoch.0 == owner.epoch
                &&& 1 <= owner.epoch <= columns.epoch_high_water
                &&& lease.expires_at.seconds == owner.expires_seconds
                &&& lease.expires_at.nanos == owner.expires_nanos
            }
        },
        result is Ok && columns.owner is None ==> columns.revision >= 1 && (columns.closed == 0
            || columns.closed == 1) && columns.epoch_high_water >= 0,
        columns.owner is None && columns.revision >= 1 && (columns.closed == 0 || columns.closed
            == 1) && columns.epoch_high_water >= 0 && 0 <= columns.created_at.1 < 1_000_000_000
            && 0 <= columns.time_floor.1 < 1_000_000_000 && columns.updated_at
            == columns.created_at ==> result is Ok,
        result matches Err(error) ==> error == StoreError::Corrupt,
{
}

} // verus!
