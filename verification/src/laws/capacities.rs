//! Capacity: limits that are held, and reservations that are given, taken up and given back.

use crate::capacity::{
    abandoned, capacity_metric, configure_capacity_limit, consume_capacity_reservation,
    ensure_derived_capacity, held_leases, reclaim_stale_subscription_leases, release_capacity,
    release_global_capacity, renew_subscription_lease, reserve_capacity, reserve_global_capacity,
    reserve_subscription_lease, subscription_is_abandoned, validate_subscription_owner,
    CapacityLimit, CapacityMetric, CapacityUsage, GlobalReservationPlan, ReleasePlan,
    ReservationPlan, ReserveCapacity, ReserveGlobalCapacity, ReserveSubscriptionLease,
    StoredGlobalReservation, StoredLimit, StoredReservation, StoredSubscriptionLease,
    SubscriptionOwner,
};
use crate::error::{CapacityReason, CapacityResource, StoreError};
use crate::ids::{FencingEpoch, HostId, RequestId, SessionId};
use crate::laws::words::has_room;
use crate::time::Timestamp;
use vstd::prelude::*;

verus! {

/// The error says whose limit was reached, and for what.
pub open spec fn is_over_the_session(error: StoreError, resource: CapacityResource) -> bool {
    error == (StoreError::CapacityExceeded { reason: CapacityReason::SessionLimit { resource } })
}

/// The error says that the limit of the store was reached, and for what.
pub open spec fn is_over_the_store(error: StoreError, resource: CapacityResource) -> bool {
    error == (StoreError::CapacityExceeded { reason: CapacityReason::GlobalLimit { resource } })
}

/// There is capacity exactly while what is used, what is reserved and what is asked for stay
/// within both limits. The limit of the session is told before that of the store.
pub proof fn limits_are_held(
    resource: CapacityResource,
    usage: CapacityUsage,
    limit: CapacityLimit,
    amount: u64,
    result: Result<(), StoreError>,
)
    requires
        call_ensures(ensure_derived_capacity, (resource, usage, limit, amount), result),
    ensures
        result is Ok <==> has_room(usage, limit, amount as int),
        usage.reserved_session < 0 || usage.reserved_global < 0 ==> result == Err::<(), StoreError>(
            StoreError::Corrupt,
        ),
        usage.reserved_session >= 0 && usage.reserved_global >= 0 ==> {
            let session = usage.derived_session + usage.reserved_session + amount;
            let global = usage.derived_global + usage.reserved_global + amount;
            &&& session > limit.per_session ==> (result matches Err(error) && is_over_the_session(
                error,
                resource,
            ))
            &&& session <= limit.per_session && global > limit.global ==> (result matches Err(error)
                && is_over_the_store(error, resource))
        },
{
}

/// A reservation is given for a participant of the session while there is room, and is counted
/// for the session and the store.
pub proof fn reservations_are_given_while_there_is_room(
    command: ReserveCapacity,
    campaign_session: Option<SessionId>,
    usage: CapacityUsage,
    limit: CapacityLimit,
    result: Result<ReservationPlan, StoreError>,
)
    requires
        call_ensures(
            reserve_capacity,
            (command, None::<StoredReservation>, campaign_session, usage, limit),
            result,
        ),
    ensures
        result is Ok <==> {
            &&& !(command.resource is Subscriptions)
            &&& command.amount > 0
            &&& campaign_session == Some(command.session_id)
            &&& has_room(usage, limit, command.amount as int)
            &&& command.amount <= i64::MAX
            &&& usage.reserved_session + command.amount <= i64::MAX
            &&& usage.reserved_global + command.amount <= i64::MAX
        },
        result matches Ok(plan) ==> {
            &&& plan.reservation.reservation_id == command.reservation_id
            &&& plan.reservation.session_id == command.session_id
            &&& plan.reservation.campaign_id == command.campaign_id
            &&& plan.reservation.resource == command.resource
            &&& plan.reservation.amount == command.amount
            &&& !plan.reservation.released
            &&& plan.counters matches Some((session, global))
            &&& session == usage.reserved_session + command.amount
            &&& global == usage.reserved_global + command.amount
        },
        command.resource is Subscriptions || command.amount == 0 ==> result == Err::<
            ReservationPlan,
            StoreError,
        >(StoreError::Invalid),
        !(command.resource is Subscriptions) && command.amount > 0 && campaign_session != Some(
            command.session_id,
        ) ==> result == Err::<ReservationPlan, StoreError>(
            StoreError::ParticipantNotFound { participant_id: command.campaign_id },
        ),
        !(command.resource is Subscriptions) && command.amount > 0 && campaign_session == Some(
            command.session_id,
        ) && usage.reserved_session >= 0 && usage.reserved_global >= 0 ==> {
            let session = usage.derived_session + usage.reserved_session + command.amount;
            let global = usage.derived_global + usage.reserved_global + command.amount;
            &&& session > limit.per_session && global <= u64::MAX ==> (result matches Err(error)
                && is_over_the_session(error, command.resource))
            &&& session <= limit.per_session && global > limit.global ==> (result matches Err(error)
                && is_over_the_store(error, command.resource))
        },
{
}

/// Asking again for the same reservation gives the same one, and counts nothing; asking for
/// another under its identity is a conflict.
pub proof fn reservations_are_given_once(
    command: ReserveCapacity,
    stored: StoredReservation,
    campaign_session: Option<SessionId>,
    usage: CapacityUsage,
    limit: CapacityLimit,
    result: Result<ReservationPlan, StoreError>,
)
    requires
        call_ensures(
            reserve_capacity,
            (command, Some(stored), campaign_session, usage, limit),
            result,
        ),
        !(command.resource is Subscriptions),
        command.amount > 0,
    ensures
        result is Ok <==> stored.session_id == command.session_id && stored.campaign_id
            == command.campaign_id && stored.resource == command.resource && stored.amount
            == command.amount,
        result matches Ok(plan) ==> {
            &&& plan.counters is None
            &&& plan.reservation.reservation_id == command.reservation_id
            &&& plan.reservation.session_id == stored.session_id
            &&& plan.reservation.campaign_id == stored.campaign_id
            &&& plan.reservation.resource == stored.resource
            &&& plan.reservation.amount == stored.amount
            &&& plan.reservation.released == stored.released
        },
        result matches Err(error) ==> error == (StoreError::RequestConflict {
            request_id: command.reservation_id,
        }),
{
}

/// What was reserved is given back once, to the session and to the store.
pub proof fn reservations_are_given_back_once(
    reservation_id: RequestId,
    stored: Option<StoredReservation>,
    session_used: Option<i64>,
    global_used: Option<i64>,
    result: Result<ReleasePlan, StoreError>,
)
    requires
        call_ensures(
            release_capacity,
            (reservation_id, stored, session_used, global_used),
            result,
        ),
    ensures
        result is Ok <==> {
            &&& stored matches Some(kept)
            &&& kept.amount >= 0
            &&& !kept.released ==> {
                &&& session_used matches Some(session)
                &&& global_used matches Some(global)
                &&& session >= kept.amount
                &&& global >= kept.amount
            }
        },
        result matches Ok(plan) ==> {
            let kept = stored->Some_0;
            &&& plan.reservation.reservation_id == reservation_id
            &&& plan.reservation.session_id == kept.session_id
            &&& plan.reservation.campaign_id == kept.campaign_id
            &&& plan.reservation.resource == kept.resource
            &&& plan.reservation.amount == kept.amount
            &&& plan.reservation.released
            &&& plan.forget <==> kept.resource is Subscriptions
            &&& plan.counters is Some <==> !kept.released
            &&& plan.counters matches Some((session, global)) ==> {
                &&& session == session_used->Some_0 - kept.amount
                &&& global == global_used->Some_0 - kept.amount
            }
        },
        stored is None ==> result == Err::<ReleasePlan, StoreError>(StoreError::Invalid),
        stored is Some && result is Err ==> result == Err::<ReleasePlan, StoreError>(
            StoreError::Corrupt,
        ),
{
}

/// A reservation of the store alone is given while the store has room.
pub proof fn the_store_reserves_for_itself(
    command: ReserveGlobalCapacity,
    used: i64,
    limit: CapacityLimit,
    result: Result<GlobalReservationPlan, StoreError>,
    stored: StoredGlobalReservation,
    again: Result<GlobalReservationPlan, StoreError>,
)
    requires
        call_ensures(
            reserve_global_capacity,
            (command, None::<StoredGlobalReservation>, used, limit),
            result,
        ),
        call_ensures(reserve_global_capacity, (command, Some(stored), used, limit), again),
    ensures
        result is Ok <==> command.amount > 0 && used >= 0 && used + command.amount <= limit.global
            && used + command.amount <= i64::MAX,
        result matches Ok(plan) ==> {
            &&& plan.reservation.reservation_id == command.reservation_id
            &&& plan.reservation.resource == command.resource
            &&& plan.reservation.amount == command.amount
            &&& !plan.reservation.released
            &&& plan.counter matches Some(after)
            &&& after == used + command.amount
            &&& !plan.forget
        },
        command.amount > 0 && used >= 0 && used + command.amount > limit.global ==> (
        result matches Err(error) && is_over_the_store(error, command.resource)),
        again is Ok <==> command.amount > 0 && stored.resource == command.resource && stored.amount
            == command.amount,
        again matches Ok(plan) ==> {
            &&& plan.reservation.reservation_id == command.reservation_id
            &&& plan.reservation.resource == stored.resource
            &&& plan.reservation.amount == stored.amount
            &&& plan.reservation.released == stored.released
            &&& plan.counter is None
            &&& !plan.forget
        },
        command.amount > 0 && stored.resource != command.resource ==> again == Err::<
            GlobalReservationPlan,
            StoreError,
        >(StoreError::RequestConflict { request_id: command.reservation_id }),
{
}

/// What the store reserved for itself is given back once; requests that were pending are then
/// forgotten.
pub proof fn the_store_gives_back_to_itself(
    reservation_id: RequestId,
    stored: Option<StoredGlobalReservation>,
    used: Option<i64>,
    result: Result<GlobalReservationPlan, StoreError>,
)
    requires
        call_ensures(release_global_capacity, (reservation_id, stored, used), result),
    ensures
        result is Ok <==> {
            &&& stored matches Some(kept)
            &&& kept.amount >= 0
            &&& !kept.released ==> (used matches Some(used) && used >= kept.amount)
        },
        result matches Ok(plan) ==> {
            let kept = stored->Some_0;
            &&& plan.reservation.reservation_id == reservation_id
            &&& plan.reservation.resource == kept.resource
            &&& plan.reservation.amount == kept.amount
            &&& plan.reservation.released
            &&& plan.counter is Some <==> !kept.released
            &&& plan.counter matches Some(after) ==> after == used->Some_0 - kept.amount
            &&& plan.forget <==> kept.resource is PendingRequests
        },
        stored is None ==> result == Err::<GlobalReservationPlan, StoreError>(StoreError::Invalid),
        stored is Some && result is Err ==> result == Err::<GlobalReservationPlan, StoreError>(
            StoreError::Corrupt,
        ),
{
}

/// A reservation is taken up exactly by the one it was given to, for what and how much it was
/// given, and only while it was not given back.
pub proof fn reservations_are_taken_up_as_given(
    wish: ReserveCapacity,
    stored: Option<StoredReservation>,
    session_used: Option<i64>,
    global_used: Option<i64>,
    result: Result<(i64, i64), StoreError>,
)
    requires
        call_ensures(
            consume_capacity_reservation,
            (wish, stored, session_used, global_used),
            result,
        ),
    ensures
        result is Ok <==> {
            &&& stored matches Some(kept)
            &&& kept.session_id == wish.session_id
            &&& kept.campaign_id == wish.campaign_id
            &&& kept.resource == wish.resource
            &&& kept.amount == wish.amount
            &&& !kept.released
            &&& session_used matches Some(session)
            &&& global_used matches Some(global)
            &&& session >= kept.amount
            &&& global >= kept.amount
        },
        result matches Ok((session, global)) ==> session == session_used->Some_0 - wish.amount
            && global == global_used->Some_0 - wish.amount,
        stored is None || stored->Some_0.session_id != wish.session_id
            || stored->Some_0.campaign_id != wish.campaign_id || stored->Some_0.resource
            != wish.resource || (stored->Some_0.amount >= 0 && (stored->Some_0.amount
            != wish.amount || stored->Some_0.released)) ==> result == Err::<
            (i64, i64),
            StoreError,
        >(StoreError::Invalid),
{
}

/// A metric tells what is used and what is reserved together, and the limits.
pub proof fn metrics_tell_use_and_limits(
    resource: CapacityResource,
    usage: CapacityUsage,
    limit: CapacityLimit,
    result: Result<CapacityMetric, StoreError>,
)
    requires
        call_ensures(capacity_metric, (resource, usage, limit), result),
    ensures
        result is Ok <==> usage.reserved_session >= 0 && usage.reserved_global >= 0
            && usage.derived_session + usage.reserved_session <= u64::MAX && usage.derived_global
            + usage.reserved_global <= u64::MAX,
        result matches Ok(metric) ==> {
            &&& metric.resource == resource
            &&& metric.session_used == usage.derived_session + usage.reserved_session
            &&& metric.global_used == usage.derived_global + usage.reserved_global
            &&& metric.session_limit == limit.per_session
            &&& metric.global_limit == limit.global
        },
{
}

/// A limit is configured once: from then on only the same limits are accepted, and nothing is
/// written.
pub proof fn limits_are_configured_once(
    stored: StoredLimit,
    limit: CapacityLimit,
    result: Result<Option<(i64, i64)>, StoreError>,
)
    requires
        call_ensures(configure_capacity_limit, (Some(stored), limit), result),
        limit.per_session <= i64::MAX,
        limit.global <= i64::MAX,
    ensures
        stored.configured == 0 ==> (result matches Ok(Some((per_session, global))) && per_session
            == limit.per_session && global == limit.global),
        stored.configured == 1 ==> (result is Ok <==> stored.per_session == limit.per_session
            && stored.global == limit.global),
        stored.configured == 1 ==> (result matches Ok(written) ==> written is None),
        stored.configured != 0 && stored.configured != 1 ==> result is Err,
        result matches Err(error) ==> error == StoreError::Invalid,
{
}

/// A subscription belongs to the owner of the session, in its epoch, and ends after now but not
/// after the owner's own lease; its participant is one of the session.
pub proof fn subscriptions_belong_to_the_owner(
    command: ReserveSubscriptionLease,
    owner: Option<SubscriptionOwner>,
    campaign_session: Option<SessionId>,
    result: Result<(), StoreError>,
)
    requires
        call_ensures(validate_subscription_owner, (command, owner, campaign_session), result),
    ensures
        result is Ok <==> {
            &&& owner matches Some(owner)
            &&& owner.host_id == command.owner_host_id
            &&& owner.epoch == command.owner_epoch.0
            &&& owner.time_floor.spec_before(command.expires_at)
            &&& !owner.expires_at.spec_before(command.expires_at)
            &&& campaign_session == Some(command.session_id)
        },
        owner is None ==> result == Err::<(), StoreError>(
            StoreError::SessionNotFound { session_id: command.session_id },
        ),
        owner matches Some(owner) ==> {
            &&& owner.epoch < 0 ==> result == Err::<(), StoreError>(StoreError::Corrupt)
            &&& owner.epoch > 0 && (owner.host_id != command.owner_host_id || owner.epoch
                != command.owner_epoch.0) ==> result == Err::<(), StoreError>(
                StoreError::StaleOwnership {
                    session_id: command.session_id,
                    attempted: command.owner_epoch,
                    current: Some(FencingEpoch(owner.epoch as u64)),
                },
            )
            &&& owner.epoch >= 0 && owner.host_id == command.owner_host_id && owner.epoch
                == command.owner_epoch.0 && owner.time_floor.spec_before(command.expires_at)
                && !owner.expires_at.spec_before(command.expires_at) && campaign_session != Some(
                command.session_id,
            ) ==> result == Err::<(), StoreError>(
                StoreError::ParticipantNotFound { participant_id: command.campaign_id },
            )
        },
{
}

/// A subscription is new while there is room for one more, and is the same one again if it was
/// asked for before in the same words.
pub proof fn subscriptions_are_counted(
    command: ReserveSubscriptionLease,
    existing: Option<StoredSubscriptionLease>,
    session_used: i64,
    global_used: i64,
    session_limit_rows: i64,
    global_limit_rows: i64,
    result: Result<bool, StoreError>,
)
    requires
        call_ensures(
            reserve_subscription_lease,
            (
                command,
                existing,
                session_used,
                global_used,
                session_limit_rows,
                global_limit_rows,
            ),
            result,
        ),
    ensures
        result == Ok::<bool, StoreError>(true) <==> existing is None && session_used + 1
            <= session_limit_rows && global_used + 1 <= global_limit_rows,
        result == Ok::<bool, StoreError>(false) <==> {
            &&& existing matches Some(stored)
            &&& stored.session_id == command.session_id
            &&& stored.campaign_id == command.campaign_id
            &&& stored.owner_host_id == command.owner_host_id
            &&& stored.owner_epoch == command.owner_epoch.0
            &&& stored.expires_at == command.expires_at
        },
        existing is Some && result is Err ==> result == Err::<bool, StoreError>(
            StoreError::RequestConflict { request_id: command.reservation_id },
        ),
        existing is None && session_used >= session_limit_rows ==> (result matches Err(error)
            && is_over_the_session(error, CapacityResource::Subscriptions)),
        existing is None && session_used < session_limit_rows && global_used >= global_limit_rows
            ==> (result matches Err(error) && is_over_the_store(
            error,
            CapacityResource::Subscriptions,
        )),
{
}

/// A subscription is renewed by its own holder only, and never shortened.
pub proof fn subscriptions_are_not_shortened(
    command: ReserveSubscriptionLease,
    stored: Option<StoredSubscriptionLease>,
    result: Result<(), StoreError>,
)
    requires
        call_ensures(renew_subscription_lease, (command, stored), result),
    ensures
        result is Ok <==> {
            &&& stored matches Some(held)
            &&& held.session_id == command.session_id
            &&& held.campaign_id == command.campaign_id
            &&& held.owner_host_id == command.owner_host_id
            &&& held.owner_epoch == command.owner_epoch.0
            &&& !command.expires_at.spec_before(held.expires_at)
        },
        result matches Err(error) ==> error == (StoreError::RequestConflict {
            request_id: command.reservation_id,
        }),
{
}

/// A subscription is abandoned exactly when its host does not hold the session in its epoch any
/// more, or its time is up.
pub open spec fn is_left_behind(
    lease: StoredSubscriptionLease,
    owner: Option<(HostId, u64)>,
    time_floor: Timestamp,
) -> bool {
    ||| !(owner matches Some((host, epoch)) && host == lease.owner_host_id && epoch
        == lease.owner_epoch)
    ||| !time_floor.spec_before(lease.expires_at)
}

/// How many of the first leases are not abandoned.
pub open spec fn still_held(
    leases: Seq<StoredSubscriptionLease>,
    owner: Option<(HostId, u64)>,
    time_floor: Timestamp,
    count: nat,
) -> nat
    decreases count,
{
    if count == 0 {
        0
    } else {
        still_held(leases, owner, time_floor, (count - 1) as nat) + if is_left_behind(
            leases[count - 1],
            owner,
            time_floor,
        ) {
            0nat
        } else {
            1
        }
    }
}

proof fn lemma_still_held(
    leases: Seq<StoredSubscriptionLease>,
    owner: Option<(HostId, u64)>,
    time_floor: Timestamp,
    count: nat,
)
    requires
        count <= leases.len(),
    ensures
        still_held(leases, owner, time_floor, count) == held_leases(
            leases.take(count as int),
            owner,
            time_floor,
        ),
    decreases count,
{
    reveal(Seq::filter);
    let first = leases.take(count as int);
    if count > 0 {
        lemma_still_held(leases, owner, time_floor, (count - 1) as nat);
        assert(first.drop_last() =~= leases.take(count - 1));
    }
}

/// Abandoned subscriptions are reclaimed, all of them and no other, and the others are counted.
pub proof fn abandoned_subscriptions_are_reclaimed(
    leases: Vec<StoredSubscriptionLease>,
    owner: Option<(HostId, u64)>,
    time_floor: Timestamp,
    index: int,
    result: (Vec<bool>, usize),
    one: bool,
)
    requires
        call_ensures(reclaim_stale_subscription_leases, (&leases, owner, time_floor), result),
        0 <= index < leases@.len(),
        call_ensures(subscription_is_abandoned, (leases@[index], owner, time_floor), one),
    ensures
        one <==> is_left_behind(leases@[index], owner, time_floor),
        result.0@.len() == leases@.len(),
        result.0@[index] <==> is_left_behind(leases@[index], owner, time_floor),
        result.1 == still_held(leases@, owner, time_floor, leases@.len()),
{
    lemma_still_held(leases@, owner, time_floor, leases@.len());
    assert(leases@.take(leases@.len() as int) =~= leases@);
    assert(result.0[index] == abandoned(leases[index], owner, time_floor));
}

} // verus!
