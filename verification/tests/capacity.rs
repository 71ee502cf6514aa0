use navigator_store::capacity::{
    capacity_metric, configure_capacity_limit, consume_capacity_reservation,
    ensure_derived_capacity, reclaim_stale_subscription_leases, release_capacity,
    release_global_capacity, renew_subscription_lease, reserve_capacity, reserve_global_capacity,
    reserve_subscription_lease, subscription_is_abandoned, validate_subscription_owner,
    CapacityLimit, CapacityUsage, ReserveCapacity, ReserveGlobalCapacity, ReserveSubscriptionLease,
    StoredGlobalReservation, StoredLimit, StoredReservation, StoredSubscriptionLease,
    SubscriptionOwner,
};
use navigator_store::error::{CapacityReason, CapacityResource, StoreError};
use navigator_store::ids::{FencingEpoch, HostId, ParticipantId, RequestId, SessionId};
use navigator_store::time::Timestamp;

const RESOURCE: CapacityResource = CapacityResource::Messages;
const LIMIT: CapacityLimit = CapacityLimit { per_session: 10, global: 20 };

fn at(seconds: i64) -> Timestamp {
    Timestamp { seconds, nanos: 0 }
}

fn usage(session: u64, global: u64, reserved_session: i64, reserved_global: i64) -> CapacityUsage {
    CapacityUsage {
        derived_session: session,
        derived_global: global,
        reserved_session,
        reserved_global,
    }
}

fn session_limit(resource: CapacityResource) -> StoreError {
    StoreError::CapacityExceeded { reason: CapacityReason::SessionLimit { resource } }
}

fn global_limit(resource: CapacityResource) -> StoreError {
    StoreError::CapacityExceeded { reason: CapacityReason::GlobalLimit { resource } }
}

fn wish(amount: u64) -> ReserveCapacity {
    ReserveCapacity {
        reservation_id: RequestId(1),
        session_id: SessionId(2),
        campaign_id: ParticipantId(3),
        resource: RESOURCE,
        amount,
    }
}

fn stored(amount: i64, released: bool) -> StoredReservation {
    StoredReservation {
        session_id: SessionId(2),
        campaign_id: ParticipantId(3),
        resource: RESOURCE,
        amount,
        released,
    }
}

fn lease(epoch: u64, expires: i64) -> StoredSubscriptionLease {
    StoredSubscriptionLease {
        session_id: SessionId(2),
        campaign_id: ParticipantId(3),
        owner_host_id: HostId(4),
        owner_epoch: epoch,
        expires_at: at(expires),
    }
}

fn subscription(epoch: u64, expires: i64) -> ReserveSubscriptionLease {
    ReserveSubscriptionLease {
        reservation_id: RequestId(1),
        session_id: SessionId(2),
        campaign_id: ParticipantId(3),
        owner_host_id: HostId(4),
        owner_epoch: FencingEpoch(epoch),
        expires_at: at(expires),
    }
}

#[test]
fn what_is_used_and_reserved_stays_within_both_limits() {
    assert_eq!(ensure_derived_capacity(RESOURCE, usage(5, 5, 3, 3), LIMIT, 2), Ok(()));
    assert_eq!(
        ensure_derived_capacity(RESOURCE, usage(5, 5, 3, 3), LIMIT, 3),
        Err(session_limit(RESOURCE))
    );
    assert_eq!(
        ensure_derived_capacity(RESOURCE, usage(5, 16, 3, 3), LIMIT, 2),
        Err(global_limit(RESOURCE))
    );
    assert_eq!(
        ensure_derived_capacity(RESOURCE, usage(u64::MAX, 0, 1, 1), LIMIT, 1),
        Err(session_limit(RESOURCE))
    );
    assert_eq!(
        ensure_derived_capacity(RESOURCE, usage(0, 0, -1, 0), LIMIT, 1),
        Err(StoreError::Corrupt)
    );
}

#[test]
fn release_undoes_reserve() {
    let plan = reserve_capacity(wish(4), None, Some(SessionId(2)), usage(1, 1, 2, 9), LIMIT).unwrap();
    assert_eq!(plan.counters, Some((6, 13)));
    assert!(!plan.reservation.released);
    let back =
        release_capacity(RequestId(1), Some(stored(4, false)), Some(6), Some(13)).unwrap();
    assert_eq!(back.counters, Some((2, 9)));
    assert!(back.reservation.released);
    let again = release_capacity(RequestId(1), Some(stored(4, true)), Some(2), Some(9)).unwrap();
    assert_eq!(again.counters, None);
    assert!(!back.forget && !again.forget);
    let lease = StoredReservation { resource: CapacityResource::Subscriptions, ..stored(4, false) };
    let forgotten = release_capacity(RequestId(1), Some(lease), Some(6), Some(13)).unwrap();
    assert!(forgotten.forget);
    assert_eq!(forgotten.counters, Some((2, 9)));
    assert_eq!(
        release_capacity(RequestId(1), None, Some(2), Some(9)),
        Err(StoreError::Invalid)
    );
    assert_eq!(
        release_capacity(RequestId(1), Some(stored(4, false)), Some(3), Some(9)),
        Err(StoreError::Corrupt)
    );
}

#[test]
fn reservations_are_idempotent_and_bounded() {
    let kept =
        reserve_capacity(wish(4), Some(stored(4, false)), Some(SessionId(2)), usage(9, 9, 9, 9), LIMIT)
            .unwrap();
    assert_eq!(kept.counters, None);
    assert_eq!(
        reserve_capacity(wish(5), Some(stored(4, false)), Some(SessionId(2)), usage(0, 0, 0, 0), LIMIT),
        Err(StoreError::RequestConflict { request_id: RequestId(1) })
    );
    assert_eq!(
        reserve_capacity(wish(4), None, Some(SessionId(2)), usage(5, 5, 2, 2), LIMIT),
        Err(session_limit(RESOURCE))
    );
    assert_eq!(
        reserve_capacity(wish(4), None, Some(SessionId(9)), usage(0, 0, 0, 0), LIMIT),
        Err(StoreError::ParticipantNotFound { participant_id: ParticipantId(3) })
    );
    assert_eq!(
        reserve_capacity(wish(0), None, Some(SessionId(2)), usage(0, 0, 0, 0), LIMIT),
        Err(StoreError::Invalid)
    );
}

#[test]
fn a_reservation_is_taken_up_once_and_exactly() {
    assert_eq!(
        consume_capacity_reservation(wish(4), Some(stored(4, false)), Some(6), Some(13)),
        Ok((2, 9))
    );
    assert_eq!(
        consume_capacity_reservation(wish(3), Some(stored(4, false)), Some(6), Some(13)),
        Err(StoreError::Invalid)
    );
    assert_eq!(
        consume_capacity_reservation(wish(4), Some(stored(4, true)), Some(6), Some(13)),
        Err(StoreError::Invalid)
    );
    assert_eq!(
        consume_capacity_reservation(wish(4), None, Some(6), Some(13)),
        Err(StoreError::Invalid)
    );
    assert_eq!(
        consume_capacity_reservation(wish(4), Some(stored(4, false)), None, Some(13)),
        Err(StoreError::Corrupt)
    );
}

#[test]
fn global_release_undoes_global_reserve() {
    let command =
        ReserveGlobalCapacity { reservation_id: RequestId(1), resource: RESOURCE, amount: 4 };
    let plan = reserve_global_capacity(command, None, 16, LIMIT).unwrap();
    assert_eq!(plan.counter, Some(20));
    assert_eq!(
        reserve_global_capacity(command, None, 17, LIMIT),
        Err(global_limit(RESOURCE))
    );
    let stored = StoredGlobalReservation { resource: RESOURCE, amount: 4, released: false };
    let back = release_global_capacity(RequestId(1), Some(stored), Some(20)).unwrap();
    assert_eq!(back.counter, Some(16));
    assert!(back.reservation.released);
    assert_eq!(release_global_capacity(RequestId(1), None, Some(20)), Err(StoreError::Invalid));
}

#[test]
fn metrics_tell_use_and_limits() {
    let metric = capacity_metric(RESOURCE, usage(5, 6, 3, 4), LIMIT).unwrap();
    assert_eq!((metric.session_used, metric.session_limit), (8, 10));
    assert_eq!((metric.global_used, metric.global_limit), (10, 20));
    assert_eq!(
        capacity_metric(RESOURCE, usage(5, 6, -3, 4), LIMIT),
        Err(StoreError::Corrupt)
    );
}

#[test]
fn configured_limits_are_fixed() {
    let fresh = StoredLimit { per_session: 0, global: 0, configured: 0 };
    let same = StoredLimit { per_session: 10, global: 20, configured: 1 };
    let other = StoredLimit { per_session: 11, global: 20, configured: 1 };
    assert_eq!(configure_capacity_limit(Some(fresh), LIMIT), Ok(Some((10, 20))));
    assert_eq!(configure_capacity_limit(Some(same), LIMIT), Ok(None));
    assert_eq!(configure_capacity_limit(Some(other), LIMIT), Err(StoreError::Invalid));
    assert_eq!(configure_capacity_limit(None, LIMIT), Err(StoreError::Corrupt));
    let large = CapacityLimit { per_session: u64::MAX, global: 1 };
    assert_eq!(configure_capacity_limit(Some(fresh), large), Err(StoreError::Invalid));
}

#[test]
fn subscriptions_belong_to_the_owner() {
    let owner = SubscriptionOwner {
        host_id: HostId(4),
        epoch: 5,
        expires_at: at(100),
        time_floor: at(50),
    };
    let session = Some(SessionId(2));
    assert_eq!(validate_subscription_owner(subscription(5, 90), Some(owner), session), Ok(()));
    for (epoch, expires) in [(6, 90), (5, 50), (5, 101)] {
        assert_eq!(
            validate_subscription_owner(subscription(epoch, expires), Some(owner), session),
            Err(StoreError::StaleOwnership {
                session_id: SessionId(2),
                attempted: FencingEpoch(epoch),
                current: Some(FencingEpoch(5)),
            })
        );
    }
    assert_eq!(
        validate_subscription_owner(subscription(5, 90), None, session),
        Err(StoreError::SessionNotFound { session_id: SessionId(2) })
    );
    assert_eq!(
        validate_subscription_owner(subscription(5, 90), Some(owner), Some(SessionId(9))),
        Err(StoreError::ParticipantNotFound { participant_id: ParticipantId(3) })
    );
}

#[test]
fn live_subscriptions_are_kept_and_others_reclaimed() {
    let owner = Some((HostId(4), 5));
    assert!(!subscription_is_abandoned(lease(5, 90), owner, at(89)));
    assert!(subscription_is_abandoned(lease(5, 90), owner, at(90)));
    assert!(subscription_is_abandoned(lease(4, 90), owner, at(50)));
    assert!(subscription_is_abandoned(lease(5, 90), Some((HostId(9), 5)), at(50)));
    assert!(subscription_is_abandoned(lease(5, 90), None, at(50)));
    let (abandoned, held) =
        reclaim_stale_subscription_leases(&vec![lease(5, 90), lease(4, 90), lease(5, 60)], owner, at(60));
    assert_eq!(abandoned, vec![false, true, true]);
    assert_eq!(held, 1);
}

#[test]
fn subscriptions_are_reserved_within_limits_and_renewed() {
    let fresh = subscription(5, 90);
    assert_eq!(reserve_subscription_lease(fresh, None, 0, 0, 1, 1), Ok(true));
    assert_eq!(
        reserve_subscription_lease(fresh, None, 1, 1, 1, 9),
        Err(session_limit(CapacityResource::Subscriptions))
    );
    assert_eq!(
        reserve_subscription_lease(fresh, None, 0, 9, 1, 9),
        Err(global_limit(CapacityResource::Subscriptions))
    );
    assert_eq!(reserve_subscription_lease(fresh, Some(lease(5, 90)), 1, 1, 1, 1), Ok(false));
    assert_eq!(
        reserve_subscription_lease(fresh, Some(lease(6, 90)), 1, 1, 1, 1),
        Err(StoreError::RequestConflict { request_id: RequestId(1) })
    );
    assert_eq!(renew_subscription_lease(fresh, Some(lease(5, 80))), Ok(()));
    for stored in [None, Some(lease(6, 80)), Some(lease(5, 91))] {
        assert_eq!(
            renew_subscription_lease(fresh, stored),
            Err(StoreError::RequestConflict { request_id: RequestId(1) })
        );
    }
}

#[test]
fn counters_cover_what_is_held() {
    let reserve = |n: u128, amount, session, global| {
        reserve_capacity(
            ReserveCapacity { reservation_id: RequestId(n), ..wish(amount) },
            None,
            Some(SessionId(2)),
            usage(0, 0, session, global),
            LIMIT,
        )
        .unwrap()
        .counters
    };
    assert_eq!(reserve(1, 3, 0, 0), Some((3, 3)));
    assert_eq!(reserve(2, 4, 3, 3), Some((7, 7)));
    let first =
        release_capacity(RequestId(1), Some(stored(3, false)), Some(7), Some(7)).unwrap();
    assert_eq!(first.counters, Some((4, 4)));
    assert_eq!(
        consume_capacity_reservation(wish(4), Some(stored(4, false)), Some(4), Some(4)),
        Ok((0, 0))
    );
}
