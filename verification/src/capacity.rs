//! Limits on what a session, and the whole store, may hold.
//!
//! Use is derived from the rows that are there, and reserved ahead of rows that are to come.

use crate::error::{CapacityReason, CapacityResource, StoreError};
use crate::ids::{FencingEpoch, HostId, ParticipantId, RequestId, SessionId};
use crate::time::Timestamp;
use vstd::prelude::*;

verus! {

/// The limits of one resource.
#[derive(Clone, Copy, PartialEq, Eq, Debug, Structural)]
pub struct CapacityLimit {
    pub per_session: u64,
    pub global: u64,
}

/// The use of one resource: what the stored rows amount to, and what is reserved.
#[derive(Clone, Copy, PartialEq, Eq, Debug, Structural)]
pub struct CapacityUsage {
    pub derived_session: u64,
    pub derived_global: u64,
    pub reserved_session: i64,
    pub reserved_global: i64,
}

impl CapacityUsage {
    /// Reserved amounts are not negative.
    pub open spec fn sound(self) -> bool {
        self.reserved_session >= 0 && self.reserved_global >= 0
    }

    /// The use by the session.
    pub open spec fn session_used(self) -> int {
        self.derived_session + self.reserved_session
    }

    /// The use over the whole store.
    pub open spec fn global_used(self) -> int {
        self.derived_global + self.reserved_global
    }
}

/// The refusal at the limit of a session.
pub open spec fn session_limit(resource: CapacityResource) -> StoreError {
    StoreError::CapacityExceeded { reason: CapacityReason::SessionLimit { resource } }
}

/// The refusal at the limit of the store.
pub open spec fn global_limit(resource: CapacityResource) -> StoreError {
    StoreError::CapacityExceeded { reason: CapacityReason::GlobalLimit { resource } }
}

/// Whether an amount fits beside a use, under a limit and within the counter.
pub open spec fn fits(used: int, amount: u64, limit: u64) -> bool {
    used + amount <= limit
}

/// Whether more of a resource may be used: nothing where it may, else the first obstacle.
pub open spec fn capacity_obstacle(
    resource: CapacityResource,
    usage: CapacityUsage,
    limit: CapacityLimit,
    amount: u64,
) -> Option<StoreError> {
    if !usage.sound() {
        Some(StoreError::Corrupt)
    } else if !fits(usage.session_used(), amount, limit.per_session) {
        Some(session_limit(resource))
    } else if !fits(usage.global_used(), amount, limit.global) {
        Some(global_limit(resource))
    } else {
        None
    }
}

fn sum(first: u64, second: i64, third: u64) -> (total: Option<u64>)
    requires
        second >= 0,
    ensures
        total == (if first + second + third <= u64::MAX {
            Some((first + second + third) as u64)
        } else {
            None
        }),
{
    match first.checked_add(second as u64) {
        Some(partial) => partial.checked_add(third),
        None => None,
    }
}

fn within(total: Option<u64>, limit: u64) -> (result: bool)
    ensures
        result == (total matches Some(total) && total <= limit),
{
    match total {
        Some(total) => total <= limit,
        None => false,
    }
}

fn exceeded(reason: CapacityReason) -> (error: StoreError)
    ensures
        error == (StoreError::CapacityExceeded { reason }),
{
    StoreError::CapacityExceeded { reason }
}

/// Refuses an amount that does not fit beside what is used.
pub fn ensure_derived_capacity(
    resource: CapacityResource,
    usage: CapacityUsage,
    limit: CapacityLimit,
    amount: u64,
) -> (result: Result<(), StoreError>)
    ensures
        result == (match capacity_obstacle(resource, usage, limit, amount) {
            Some(error) => Err::<(), StoreError>(error),
            None => Ok(()),
        }),
{
    if usage.reserved_session < 0 || usage.reserved_global < 0 {
        return Err(StoreError::Corrupt);
    }
    if !within(sum(usage.derived_session, usage.reserved_session, amount), limit.per_session) {
        return Err(exceeded(CapacityReason::SessionLimit { resource }));
    }
    if !within(sum(usage.derived_global, usage.reserved_global, amount), limit.global) {
        return Err(exceeded(CapacityReason::GlobalLimit { resource }));
    }
    Ok(())
}

/// A wish to reserve capacity for a participant of a session.
#[derive(Clone, Copy, PartialEq, Eq, Debug, Structural)]
pub struct ReserveCapacity {
    pub reservation_id: RequestId,
    pub session_id: SessionId,
    pub campaign_id: ParticipantId,
    pub resource: CapacityResource,
    pub amount: u64,
}

/// A reservation as it is kept.
#[derive(Clone, Copy, PartialEq, Eq, Debug, Structural)]
pub struct StoredReservation {
    pub session_id: SessionId,
    pub campaign_id: ParticipantId,
    pub resource: CapacityResource,
    pub amount: i64,
    pub released: bool,
}

/// A reservation.
#[derive(Clone, Copy, PartialEq, Eq, Debug, Structural)]
pub struct CapacityReservation {
    pub reservation_id: RequestId,
    pub session_id: SessionId,
    pub campaign_id: ParticipantId,
    pub resource: CapacityResource,
    pub amount: u64,
    pub released: bool,
}

/// A reservation and the reserved amounts to be written, where they change.
#[derive(Clone, Copy, PartialEq, Eq, Debug)]
pub struct ReservationPlan {
    pub reservation: CapacityReservation,
    pub counters: Option<(i64, i64)>,
}

/// A reservation that was given back, the reserved amounts to be written where they change, and
/// whether the reservation is forgotten, together with amounts that are down to nothing.
#[derive(Clone, Copy, PartialEq, Eq, Debug)]
pub struct ReleasePlan {
    pub reservation: CapacityReservation,
    pub counters: Option<(i64, i64)>,
    pub forget: bool,
}

/// The reservation that a wish asks for.
pub open spec fn wished(command: ReserveCapacity, released: bool) -> CapacityReservation {
    CapacityReservation {
        reservation_id: command.reservation_id,
        session_id: command.session_id,
        campaign_id: command.campaign_id,
        resource: command.resource,
        amount: command.amount,
        released,
    }
}

/// Whether a kept reservation is the one that is wished for.
pub open spec fn same_wish(command: ReserveCapacity, stored: StoredReservation) -> bool {
    &&& stored.session_id == command.session_id
    &&& stored.campaign_id == command.campaign_id
    &&& stored.resource == command.resource
    &&& stored.amount == command.amount
}

/// The outcome of a wish that was not granted before.
pub open spec fn fresh_reservation(
    command: ReserveCapacity,
    campaign_session: Option<SessionId>,
    usage: CapacityUsage,
    limit: CapacityLimit,
) -> Result<ReservationPlan, StoreError> {
    let resource = command.resource;
    if campaign_session != Some(command.session_id) {
        Err(StoreError::ParticipantNotFound { participant_id: command.campaign_id })
    } else if usage.reserved_session < 0 {
        Err(StoreError::Corrupt)
    } else if usage.session_used() + command.amount > u64::MAX {
        Err(session_limit(resource))
    } else if usage.reserved_global < 0 {
        Err(StoreError::Corrupt)
    } else if usage.global_used() + command.amount > u64::MAX {
        Err(global_limit(resource))
    } else if !fits(usage.session_used(), command.amount, limit.per_session) {
        Err(session_limit(resource))
    } else if !fits(usage.global_used(), command.amount, limit.global) {
        Err(global_limit(resource))
    } else if command.amount > i64::MAX {
        Err(StoreError::Invalid)
    } else if usage.reserved_session + command.amount > i64::MAX || usage.reserved_global
        + command.amount > i64::MAX {
        Err(StoreError::Corrupt)
    } else {
        Ok(
            ReservationPlan {
                reservation: wished(command, false),
                counters: Some(
                    (
                        (usage.reserved_session + command.amount) as i64,
                        (usage.reserved_global + command.amount) as i64,
                    ),
                ),
            },
        )
    }
}

/// The outcome of a wish to reserve capacity.
///
/// Subscriptions are leased, not reserved. A wish that was granted before is answered as it was,
/// and one that reuses its identity for something else conflicts.
pub open spec fn reservation_outcome(
    command: ReserveCapacity,
    existing: Option<StoredReservation>,
    campaign_session: Option<SessionId>,
    usage: CapacityUsage,
    limit: CapacityLimit,
) -> Result<ReservationPlan, StoreError> {
    if command.resource == CapacityResource::Subscriptions || command.amount == 0 {
        Err(StoreError::Invalid)
    } else {
        match existing {
            Some(stored) => if same_wish(command, stored) {
                Ok(ReservationPlan { reservation: wished(command, stored.released), counters: None })
            } else {
                Err(StoreError::RequestConflict { request_id: command.reservation_id })
            },
            None => fresh_reservation(command, campaign_session, usage, limit),
        }
    }
}

/// Reserves capacity.
pub fn reserve_capacity(
    command: ReserveCapacity,
    existing: Option<StoredReservation>,
    campaign_session: Option<SessionId>,
    usage: CapacityUsage,
    limit: CapacityLimit,
) -> (result: Result<ReservationPlan, StoreError>)
    ensures
        result == reservation_outcome(command, existing, campaign_session, usage, limit),
{
    let resource: CapacityResource = command.resource;
    if resource == CapacityResource::Subscriptions || command.amount == 0 {
        return Err(StoreError::Invalid);
    }
    if let Some(stored) = existing {
        let same_amount: bool = stored.amount >= 0 && stored.amount as u64 == command.amount;
        if stored.session_id != command.session_id || stored.campaign_id != command.campaign_id
            || stored.resource != resource || !same_amount {
            return Err(StoreError::RequestConflict { request_id: command.reservation_id });
        }
        return Ok(
            ReservationPlan {
                reservation: CapacityReservation {
                    reservation_id: command.reservation_id,
                    session_id: command.session_id,
                    campaign_id: command.campaign_id,
                    resource,
                    amount: command.amount,
                    released: stored.released,
                },
                counters: None,
            },
        );
    }
    if campaign_session != Some(command.session_id) {
        return Err(StoreError::ParticipantNotFound { participant_id: command.campaign_id });
    }
    if usage.reserved_session < 0 {
        return Err(StoreError::Corrupt);
    }
    let session_after: u64 = match sum(
        usage.derived_session,
        usage.reserved_session,
        command.amount,
    ) {
        Some(after) => after,
        None => {
            return Err(exceeded(CapacityReason::SessionLimit { resource }));
        },
    };
    if usage.reserved_global < 0 {
        return Err(StoreError::Corrupt);
    }
    let global_after: u64 = match sum(usage.derived_global, usage.reserved_global, command.amount) {
        Some(after) => after,
        None => {
            return Err(exceeded(CapacityReason::GlobalLimit { resource }));
        },
    };
    if session_after > limit.per_session {
        return Err(exceeded(CapacityReason::SessionLimit { resource }));
    }
    if global_after > limit.global {
        return Err(exceeded(CapacityReason::GlobalLimit { resource }));
    }
    if command.amount > i64::MAX as u64 {
        return Err(StoreError::Invalid);
    }
    let amount: i64 = command.amount as i64;
    match (usage.reserved_session.checked_add(amount), usage.reserved_global.checked_add(amount)) {
        (Some(session), Some(global)) => Ok(
            ReservationPlan {
                reservation: CapacityReservation {
                    reservation_id: command.reservation_id,
                    session_id: command.session_id,
                    campaign_id: command.campaign_id,
                    resource,
                    amount: command.amount,
                    released: false,
                },
                counters: Some((session, global)),
            },
        ),
        _ => Err(StoreError::Corrupt),
    }
}

/// A reserved amount after a part of it is given back; nothing where it is not held.
pub open spec fn given_back(used: Option<i64>, amount: i64) -> Option<i64> {
    match used {
        Some(used) => if used >= amount {
            Some((used - amount) as i64)
        } else {
            None
        },
        None => None,
    }
}

fn give_back(used: Option<i64>, amount: i64) -> (rest: Option<i64>)
    requires
        amount >= 0,
    ensures
        rest == given_back(used, amount),
{
    match used {
        Some(used) => if used >= amount {
            Some(used - amount)
        } else {
            None
        },
        None => None,
    }
}

/// The outcome of giving a reservation back.
///
/// A reservation that was given back before is reported as it is. Only one of subscriptions is
/// forgotten. `session_used` and `global_used` are the reserved amounts, where they are kept.
pub open spec fn release_outcome(
    reservation_id: RequestId,
    stored: Option<StoredReservation>,
    session_used: Option<i64>,
    global_used: Option<i64>,
) -> Result<ReleasePlan, StoreError> {
    match stored {
        None => Err(StoreError::Invalid),
        Some(stored) => if stored.amount < 0 {
            Err(StoreError::Corrupt)
        } else {
            let reservation = CapacityReservation {
                reservation_id,
                session_id: stored.session_id,
                campaign_id: stored.campaign_id,
                resource: stored.resource,
                amount: stored.amount as u64,
                released: true,
            };
            let forget = stored.resource == CapacityResource::Subscriptions;
            if stored.released {
                Ok(ReleasePlan { reservation, counters: None, forget })
            } else {
                match (
                    given_back(session_used, stored.amount),
                    given_back(global_used, stored.amount),
                ) {
                    (Some(session), Some(global)) => Ok(
                        ReleasePlan { reservation, counters: Some((session, global)), forget },
                    ),
                    _ => Err(StoreError::Corrupt),
                }
            }
        },
    }
}

/// Gives a reservation back.
pub fn release_capacity(
    reservation_id: RequestId,
    stored: Option<StoredReservation>,
    session_used: Option<i64>,
    global_used: Option<i64>,
) -> (result: Result<ReleasePlan, StoreError>)
    ensures
        result == release_outcome(reservation_id, stored, session_used, global_used),
{
    match stored {
        None => Err(StoreError::Invalid),
        Some(stored) => {
            if stored.amount < 0 {
                return Err(StoreError::Corrupt);
            }
            let reservation = CapacityReservation {
                reservation_id,
                session_id: stored.session_id,
                campaign_id: stored.campaign_id,
                resource: stored.resource,
                amount: stored.amount as u64,
                released: true,
            };
            let forget: bool = stored.resource == CapacityResource::Subscriptions;
            if stored.released {
                return Ok(ReleasePlan { reservation, counters: None, forget });
            }
            match (give_back(session_used, stored.amount), give_back(global_used, stored.amount)) {
                (Some(session), Some(global)) => Ok(
                    ReleasePlan { reservation, counters: Some((session, global)), forget },
                ),
                _ => Err(StoreError::Corrupt),
            }
        },
    }
}

/// The kept form of a reservation.
pub open spec fn kept(reservation: CapacityReservation) -> StoredReservation {
    StoredReservation {
        session_id: reservation.session_id,
        campaign_id: reservation.campaign_id,
        resource: reservation.resource,
        amount: reservation.amount as i64,
        released: reservation.released,
    }
}

/// A granted reservation never takes a session or the store over its limit.
pub proof fn reservations_stay_within_limits(
    command: ReserveCapacity,
    campaign_session: Option<SessionId>,
    usage: CapacityUsage,
    limit: CapacityLimit,
)
    requires
        reservation_outcome(command, None, campaign_session, usage, limit) is Ok,
    ensures
        ({
            let plan = reservation_outcome(command, None, campaign_session, usage, limit)->Ok_0;
            &&& plan.counters is Some
            &&& usage.derived_session + plan.counters->Some_0.0 <= limit.per_session
            &&& usage.derived_global + plan.counters->Some_0.1 <= limit.global
        }),
{
}

/// Giving a reservation back restores the reserved amounts from before it was granted.
pub proof fn release_undoes_reserve(
    command: ReserveCapacity,
    campaign_session: Option<SessionId>,
    usage: CapacityUsage,
    limit: CapacityLimit,
)
    requires
        reservation_outcome(command, None, campaign_session, usage, limit) is Ok,
    ensures
        ({
            let granted = reservation_outcome(command, None, campaign_session, usage, limit)->Ok_0;
            let (session, global) = granted.counters->Some_0;
            release_outcome(
                command.reservation_id,
                Some(kept(granted.reservation)),
                Some(session),
                Some(global),
            ) == Ok::<ReleasePlan, StoreError>(
                ReleasePlan {
                    reservation: wished(command, true),
                    counters: Some((usage.reserved_session, usage.reserved_global)),
                    forget: false,
                },
            )
        }),
{
}

/// Asking again for what was granted changes nothing and gives the same reservation; giving it
/// back again changes nothing.
pub proof fn reservations_are_idempotent(
    command: ReserveCapacity,
    campaign_session: Option<SessionId>,
    usage: CapacityUsage,
    later: CapacityUsage,
    limit: CapacityLimit,
)
    requires
        reservation_outcome(command, None, campaign_session, usage, limit) is Ok,
    ensures
        ({
            let granted = reservation_outcome(command, None, campaign_session, usage, limit)->Ok_0;
            let again = reservation_outcome(
                command,
                Some(kept(granted.reservation)),
                campaign_session,
                later,
                limit,
            );
            &&& again == Ok::<ReservationPlan, StoreError>(
                ReservationPlan { reservation: granted.reservation, counters: None },
            )
            &&& release_outcome(
                command.reservation_id,
                Some(kept(wished(command, true))),
                Some(later.reserved_session),
                Some(later.reserved_global),
            ) == Ok::<ReleasePlan, StoreError>(
                ReleasePlan { reservation: wished(command, true), counters: None, forget: false },
            )
        }),
{
}

/// A wish to reserve capacity of the whole store.
#[derive(Clone, Copy, PartialEq, Eq, Debug, Structural)]
pub struct ReserveGlobalCapacity {
    pub reservation_id: RequestId,
    pub resource: CapacityResource,
    pub amount: u64,
}

/// A reservation of the whole store as it is kept.
#[derive(Clone, Copy, PartialEq, Eq, Debug, Structural)]
pub struct StoredGlobalReservation {
    pub resource: CapacityResource,
    pub amount: i64,
    pub released: bool,
}

/// A reservation of the whole store.
#[derive(Clone, Copy, PartialEq, Eq, Debug, Structural)]
pub struct GlobalCapacityReservation {
    pub reservation_id: RequestId,
    pub resource: CapacityResource,
    pub amount: u64,
    pub released: bool,
}

/// A reservation of the whole store, the reserved amount to be written where it changes, and
/// whether the reservation is forgotten.
#[derive(Clone, Copy, PartialEq, Eq, Debug, Structural)]
pub struct GlobalReservationPlan {
    pub reservation: GlobalCapacityReservation,
    pub counter: Option<i64>,
    pub forget: bool,
}

/// The outcome of a wish to reserve capacity of the whole store.
pub open spec fn global_reservation_outcome(
    command: ReserveGlobalCapacity,
    existing: Option<StoredGlobalReservation>,
    used: i64,
    limit: CapacityLimit,
) -> Result<GlobalReservationPlan, StoreError> {
    let reservation = GlobalCapacityReservation {
        reservation_id: command.reservation_id,
        resource: command.resource,
        amount: command.amount,
        released: false,
    };
    if command.amount == 0 {
        Err(StoreError::Invalid)
    } else {
        match existing {
            Some(stored) => if stored.resource != command.resource {
                Err(StoreError::RequestConflict { request_id: command.reservation_id })
            } else if stored.amount < 0 {
                Err(StoreError::Corrupt)
            } else if stored.amount != command.amount {
                Err(StoreError::RequestConflict { request_id: command.reservation_id })
            } else {
                Ok(
                    GlobalReservationPlan {
                        reservation: GlobalCapacityReservation {
                            released: stored.released,
                            ..reservation
                        },
                        counter: None,
                        forget: false,
                    },
                )
            },
            None => if used < 0 {
                Err(StoreError::Corrupt)
            } else if used + command.amount > u64::MAX || !fits(
                used as int,
                command.amount,
                limit.global,
            ) {
                Err(global_limit(command.resource))
            } else if command.amount > i64::MAX {
                Err(StoreError::Invalid)
            } else if used + command.amount > i64::MAX {
                Err(StoreError::Corrupt)
            } else {
                Ok(
                    GlobalReservationPlan {
                        reservation,
                        counter: Some((used + command.amount) as i64),
                        forget: false,
                    },
                )
            },
        }
    }
}

/// Reserves capacity of the whole store.
pub fn reserve_global_capacity(
    command: ReserveGlobalCapacity,
    existing: Option<StoredGlobalReservation>,
    used: i64,
    limit: CapacityLimit,
) -> (result: Result<GlobalReservationPlan, StoreError>)
    ensures
        result == global_reservation_outcome(command, existing, used, limit),
{
    let resource: CapacityResource = command.resource;
    if command.amount == 0 {
        return Err(StoreError::Invalid);
    }
    if let Some(stored) = existing {
        if stored.resource != resource {
            return Err(StoreError::RequestConflict { request_id: command.reservation_id });
        }
        if stored.amount < 0 {
            return Err(StoreError::Corrupt);
        }
        if stored.amount as u64 != command.amount {
            return Err(StoreError::RequestConflict { request_id: command.reservation_id });
        }
        return Ok(
            GlobalReservationPlan {
                reservation: GlobalCapacityReservation {
                    reservation_id: command.reservation_id,
                    resource,
                    amount: command.amount,
                    released: stored.released,
                },
                counter: None,
                forget: false,
            },
        );
    }
    if used < 0 {
        return Err(StoreError::Corrupt);
    }
    if !within(sum(0, used, command.amount), limit.global) {
        return Err(exceeded(CapacityReason::GlobalLimit { resource }));
    }
    if command.amount > i64::MAX as u64 {
        return Err(StoreError::Invalid);
    }
    match used.checked_add(command.amount as i64) {
        Some(after) => Ok(
            GlobalReservationPlan {
                reservation: GlobalCapacityReservation {
                    reservation_id: command.reservation_id,
                    resource,
                    amount: command.amount,
                    released: false,
                },
                counter: Some(after),
                forget: false,
            },
        ),
        None => Err(StoreError::Corrupt),
    }
}

/// The outcome of giving a reservation of the whole store back. Pending requests are forgotten
/// once they are given back.
pub open spec fn global_release_outcome(
    reservation_id: RequestId,
    stored: Option<StoredGlobalReservation>,
    used: Option<i64>,
) -> Result<GlobalReservationPlan, StoreError> {
    match stored {
        None => Err(StoreError::Invalid),
        Some(stored) => if stored.amount < 0 {
            Err(StoreError::Corrupt)
        } else if !stored.released && given_back(used, stored.amount) is None {
            Err(StoreError::Corrupt)
        } else {
            Ok(
                GlobalReservationPlan {
                    reservation: GlobalCapacityReservation {
                        reservation_id,
                        resource: stored.resource,
                        amount: stored.amount as u64,
                        released: true,
                    },
                    counter: if stored.released {
                        None
                    } else {
                        given_back(used, stored.amount)
                    },
                    forget: stored.resource == CapacityResource::PendingRequests,
                },
            )
        },
    }
}

/// Gives a reservation of the whole store back.
pub fn release_global_capacity(
    reservation_id: RequestId,
    stored: Option<StoredGlobalReservation>,
    used: Option<i64>,
) -> (result: Result<GlobalReservationPlan, StoreError>)
    ensures
        result == global_release_outcome(reservation_id, stored, used),
{
    match stored {
        None => Err(StoreError::Invalid),
        Some(stored) => {
            if stored.amount < 0 {
                return Err(StoreError::Corrupt);
            }
            let counter: Option<i64> = if stored.released {
                None
            } else {
                match give_back(used, stored.amount) {
                    Some(rest) => Some(rest),
                    None => {
                        return Err(StoreError::Corrupt);
                    },
                }
            };
            Ok(
                GlobalReservationPlan {
                    reservation: GlobalCapacityReservation {
                        reservation_id,
                        resource: stored.resource,
                        amount: stored.amount as u64,
                        released: true,
                    },
                    counter,
                    forget: stored.resource == CapacityResource::PendingRequests,
                },
            )
        },
    }
}

/// Giving a reservation of the whole store back restores the reserved amount from before.
pub proof fn global_release_undoes_reserve(
    command: ReserveGlobalCapacity,
    used: i64,
    limit: CapacityLimit,
)
    requires
        global_reservation_outcome(command, None, used, limit) is Ok,
    ensures
        ({
            let granted = global_reservation_outcome(command, None, used, limit)->Ok_0;
            let released = global_release_outcome(
                command.reservation_id,
                Some(
                    StoredGlobalReservation {
                        resource: command.resource,
                        amount: command.amount as i64,
                        released: false,
                    },
                ),
                granted.counter,
            );
            &&& granted.counter matches Some(after) && after <= limit.global
            &&& released matches Ok(plan) && plan.counter == Some(used)
                && plan.reservation.released
        }),
{
}

/// Takes up a reservation for the rows that it was made for.
///
/// The reservation must be exactly the one that is named, and still held; its amounts are given
/// back because the rows themselves now count.
pub open spec fn consumption_outcome(
    wish: ReserveCapacity,
    stored: Option<StoredReservation>,
    session_used: Option<i64>,
    global_used: Option<i64>,
) -> Result<(i64, i64), StoreError> {
    match stored {
        None => Err(StoreError::Invalid),
        Some(stored) => if stored.session_id != wish.session_id || stored.campaign_id
            != wish.campaign_id || stored.resource != wish.resource {
            Err(StoreError::Invalid)
        } else if stored.amount < 0 {
            Err(StoreError::Corrupt)
        } else if stored.amount != wish.amount || stored.released {
            Err(StoreError::Invalid)
        } else {
            match (given_back(session_used, stored.amount), given_back(global_used, stored.amount)) {
                (Some(session), Some(global)) => Ok((session, global)),
                _ => Err(StoreError::Corrupt),
            }
        },
    }
}

/// Takes up a reservation and gives the reserved amounts that remain.
pub fn consume_capacity_reservation(
    wish: ReserveCapacity,
    stored: Option<StoredReservation>,
    session_used: Option<i64>,
    global_used: Option<i64>,
) -> (result: Result<(i64, i64), StoreError>)
    ensures
        result == consumption_outcome(wish, stored, session_used, global_used),
{
    match stored {
        None => Err(StoreError::Invalid),
        Some(stored) => {
            if stored.session_id != wish.session_id || stored.campaign_id != wish.campaign_id
                || stored.resource != wish.resource {
                return Err(StoreError::Invalid);
            }
            if stored.amount < 0 {
                return Err(StoreError::Corrupt);
            }
            if stored.amount as u64 != wish.amount || stored.released {
                return Err(StoreError::Invalid);
            }
            match (give_back(session_used, stored.amount), give_back(global_used, stored.amount)) {
                (Some(session), Some(global)) => Ok((session, global)),
                _ => Err(StoreError::Corrupt),
            }
        },
    }
}

/// A reservation as it is kept: of a session, or of the whole store.
pub enum KeptReservation {
    OfSession(StoredReservation),
    OfStore(StoredGlobalReservation),
}

impl KeptReservation {
    pub open spec fn amount(self) -> int {
        match self {
            KeptReservation::OfSession(stored) => stored.amount as int,
            KeptReservation::OfStore(stored) => stored.amount as int,
        }
    }

    /// Whether the reservation counts: for its session, or, where none is named, for the store.
    pub open spec fn counts_for(self, session: Option<SessionId>) -> bool {
        match self {
            KeptReservation::OfSession(stored) => !stored.released && (session is None || session
                == Some(stored.session_id)),
            KeptReservation::OfStore(stored) => !stored.released && session is None,
        }
    }
}

/// What is kept of one resource: the reservations, and the reserved amounts of each session and of
/// the whole store.
pub struct CapacityTables {
    pub rows: Seq<(RequestId, KeptReservation)>,
    pub session_used: Map<SessionId, i64>,
    pub global_used: Option<i64>,
}

/// How much is held: by a session, or, where none is named, over the whole store.
pub open spec fn held(rows: Seq<(RequestId, KeptReservation)>, session: Option<SessionId>) -> int
    decreases rows.len(),
{
    if rows.len() == 0 {
        0
    } else {
        held(rows.drop_last(), session) + if rows.last().1.counts_for(session) {
            rows.last().1.amount()
        } else {
            0
        }
    }
}

impl CapacityTables {
    /// The reserved amount of a session, where it is kept.
    pub open spec fn of_session(self, session: SessionId) -> Option<i64> {
        if self.session_used.contains_key(session) {
            Some(self.session_used[session])
        } else {
            None
        }
    }

    /// Whether the reserved amounts cover every reservation that is held; each holds something.
    pub open spec fn covered(self) -> bool {
        &&& forall|i: int| 0 <= i < self.rows.len() ==> #[trigger] self.rows[i].1.amount() >= 1
        &&& forall|session: SessionId| #[trigger]
            held(self.rows, Some(session)) <= or_nothing(self.of_session(session))
        &&& held(self.rows, None) <= or_nothing(self.global_used)
    }
}

/// A reserved amount; nothing where none is kept.
pub open spec fn or_nothing(used: Option<i64>) -> i64 {
    match used {
        Some(used) => used,
        None => 0,
    }
}

/// What may happen to the reservations of a resource.
pub enum CapacityMove {
    Reserve {
        command: ReserveCapacity,
        campaign_session: Option<SessionId>,
        derived_session: u64,
        derived_global: u64,
        limit: CapacityLimit,
    },
    ReserveOfStore { request: ReserveGlobalCapacity, limit: CapacityLimit },
    /// To give back the reservation in a row.
    Release { row: int },
    /// To take up the reservation in a row for rows that now count themselves.
    TakeUp { row: int, wish: ReserveCapacity },
}

/// What is kept of a resource after something happened to its reservations.
pub open spec fn capacity_after(tables: CapacityTables, happened: CapacityMove) -> CapacityTables {
    match happened {
        CapacityMove::Reserve {
            command,
            campaign_session,
            derived_session,
            derived_global,
            limit,
        } => {
            let usage = CapacityUsage {
                derived_session,
                derived_global,
                reserved_session: or_nothing(tables.of_session(command.session_id)),
                reserved_global: or_nothing(tables.global_used),
            };
            match reservation_outcome(command, None, campaign_session, usage, limit) {
                Ok(plan) => CapacityTables {
                    rows: tables.rows.push(
                        (command.reservation_id, KeptReservation::OfSession(kept(plan.reservation))),
                    ),
                    session_used: tables.session_used.insert(
                        command.session_id,
                        plan.counters->Some_0.0,
                    ),
                    global_used: Some(plan.counters->Some_0.1),
                },
                Err(_) => tables,
            }
        },
        CapacityMove::ReserveOfStore { request: command, limit } => {
            match global_reservation_outcome(
                command,
                None,
                or_nothing(tables.global_used),
                limit,
            ) {
                Ok(plan) => CapacityTables {
                    rows: tables.rows.push(
                        (
                            command.reservation_id,
                            KeptReservation::OfStore(
                                StoredGlobalReservation {
                                    resource: command.resource,
                                    amount: command.amount as i64,
                                    released: false,
                                },
                            ),
                        ),
                    ),
                    global_used: plan.counter,
                    ..tables
                },
                Err(_) => tables,
            }
        },
        CapacityMove::Release { row } => if !(0 <= row < tables.rows.len()) {
            tables
        } else {
            let id = tables.rows[row].0;
            match tables.rows[row].1 {
                KeptReservation::OfSession(stored) => match release_outcome(
                    id,
                    Some(stored),
                    tables.of_session(stored.session_id),
                    tables.global_used,
                ) {
                    Ok(plan) => given_up(tables, row, plan.counters, plan.forget),
                    Err(_) => tables,
                },
                KeptReservation::OfStore(stored) => match global_release_outcome(
                    id,
                    Some(stored),
                    tables.global_used,
                ) {
                    Ok(plan) => given_up(
                        tables,
                        row,
                        match plan.counter {
                            Some(global) => Some((0, global)),
                            None => None,
                        },
                        plan.forget,
                    ),
                    Err(_) => tables,
                },
            }
        },
        CapacityMove::TakeUp { row, wish } => if !(0 <= row < tables.rows.len()) {
            tables
        } else {
            match tables.rows[row].1 {
                KeptReservation::OfSession(stored) => match consumption_outcome(
                    wish,
                    Some(stored),
                    tables.of_session(stored.session_id),
                    tables.global_used,
                ) {
                    Ok(counters) => given_up(tables, row, Some(counters), false),
                    Err(_) => tables,
                },
                KeptReservation::OfStore(_) => tables,
            }
        },
    }
}

/// What is kept of a resource after the reservation in a row was given up.
pub open spec fn given_up(
    tables: CapacityTables,
    row: int,
    counters: Option<(i64, i64)>,
    forget: bool,
) -> CapacityTables {
    let (id, reservation) = tables.rows[row];
    let after = match reservation {
        KeptReservation::OfSession(stored) => KeptReservation::OfSession(
            StoredReservation { released: true, ..stored },
        ),
        KeptReservation::OfStore(stored) => KeptReservation::OfStore(
            StoredGlobalReservation { released: true, ..stored },
        ),
    };
    CapacityTables {
        rows: if forget {
            tables.rows.remove(row)
        } else {
            tables.rows.update(row, (id, after))
        },
        session_used: match (counters, reservation) {
            (Some((session, _)), KeptReservation::OfSession(stored)) => {
                tables.session_used.insert(stored.session_id, session)
            },
            _ => tables.session_used,
        },
        global_used: match counters {
            Some((_, global)) => Some(global),
            None => tables.global_used,
        },
    }
}

/// What is kept of a resource after several things happened, one after the other.
pub open spec fn capacity_in_the_end(
    tables: CapacityTables,
    happened: Seq<CapacityMove>,
) -> CapacityTables
    decreases happened.len(),
{
    if happened.len() == 0 {
        tables
    } else {
        capacity_after(capacity_in_the_end(tables, happened.drop_last()), happened.last())
    }
}

proof fn lemma_held_is_not_negative(
    rows: Seq<(RequestId, KeptReservation)>,
    session: Option<SessionId>,
)
    requires
        forall|i: int| 0 <= i < rows.len() ==> #[trigger] rows[i].1.amount() >= 1,
    ensures
        held(rows, session) >= 0,
    decreases rows.len(),
{
    if rows.len() > 0 {
        assert forall|i: int| 0 <= i < rows.drop_last().len() implies #[trigger] rows.drop_last()[
            i
        ].1.amount() >= 1 by {
            assert(rows.drop_last()[i] == rows[i]);
        }
        assert(rows[rows.len() - 1].1.amount() >= 1);
        lemma_held_is_not_negative(rows.drop_last(), session);
    }
}

/// What is held without the reservation in a row.
proof fn lemma_held_without(
    rows: Seq<(RequestId, KeptReservation)>,
    row: int,
    session: Option<SessionId>,
)
    requires
        0 <= row < rows.len(),
    ensures
        held(rows.remove(row), session) == held(rows, session) - if rows[row].1.counts_for(session) {
            rows[row].1.amount()
        } else {
            0
        },
    decreases rows.len(),
{
    let last = rows.len() - 1;
    if row == last {
        assert(rows.remove(row) =~= rows.drop_last());
    } else {
        lemma_held_without(rows.drop_last(), row, session);
        assert(rows.remove(row).drop_last() =~= rows.drop_last().remove(row));
        assert(rows.remove(row).last() == rows.last());
    }
}

/// What is held after the reservation in a row was replaced by one that does not count.
proof fn lemma_held_after(
    rows: Seq<(RequestId, KeptReservation)>,
    row: int,
    after: (RequestId, KeptReservation),
    session: Option<SessionId>,
)
    requires
        0 <= row < rows.len(),
        !after.1.counts_for(session),
    ensures
        held(rows.update(row, after), session) == held(rows, session) - if rows[row].1.counts_for(
            session,
        ) {
            rows[row].1.amount()
        } else {
            0
        },
{
    lemma_held_without(rows, row, session);
    lemma_held_without(rows.update(row, after), row, session);
    assert(rows.update(row, after).remove(row) =~= rows.remove(row));
}

/// Giving a reservation up leaves the rest covered, where the amounts shrink by what it held.
proof fn lemma_given_up_is_covered(
    tables: CapacityTables,
    row: int,
    counters: Option<(i64, i64)>,
    forget: bool,
)
    requires
        tables.covered(),
        0 <= row < tables.rows.len(),
        counters is None ==> !tables.rows[row].1.counts_for(None),
        counters matches Some((session, global)) ==> {
            let amount = tables.rows[row].1.amount();
            &&& tables.rows[row].1.counts_for(None)
            &&& tables.global_used matches Some(used) && global == used - amount
            &&& tables.rows[row].1 matches KeptReservation::OfSession(stored) ==> (
            tables.of_session(stored.session_id) matches Some(used) && session == used - amount)
        },
    ensures
        given_up(tables, row, counters, forget).covered(),
{
    let after = given_up(tables, row, counters, forget);
    let before = tables.rows[row];
    assert(before.1.amount() >= 1);
    let gone = match before.1 {
        KeptReservation::OfSession(stored) => (
            before.0,
            KeptReservation::OfSession(StoredReservation { released: true, ..stored }),
        ),
        KeptReservation::OfStore(stored) => (
            before.0,
            KeptReservation::OfStore(StoredGlobalReservation { released: true, ..stored }),
        ),
    };
    assert forall|i: int| 0 <= i < after.rows.len() implies #[trigger] after.rows[i].1.amount()
        >= 1 by {
        if forget {
            assert(after.rows[i] == if i < row {
                tables.rows[i]
            } else {
                tables.rows[i + 1]
            });
            assert(tables.rows[i].1.amount() >= 1);
            assert(i >= row ==> tables.rows[i + 1].1.amount() >= 1);
        } else {
            assert(tables.rows[i].1.amount() >= 1);
        }
    }
    assert forall|session: SessionId| #[trigger] held(after.rows, Some(session)) <= or_nothing(
        after.of_session(session),
    ) by {
        assert(held(tables.rows, Some(session)) <= or_nothing(tables.of_session(session)));
        lemma_held_without(tables.rows, row, Some(session));
        lemma_held_after(tables.rows, row, gone, Some(session));
    }
    lemma_held_without(tables.rows, row, None);
    lemma_held_after(tables.rows, row, gone, None);
}

/// A single step keeps every reservation covered.
proof fn lemma_step_is_covered(tables: CapacityTables, happened: CapacityMove)
    requires
        tables.covered(),
    ensures
        capacity_after(tables, happened).covered(),
{
    let after = capacity_after(tables, happened);
    match happened {
        CapacityMove::Reserve { .. } | CapacityMove::ReserveOfStore { .. } => {
            if after.rows != tables.rows {
                assert(after.rows.drop_last() =~= tables.rows);
                assert forall|i: int| 0 <= i < after.rows.len() implies #[trigger] after.rows[
                    i
                ].1.amount() >= 1 by {
                    if i < tables.rows.len() {
                        assert(after.rows[i] == tables.rows[i]);
                        assert(tables.rows[i].1.amount() >= 1);
                    }
                }
                assert forall|session: SessionId| #[trigger]
                    held(after.rows, Some(session)) <= or_nothing(after.of_session(session)) by {
                    assert(held(tables.rows, Some(session)) <= or_nothing(
                        tables.of_session(session),
                    ));
                }
            }
        },
        CapacityMove::Release { row } => {
            if 0 <= row < tables.rows.len() {
                assert(tables.rows[row].1.amount() >= 1);
                match tables.rows[row].1 {
                    KeptReservation::OfSession(stored) => {
                        let outcome = release_outcome(
                            tables.rows[row].0,
                            Some(stored),
                            tables.of_session(stored.session_id),
                            tables.global_used,
                        );
                        if outcome is Ok {
                            let plan = outcome->Ok_0;
                            lemma_given_up_is_covered(tables, row, plan.counters, plan.forget);
                        }
                    },
                    KeptReservation::OfStore(stored) => {
                        let outcome = global_release_outcome(
                            tables.rows[row].0,
                            Some(stored),
                            tables.global_used,
                        );
                        if outcome is Ok {
                            let plan = outcome->Ok_0;
                            let counters = match plan.counter {
                                Some(global) => Some((0i64, global)),
                                None => None,
                            };
                            lemma_given_up_is_covered(tables, row, counters, plan.forget);
                        }
                    },
                }
            }
        },
        CapacityMove::TakeUp { row, wish } => {
            if 0 <= row < tables.rows.len() {
                assert(tables.rows[row].1.amount() >= 1);
                if tables.rows[row].1 is OfSession {
                    let stored = tables.rows[row].1->OfSession_0;
                    let outcome = consumption_outcome(
                        wish,
                        Some(stored),
                        tables.of_session(stored.session_id),
                        tables.global_used,
                    );
                    if outcome is Ok {
                        lemma_given_up_is_covered(tables, row, Some(outcome->Ok_0), false);
                    }
                }
            }
        },
    }
}

/// The reserved amounts of a session and of the store always cover the reservations that are held:
/// they do where nothing is kept, and nothing that happens to reservations undoes it.
pub proof fn counters_cover_reservations(tables: CapacityTables, happened: Seq<CapacityMove>)
    ensures
        tables.rows.len() == 0 && or_nothing(tables.global_used) >= 0 && (forall|
            session: SessionId,
        |
            or_nothing(#[trigger] tables.of_session(session)) >= 0) ==> tables.covered(),
        tables.covered() ==> capacity_in_the_end(tables, happened).covered(),
    decreases happened.len(),
{
    if happened.len() > 0 {
        counters_cover_reservations(tables, happened.drop_last());
        if tables.covered() {
            lemma_step_is_covered(
                capacity_in_the_end(tables, happened.drop_last()),
                happened.last(),
            );
        }
    }
}

/// A reservation that is held can always be given back, whatever else was reserved and given back
/// in between: the amounts of its session and of the store each drop by exactly what it held.
/// Where it is kept, giving it back again gives the same answer and changes no amount.
pub proof fn held_reservations_are_given_back(
    tables: CapacityTables,
    row: int,
    stored: StoredReservation,
    session_later: Option<i64>,
    global_later: Option<i64>,
)
    requires
        tables.covered(),
        0 <= row < tables.rows.len(),
        tables.rows[row].1 == KeptReservation::OfSession(stored),
        !stored.released,
    ensures
        ({
            let id = tables.rows[row].0;
            let reservation = CapacityReservation {
                reservation_id: id,
                session_id: stored.session_id,
                campaign_id: stored.campaign_id,
                resource: stored.resource,
                amount: stored.amount as u64,
                released: true,
            };
            let forget = stored.resource == CapacityResource::Subscriptions;
            let session = or_nothing(tables.of_session(stored.session_id));
            let global = or_nothing(tables.global_used);
            &&& release_outcome(
                id,
                Some(stored),
                tables.of_session(stored.session_id),
                tables.global_used,
            ) == Ok::<ReleasePlan, StoreError>(
                ReleasePlan {
                    reservation,
                    counters: Some(
                        ((session - stored.amount) as i64, (global - stored.amount) as i64),
                    ),
                    forget,
                },
            )
            &&& release_outcome(
                id,
                Some(StoredReservation { released: true, ..stored }),
                session_later,
                global_later,
            ) == Ok::<ReleasePlan, StoreError>(ReleasePlan { reservation, counters: None, forget })
        }),
{
    assert(tables.rows[row].1.amount() >= 1);
    let session = Some(stored.session_id);
    assert forall|i: int| 0 <= i < tables.rows.remove(row).len() implies #[trigger] tables.rows.remove(
        row,
    )[i].1.amount() >= 1 by {
        assert(tables.rows.remove(row)[i] == if i < row {
            tables.rows[i]
        } else {
            tables.rows[i + 1]
        });
        assert(tables.rows[i].1.amount() >= 1);
        assert(i >= row ==> tables.rows[i + 1].1.amount() >= 1);
    }
    lemma_held_without(tables.rows, row, session);
    lemma_held_is_not_negative(tables.rows.remove(row), session);
    lemma_held_without(tables.rows, row, None);
    lemma_held_is_not_negative(tables.rows.remove(row), None);
    assert(held(tables.rows, session) <= or_nothing(tables.of_session(stored.session_id)));
}

/// What is used of a resource and how much there is.
#[derive(Clone, Copy, PartialEq, Eq, Debug, Structural)]
pub struct CapacityMetric {
    pub resource: CapacityResource,
    pub session_used: u64,
    pub session_limit: u64,
    pub global_used: u64,
    pub global_limit: u64,
}

/// The metric of one resource.
pub fn capacity_metric(
    resource: CapacityResource,
    usage: CapacityUsage,
    limit: CapacityLimit,
) -> (result: Result<CapacityMetric, StoreError>)
    ensures
        result is Ok <==> usage.sound() && usage.session_used() <= u64::MAX && usage.global_used()
            <= u64::MAX,
        result matches Ok(metric) ==> {
            &&& metric.resource == resource
            &&& metric.session_used == usage.session_used()
            &&& metric.global_used == usage.global_used()
            &&& metric.session_limit == limit.per_session
            &&& metric.global_limit == limit.global
        },
        result matches Err(error) ==> error == StoreError::Corrupt,
{
    if usage.reserved_session < 0 || usage.reserved_global < 0 {
        return Err(StoreError::Corrupt);
    }
    match (
        sum(usage.derived_session, usage.reserved_session, 0),
        sum(usage.derived_global, usage.reserved_global, 0),
    ) {
        (Some(session_used), Some(global_used)) => Ok(
            CapacityMetric {
                resource,
                session_used,
                session_limit: limit.per_session,
                global_used,
                global_limit: limit.global,
            },
        ),
        _ => Err(StoreError::Corrupt),
    }
}

/// The limits that are kept for a resource, once they have been configured.
#[derive(Clone, Copy, PartialEq, Eq, Debug, Structural)]
pub struct StoredLimit {
    pub per_session: i64,
    pub global: i64,
    pub configured: i64,
}

/// What is to be written for the configured limits of a resource: they are written once, and
/// later openings must ask for the same.
pub open spec fn limit_configuration(
    stored: Option<StoredLimit>,
    limit: CapacityLimit,
) -> Result<Option<(i64, i64)>, StoreError> {
    match stored {
        None => Err(StoreError::Corrupt),
        Some(stored) => if limit.per_session > i64::MAX || limit.global > i64::MAX {
            Err(StoreError::Invalid)
        } else if stored.configured == 0 {
            Ok(Some((limit.per_session as i64, limit.global as i64)))
        } else if stored.configured != 1 || stored.per_session != limit.per_session
            || stored.global != limit.global {
            Err(StoreError::Invalid)
        } else {
            Ok(None)
        },
    }
}

/// Decides what is to be written for the limits of a resource.
pub fn configure_capacity_limit(stored: Option<StoredLimit>, limit: CapacityLimit) -> (result:
    Result<Option<(i64, i64)>, StoreError>)
    ensures
        result == limit_configuration(stored, limit),
{
    match stored {
        None => Err(StoreError::Corrupt),
        Some(stored) => {
            if limit.per_session > i64::MAX as u64 || limit.global > i64::MAX as u64 {
                return Err(StoreError::Invalid);
            }
            let per_session: i64 = limit.per_session as i64;
            let global: i64 = limit.global as i64;
            if stored.configured == 0 {
                Ok(Some((per_session, global)))
            } else if stored.configured != 1 || stored.per_session != per_session
                || stored.global != global {
                Err(StoreError::Invalid)
            } else {
                Ok(None)
            }
        },
    }
}

/// Limits that were written are accepted unchanged by every later opening that asks for them,
/// and no opening can change them.
pub proof fn configured_limits_are_fixed(
    stored: StoredLimit,
    limit: CapacityLimit,
    other: CapacityLimit,
)
    requires
        stored.configured == 0,
        limit_configuration(Some(stored), limit) is Ok,
    ensures
        ({
            let (per_session, global) = limit_configuration(Some(stored), limit)->Ok_0->Some_0;
            let written = StoredLimit { per_session, global, configured: 1 };
            &&& limit_configuration(Some(written), limit) == Ok::<Option<(i64, i64)>, StoreError>(
                None,
            )
            &&& other != limit ==> limit_configuration(Some(written), other) == Err::<
                Option<(i64, i64)>,
                StoreError,
            >(StoreError::Invalid)
        }),
{
}

/// A wish to lease or renew a subscription.
#[derive(Clone, Copy, PartialEq, Eq, Debug, Structural)]
pub struct ReserveSubscriptionLease {
    pub reservation_id: RequestId,
    pub session_id: SessionId,
    pub campaign_id: ParticipantId,
    pub owner_host_id: HostId,
    pub owner_epoch: FencingEpoch,
    pub expires_at: Timestamp,
}

/// The owner and the time floor of an open session, as they are kept.
#[derive(Clone, Copy, PartialEq, Eq, Debug, Structural)]
pub struct SubscriptionOwner {
    pub host_id: HostId,
    pub epoch: i64,
    pub expires_at: Timestamp,
    pub time_floor: Timestamp,
}

/// The obstacle to a subscription lease: the session must be open, owned by the host at the
/// epoch, the lease must end after the floor and no later than the ownership, and the
/// participant must belong to the session.
pub open spec fn subscription_obstacle(
    command: ReserveSubscriptionLease,
    owner: Option<SubscriptionOwner>,
    campaign_session: Option<SessionId>,
) -> Option<StoreError> {
    match owner {
        None => Some(StoreError::SessionNotFound { session_id: command.session_id }),
        Some(owner) => if owner.epoch < 0 {
            Some(StoreError::Corrupt)
        } else if owner.host_id != command.owner_host_id || owner.epoch != command.owner_epoch.0
            || !owner.time_floor.spec_before(command.expires_at) || owner.expires_at.spec_before(
            command.expires_at,
        ) {
            Some(
                StoreError::StaleOwnership {
                    session_id: command.session_id,
                    attempted: command.owner_epoch,
                    current: if owner.epoch == 0 {
                        None
                    } else {
                        Some(FencingEpoch(owner.epoch as u64))
                    },
                },
            )
        } else if campaign_session != Some(command.session_id) {
            Some(StoreError::ParticipantNotFound { participant_id: command.campaign_id })
        } else {
            None
        },
    }
}

/// Checks that a subscription lease stands on the ownership of its session.
pub fn validate_subscription_owner(
    command: ReserveSubscriptionLease,
    owner: Option<SubscriptionOwner>,
    campaign_session: Option<SessionId>,
) -> (result: Result<(), StoreError>)
    ensures
        result == (match subscription_obstacle(command, owner, campaign_session) {
            Some(error) => Err::<(), StoreError>(error),
            None => Ok(()),
        }),
{
    match owner {
        None => Err(StoreError::SessionNotFound { session_id: command.session_id }),
        Some(owner) => {
            if owner.epoch < 0 {
                return Err(StoreError::Corrupt);
            }
            let epoch: u64 = owner.epoch as u64;
            if owner.host_id != command.owner_host_id || epoch != command.owner_epoch.0
                || !owner.time_floor.before(command.expires_at) || owner.expires_at.before(
                command.expires_at,
            ) {
                return Err(
                    StoreError::StaleOwnership {
                        session_id: command.session_id,
                        attempted: command.owner_epoch,
                        current: if epoch == 0 {
                            None
                        } else {
                            Some(FencingEpoch(epoch))
                        },
                    },
                );
            }
            if campaign_session != Some(command.session_id) {
                return Err(
                    StoreError::ParticipantNotFound { participant_id: command.campaign_id },
                );
            }
            Ok(())
        },
    }
}

/// A subscription lease as it is kept.
#[derive(Clone, Copy, PartialEq, Eq, Debug, Structural)]
pub struct StoredSubscriptionLease {
    pub session_id: SessionId,
    pub campaign_id: ParticipantId,
    pub owner_host_id: HostId,
    pub owner_epoch: u64,
    pub expires_at: Timestamp,
}

/// Whether a kept lease is the one that is wished for.
pub open spec fn same_subscription(
    command: ReserveSubscriptionLease,
    stored: StoredSubscriptionLease,
) -> bool {
    &&& stored.session_id == command.session_id
    &&& stored.campaign_id == command.campaign_id
    &&& stored.owner_host_id == command.owner_host_id
    &&& stored.owner_epoch == command.owner_epoch.0
    &&& stored.expires_at == command.expires_at
}

/// What a wish for a subscription lease leads to, after its owner was validated and abandoned
/// leases were reclaimed: whether a new lease is written.
pub open spec fn subscription_outcome(
    command: ReserveSubscriptionLease,
    existing: Option<StoredSubscriptionLease>,
    session_used: i64,
    global_used: i64,
    session_limit_rows: i64,
    global_limit_rows: i64,
) -> Result<bool, StoreError> {
    match existing {
        Some(stored) => if same_subscription(command, stored) {
            Ok(false)
        } else {
            Err(StoreError::RequestConflict { request_id: command.reservation_id })
        },
        None => if session_used >= session_limit_rows {
            Err(session_limit(CapacityResource::Subscriptions))
        } else if global_used >= global_limit_rows {
            Err(global_limit(CapacityResource::Subscriptions))
        } else {
            Ok(true)
        },
    }
}

/// Decides whether a new subscription lease is written.
pub fn reserve_subscription_lease(
    command: ReserveSubscriptionLease,
    existing: Option<StoredSubscriptionLease>,
    session_used: i64,
    global_used: i64,
    session_limit_rows: i64,
    global_limit_rows: i64,
) -> (result: Result<bool, StoreError>)
    ensures
        result == subscription_outcome(
            command,
            existing,
            session_used,
            global_used,
            session_limit_rows,
            global_limit_rows,
        ),
{
    let resource: CapacityResource = CapacityResource::Subscriptions;
    match existing {
        Some(stored) => if stored.session_id == command.session_id && stored.campaign_id
            == command.campaign_id && stored.owner_host_id == command.owner_host_id
            && stored.owner_epoch == command.owner_epoch.0 && stored.expires_at
            == command.expires_at {
            Ok(false)
        } else {
            Err(StoreError::RequestConflict { request_id: command.reservation_id })
        },
        None => if session_used >= session_limit_rows {
            Err(exceeded(CapacityReason::SessionLimit { resource }))
        } else if global_used >= global_limit_rows {
            Err(exceeded(CapacityReason::GlobalLimit { resource }))
        } else {
            Ok(true)
        },
    }
}

/// Renewing extends a lease of the same owner, and never shortens it.
pub open spec fn renewal_applies(
    command: ReserveSubscriptionLease,
    stored: Option<StoredSubscriptionLease>,
) -> bool {
    &&& stored matches Some(stored)
    &&& stored.session_id == command.session_id
    &&& stored.campaign_id == command.campaign_id
    &&& stored.owner_host_id == command.owner_host_id
    &&& stored.owner_epoch == command.owner_epoch.0
    &&& !command.expires_at.spec_before(stored.expires_at)
}

/// Decides whether a subscription lease is renewed.
pub fn renew_subscription_lease(
    command: ReserveSubscriptionLease,
    stored: Option<StoredSubscriptionLease>,
) -> (result: Result<(), StoreError>)
    ensures
        result == (if renewal_applies(command, stored) {
            Ok::<(), StoreError>(())
        } else {
            Err(StoreError::RequestConflict { request_id: command.reservation_id })
        }),
{
    match stored {
        Some(stored) => if stored.session_id == command.session_id && stored.campaign_id
            == command.campaign_id && stored.owner_host_id == command.owner_host_id
            && stored.owner_epoch == command.owner_epoch.0 && !command.expires_at.before(
            stored.expires_at,
        ) {
            Ok(())
        } else {
            Err(StoreError::RequestConflict { request_id: command.reservation_id })
        },
        None => Err(StoreError::RequestConflict { request_id: command.reservation_id }),
    }
}

/// A lease is abandoned once its session has no owner, another owner or epoch, or a floor that
/// has reached the end of the lease.
pub open spec fn abandoned(
    lease: StoredSubscriptionLease,
    owner: Option<(HostId, u64)>,
    time_floor: Timestamp,
) -> bool {
    ||| owner != Some((lease.owner_host_id, lease.owner_epoch))
    ||| !time_floor.spec_before(lease.expires_at)
}

/// Whether a lease is to be reclaimed.
pub fn subscription_is_abandoned(
    lease: StoredSubscriptionLease,
    owner: Option<(HostId, u64)>,
    time_floor: Timestamp,
) -> (result: bool)
    ensures
        result == abandoned(lease, owner, time_floor),
{
    match owner {
        Some((host, epoch)) => host != lease.owner_host_id || epoch != lease.owner_epoch
            || !time_floor.before(lease.expires_at),
        None => true,
    }
}

/// How many of the leases are still held.
pub open spec fn held_leases(
    leases: Seq<StoredSubscriptionLease>,
    owner: Option<(HostId, u64)>,
    time_floor: Timestamp,
) -> nat {
    leases.filter(|lease: StoredSubscriptionLease| !abandoned(lease, owner, time_floor)).len()
}

/// Marks the leases of a session that are to be reclaimed, and counts those that stay.
pub fn reclaim_stale_subscription_leases(
    leases: &Vec<StoredSubscriptionLease>,
    owner: Option<(HostId, u64)>,
    time_floor: Timestamp,
) -> (result: (Vec<bool>, usize))
    ensures
        result.0.len() == leases.len(),
        forall|i: int|
            0 <= i < leases.len() ==> #[trigger] result.0[i] == abandoned(
                leases[i],
                owner,
                time_floor,
            ),
        result.1 == held_leases(leases@, owner, time_floor),
{
    let mut reclaimed: Vec<bool> = Vec::new();
    let mut held: usize = 0;
    let mut index: usize = 0;
    proof {
        assert(leases@.take(0) =~= Seq::<StoredSubscriptionLease>::empty());
        reveal(Seq::filter);
    }
    while index < leases.len()
        invariant
            index <= leases.len(),
            reclaimed.len() == index,
            held <= index,
            held == held_leases(leases@.take(index as int), owner, time_floor),
            forall|i: int|
                0 <= i < index ==> #[trigger] reclaimed[i] == abandoned(
                    leases[i],
                    owner,
                    time_floor,
                ),
        decreases leases.len() - index,
    {
        let gone: bool = subscription_is_abandoned(leases[index], owner, time_floor);
        proof {
            let next = leases@.take(index + 1);
            assert(next.drop_last() =~= leases@.take(index as int));
            assert(next.last() == leases@[index as int]);
            reveal(Seq::filter);
        }
        reclaimed.push(gone);
        if !gone {
            held = held + 1;
        }
        index = index + 1;
    }
    assert(leases@.take(index as int) =~= leases@);
    (reclaimed, held)
}

/// Where a session stands once a lease was taken, a later reclaim keeps it as long as the owner
/// stays and the floor has not reached its end.
pub proof fn live_leases_are_kept(
    command: ReserveSubscriptionLease,
    owner: SubscriptionOwner,
    campaign_session: Option<SessionId>,
)
    requires
        subscription_obstacle(command, Some(owner), campaign_session) is None,
    ensures
        !abandoned(
            StoredSubscriptionLease {
                session_id: command.session_id,
                campaign_id: command.campaign_id,
                owner_host_id: command.owner_host_id,
                owner_epoch: command.owner_epoch.0,
                expires_at: command.expires_at,
            },
            Some((owner.host_id, owner.epoch as u64)),
            owner.time_floor,
        ),
{
}

} // verus!
