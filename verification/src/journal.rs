//! The journal of a session: where an event goes, when it occurred, and how it is read.

use crate::capacity::{global_limit, session_limit};
use crate::error::{CapacityReason, CapacityResource, StoreError};
use crate::ids::{
    decode_revision, derived_identity_bits, parse_request_id, stamped_bits, to_u64, Digest,
    RequestId, Revision,
};
use crate::session::{column_instant, instant_columns};
use crate::text::{parse_uuid, uuid_value};
use crate::time::{decode_timestamp, Timestamp};
use vstd::prelude::*;

verus! {

/// What was found for a new event.
#[derive(Clone, Copy, PartialEq, Eq, Debug)]
pub struct JournalFacts {
    /// How many events a session, and the store, may keep.
    pub limits: Option<(i64, i64)>,
    pub session_events: i64,
    pub global_events: i64,
    /// When the last event of the session occurred.
    pub previous: Option<Timestamp>,
    /// The last position in the session; zero before the first event.
    pub last_position: i64,
    /// The digest of what identifies the event.
    pub identity: Digest,
}

/// Where an event goes.
#[derive(Clone, Copy, PartialEq, Eq, Debug, Structural)]
pub struct EventPlan {
    pub event_id: u128,
    pub position: i64,
    pub occurred_at: Timestamp,
}

/// The outcome of adding an event: at the next position, not before the last one, within the
/// limits.
pub open spec fn append_outcome(facts: JournalFacts, occurred_at: Timestamp) -> Result<
    EventPlan,
    StoreError,
> {
    match facts.limits {
        None => Err(StoreError::Corrupt),
        Some((per_session, global)) => if facts.session_events >= per_session {
            Err(session_limit(CapacityResource::RetainedEvents))
        } else if facts.global_events >= global {
            Err(global_limit(CapacityResource::RetainedEvents))
        } else if facts.last_position == i64::MAX {
            Err(StoreError::Unavailable)
        } else {
            Ok(
                EventPlan {
                    event_id: stamped_bits(facts.identity),
                    position: (facts.last_position + 1) as i64,
                    occurred_at: match facts.previous {
                        Some(previous) => previous.spec_max(occurred_at),
                        None => occurred_at,
                    },
                },
            )
        },
    }
}

/// Decides where an event goes.
pub fn append_event(facts: JournalFacts, occurred_at: Timestamp) -> (result: Result<
    EventPlan,
    StoreError,
>)
    ensures
        result == append_outcome(facts, occurred_at),
{
    let (per_session, global): (i64, i64) = match facts.limits {
        Some(limits) => limits,
        None => {
            return Err(StoreError::Corrupt);
        },
    };
    if facts.session_events >= per_session {
        return Err(
            StoreError::CapacityExceeded {
                reason: CapacityReason::SessionLimit { resource: CapacityResource::RetainedEvents },
            },
        );
    }
    if facts.global_events >= global {
        return Err(
            StoreError::CapacityExceeded {
                reason: CapacityReason::GlobalLimit { resource: CapacityResource::RetainedEvents },
            },
        );
    }
    if facts.last_position == i64::MAX {
        return Err(StoreError::Unavailable);
    }
    let occurred_at: Timestamp = match facts.previous {
        Some(previous) => previous.later(occurred_at),
        None => occurred_at,
    };
    Ok(
        EventPlan {
            event_id: derived_identity_bits(facts.identity),
            position: facts.last_position + 1,
            occurred_at,
        },
    )
}

/// The journal of a session has no gaps, never goes back in time, and keeps within its limits.
pub proof fn journals_grow_in_order(facts: JournalFacts, occurred_at: Timestamp)
    ensures
        append_outcome(facts, occurred_at) matches Ok(plan) ==> {
            &&& plan.position == facts.last_position + 1
            &&& facts.previous matches Some(previous) ==> !plan.occurred_at.spec_before(previous)
            &&& !plan.occurred_at.spec_before(occurred_at)
            &&& facts.limits matches Some(limits) && facts.session_events + 1 <= limits.0
                && facts.global_events + 1 <= limits.1
        },
{
}

/// What an event says beside its type and its document.
#[derive(Clone, Copy, PartialEq, Eq, Debug, Structural)]
pub struct EventHeader {
    pub event_id: u128,
    pub position: u64,
    pub revision: Revision,
    pub schema_version: u16,
    pub related_request_id: Option<RequestId>,
    pub occurred_at: Timestamp,
}

/// The stored numbers of an event.
#[derive(Clone, Copy, PartialEq, Eq, Debug)]
pub struct EventNumbers {
    /// Whether the identities, the position, the type, the schema version and the document are
    /// accepted by their types.
    pub accepted: bool,
    pub position: i64,
    pub revision: i64,
    pub schema_version: i64,
    pub occurred: (i64, i64),
}

/// Whether the stored columns of an event can be read.
pub open spec fn event_columns_sound(
    numbers: EventNumbers,
    event_id: Seq<char>,
    related: Option<Seq<char>>,
) -> bool {
    &&& numbers.accepted
    &&& uuid_value(event_id) is Some
    &&& numbers.position >= 0
    &&& numbers.revision >= 1
    &&& 0 <= numbers.schema_version <= u16::MAX
    &&& related matches Some(related) ==> uuid_value(related) is Some
    &&& instant_columns(numbers.occurred)
}

/// The event that stored columns hold.
pub open spec fn event_in(
    numbers: EventNumbers,
    event_id: Seq<char>,
    related: Option<Seq<char>>,
) -> EventHeader {
    EventHeader {
        event_id: uuid_value(event_id)->Some_0,
        position: numbers.position as u64,
        revision: Revision(numbers.revision as u64),
        schema_version: numbers.schema_version as u16,
        related_request_id: match related {
            Some(related) => Some(RequestId(uuid_value(related)->Some_0)),
            None => None,
        },
        occurred_at: column_instant(numbers.occurred),
    }
}

/// Reads an event: columns that do not hold one are corruption.
pub fn decode_event(
    numbers: EventNumbers,
    event_id: &str,
    related: Option<&str>,
) -> (result: Result<EventHeader, StoreError>)
    ensures
        ({
            let related = match related {
                Some(related) => Some(related@),
                None => None,
            };
            result == (if event_columns_sound(numbers, event_id@, related) {
                Ok::<EventHeader, StoreError>(event_in(numbers, event_id@, related))
            } else {
                Err(StoreError::Corrupt)
            })
        }),
{
    if !numbers.accepted {
        return Err(StoreError::Corrupt);
    }
    let event_id: u128 = match parse_uuid(event_id) {
        Some(bits) => bits,
        None => {
            return Err(StoreError::Corrupt);
        },
    };
    let related_request_id: Option<RequestId> = match related {
        Some(related) => match parse_request_id(related, numbers.accepted) {
            Ok(id) => Some(id),
            Err(error) => {
                return Err(error);
            },
        },
        None => None,
    };
    if numbers.schema_version < 0 || numbers.schema_version > u16::MAX as i64 {
        return Err(StoreError::Corrupt);
    }
    match (
        to_u64(numbers.position),
        decode_revision(numbers.revision),
        decode_timestamp(numbers.occurred.0, numbers.occurred.1),
    ) {
        (Ok(position), Ok(revision), Ok(occurred_at)) => Ok(
            EventHeader {
                event_id,
                position,
                revision,
                schema_version: numbers.schema_version as u16,
                related_request_id,
                occurred_at,
            },
        ),
        _ => Err(StoreError::Corrupt),
    }
}

} // verus!
