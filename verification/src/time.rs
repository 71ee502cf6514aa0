//! Instants, their order, and lease arithmetic.

use crate::error::StoreError;
use vstd::prelude::*;

verus! {

/// Nanoseconds in one second.
pub const NANOS_PER_SECOND: u32 = 1_000_000_000;

/// The longest ownership lease that is granted unless configured otherwise.
pub const DEFAULT_MAX_LEASE_MILLIS: u64 = 300_000;

/// The first second that the calendar covers: the start of year -9999.
pub const FIRST_CALENDAR_SECOND: i64 = -377_705_116_800;

/// The last second that the calendar covers: the end of year 9999.
pub const LAST_CALENDAR_SECOND: i64 = 253_402_300_799;

/// An instant: whole seconds since the epoch and the nanoseconds after them.
#[derive(Clone, Copy, PartialEq, Eq, Debug, Structural)]
pub struct Timestamp {
    pub seconds: i64,
    pub nanos: u32,
}

impl Timestamp {
    /// The nanosecond part is less than a second.
    pub open spec fn wf(self) -> bool {
        self.nanos < NANOS_PER_SECOND
    }

    /// Nanoseconds since the epoch.
    pub open spec fn instant(self) -> int {
        self.seconds * 1_000_000_000 + self.nanos
    }

    /// The order of instants: by seconds, then by nanoseconds.
    pub open spec fn spec_before(self, other: Timestamp) -> bool {
        self.seconds < other.seconds || (self.seconds == other.seconds && self.nanos
            < other.nanos)
    }

    /// The later of two instants.
    pub open spec fn spec_max(self, other: Timestamp) -> Timestamp {
        if self.spec_before(other) {
            other
        } else {
            self
        }
    }

    /// An instant from its parts; the nanoseconds must be less than a second.
    pub fn new(seconds: i64, nanos: u32) -> (result: Result<Timestamp, StoreError>)
        ensures
            nanos < NANOS_PER_SECOND ==> result == Ok::<Timestamp, StoreError>(
                (Timestamp { seconds, nanos }),
            ),
            nanos >= NANOS_PER_SECOND ==> result == Err::<Timestamp, StoreError>(
                StoreError::Corrupt,
            ),
    {
        if nanos < NANOS_PER_SECOND {
            Ok(Timestamp { seconds, nanos })
        } else {
            Err(StoreError::Corrupt)
        }
    }

    /// Whether this instant comes strictly before another.
    pub fn before(self, other: Timestamp) -> (result: bool)
        ensures
            result == self.spec_before(other),
    {
        self.seconds < other.seconds || (self.seconds == other.seconds && self.nanos
            < other.nanos)
    }

    /// The later of two instants.
    pub fn later(self, other: Timestamp) -> (result: Timestamp)
        ensures
            result == self.spec_max(other),
    {
        if self.before(other) {
            other
        } else {
            self
        }
    }
}

/// The order of well-formed instants is the order of their nanosecond counts.
pub proof fn order_follows_instants(left: Timestamp, right: Timestamp)
    requires
        left.wf(),
        right.wf(),
    ensures
        left.spec_before(right) <==> left.instant() < right.instant(),
        left.instant() == right.instant() ==> left == right,
        left.spec_max(right).instant() == if left.instant() < right.instant() {
            right.instant()
        } else {
            left.instant()
        },
{
}

/// Advancing a time floor never moves it back and never leaves an observation behind.
pub proof fn time_floor_is_monotone(floor: Timestamp, observed: Timestamp)
    ensures
        !floor.spec_max(observed).spec_before(floor),
        !floor.spec_max(observed).spec_before(observed),
        floor.spec_max(observed) == floor || floor.spec_max(observed) == observed,
{
}

/// A stored instant.
pub fn decode_timestamp(seconds: i64, nanos: i64) -> (result: Result<Timestamp, StoreError>)
    ensures
        0 <= nanos < NANOS_PER_SECOND ==> result == Ok::<Timestamp, StoreError>(
            (Timestamp { seconds, nanos: nanos as u32 }),
        ),
        !(0 <= nanos < NANOS_PER_SECOND) ==> result == Err::<Timestamp, StoreError>(
            StoreError::Corrupt,
        ),
{
    if 0 <= nanos && nanos < NANOS_PER_SECOND as i64 {
        Ok(Timestamp { seconds, nanos: nanos as u32 })
    } else {
        Err(StoreError::Corrupt)
    }
}

/// The instant one nanosecond before the given one.
pub fn timestamp_before(seconds: i64, nanos: u32) -> (result: Result<Timestamp, StoreError>)
    ensures
        result is Ok <==> (nanos <= NANOS_PER_SECOND && (nanos > 0 || seconds > i64::MIN)),
        result matches Ok(earlier) ==> earlier.wf() && earlier.instant() == (Timestamp {
            seconds,
            nanos,
        }).instant() - 1,
        result matches Err(error) ==> error == StoreError::Corrupt,
{
    if nanos > 0 {
        Timestamp::new(seconds, nanos - 1)
    } else if seconds > i64::MIN {
        Timestamp::new(seconds - 1, 999_999_999)
    } else {
        Err(StoreError::Corrupt)
    }
}

/// Whether the calendar covers the given second.
pub open spec fn on_calendar(seconds: int) -> bool {
    FIRST_CALENDAR_SECOND <= seconds <= LAST_CALENDAR_SECOND
}

/// The nanosecond count that lies `millis` after an instant.
pub open spec fn shifted(seconds: i64, nanos: u32, millis: i64) -> int {
    seconds * 1_000_000_000 + nanos + millis * 1_000_000
}

/// The calendar instant `millis` after another: an error off the calendar, nothing where the
/// sum leaves it, and otherwise its seconds and nanoseconds.
pub open spec fn calendar_sum(seconds: i64, nanos: u32, millis: i64) -> Result<
    Option<(i64, u32)>,
    (),
> {
    let sum = shifted(seconds, nanos, millis);
    if !on_calendar(seconds as int) {
        Err(())
    } else if !on_calendar(sum / 1_000_000_000) {
        Ok(None)
    } else {
        Ok(Some(((sum / 1_000_000_000) as i64, (sum % 1_000_000_000) as u32)))
    }
}

/// `time::OffsetDateTime::from_unix_timestamp`, `replace_nanosecond` and `checked_add` with a
/// `time::Duration` of milliseconds. The first fails off the calendar; the last gives nothing
/// when the sum leaves it. Otherwise the sum is exact.
#[verifier::external_body]
pub(crate) fn datetime_plus_millis(seconds: i64, nanos: u32, millis: i64) -> (result: Result<
    Option<(i64, u32)>,
    (),
>)
    requires
        nanos < NANOS_PER_SECOND,
    ensures
        result == calendar_sum(seconds, nanos, millis),
{
    let start = time::OffsetDateTime::from_unix_timestamp(seconds)
        .and_then(|instant| instant.replace_nanosecond(nanos));
    match start {
        Ok(start) => Ok(
            start.checked_add(time::Duration::milliseconds(millis))
                .map(|end| (end.unix_timestamp(), end.nanosecond())),
        ),
        Err(_) => Err(()),
    }
}

/// When a lease taken at `now` for `millis` milliseconds ends.
///
/// The duration must fit the signed range, `now` must lie on the calendar, and so must the end.
pub open spec fn lease_end(now: Timestamp, millis: u64) -> Result<Timestamp, StoreError> {
    if millis > i64::MAX {
        Err(StoreError::LeaseTooLong)
    } else if !on_calendar(now.seconds as int) {
        Err(StoreError::Corrupt)
    } else if !on_calendar(shifted(now.seconds, now.nanos, millis as i64) / 1_000_000_000) {
        Err(StoreError::Invalid)
    } else {
        Ok(
            Timestamp {
                seconds: (shifted(now.seconds, now.nanos, millis as i64) / 1_000_000_000) as i64,
                nanos: (shifted(now.seconds, now.nanos, millis as i64) % 1_000_000_000) as u32,
            },
        )
    }
}

/// The end of an effect lease.
pub fn effect_expiry(now: Timestamp, millis: u64) -> (result: Result<Timestamp, StoreError>)
    requires
        now.wf(),
    ensures
        result == lease_end(now, millis),
{
    if millis > i64::MAX as u64 {
        return Err(StoreError::LeaseTooLong);
    }
    match datetime_plus_millis(now.seconds, now.nanos, millis as i64) {
        Err(_) => Err(StoreError::Corrupt),
        Ok(None) => Err(StoreError::Invalid),
        Ok(Some((seconds, nanos))) => Ok(Timestamp { seconds, nanos }),
    }
}

/// When an ownership or delivery lease ends under a configured longest lease.
pub open spec fn bounded_lease_end(
    now: Timestamp,
    millis: u64,
    max_lease_millis: u64,
) -> Result<Timestamp, StoreError> {
    if millis > max_lease_millis {
        Err(StoreError::LeaseTooLong)
    } else {
        lease_end(now, millis)
    }
}

/// The end of an ownership or delivery lease: one longer than the configured limit is refused.
pub fn expiry(now: Timestamp, millis: u64, max_lease_millis: u64) -> (result: Result<
    Timestamp,
    StoreError,
>)
    requires
        now.wf(),
    ensures
        result == bounded_lease_end(now, millis, max_lease_millis),
{
    if millis > max_lease_millis {
        Err(StoreError::LeaseTooLong)
    } else {
        effect_expiry(now, millis)
    }
}

/// A lease ends exactly its duration after it starts, and within the configured limit.
pub proof fn lease_lasts_its_duration(now: Timestamp, millis: u64, max_lease_millis: u64)
    requires
        now.wf(),
        bounded_lease_end(now, millis, max_lease_millis) is Ok,
    ensures
        ({
            let end = bounded_lease_end(now, millis, max_lease_millis)->Ok_0;
            &&& end.wf()
            &&& end.instant() == now.instant() + millis * 1_000_000
            &&& end.instant() - now.instant() <= max_lease_millis * 1_000_000
        }),
{
}

/// Whole milliseconds between two instants, rounded toward zero.
pub open spec fn elapsed_millis(start: Timestamp, end: Timestamp) -> int {
    let nanos = end.instant() - start.instant();
    if nanos >= 0 {
        nanos / 1_000_000
    } else {
        -((-nanos) / 1_000_000)
    }
}

/// Whether exactly `millis` whole milliseconds lie between two instants.
pub fn elapsed_is(start: Timestamp, end: Timestamp, millis: u64) -> (result: bool)
    requires
        start.wf(),
        end.wf(),
    ensures
        result == (elapsed_millis(start, end) == millis),
{
    let nanos: i128 = (end.seconds as i128 - start.seconds as i128) * 1_000_000_000 + (
    end.nanos as i128 - start.nanos as i128);
    if nanos >= 0 {
        nanos / 1_000_000 == millis as i128
    } else {
        -nanos < 1_000_000 && millis == 0
    }
}

} // verus!
