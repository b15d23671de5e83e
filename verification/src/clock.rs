//! Instants and spans of time as plain numbers, and the system clock that
//! the session layer reads.
//!
//! An instant may spell out a leap second, with nanoseconds of one second or
//! more; the library counts it as the second after. A clock that cannot be
//! read as an instant is an error, never a panic.

use vstd::prelude::*;
use crate::error::OcppError;

verus! {

/// An instant in UTC: whole seconds since the Unix epoch and the nanoseconds
/// into that second.
#[derive(Clone, Copy, Debug, PartialEq, Eq, Structural)]
pub struct Timestamp {
    pub secs: i64,
    pub nanos: u32,
}

/// A span of time that is not negative: whole seconds and the nanoseconds
/// beyond them.
#[derive(Clone, Copy, Debug, PartialEq, Eq, Structural)]
pub struct Span {
    pub secs: u64,
    pub nanos: u32,
}

/// Largest distance from the epoch, in seconds, of an instant that the
/// library computes with: a little over 253,000 years.
pub const TIMESTAMP_SECS_BOUND: i64 = 8_000_000_000_000;

/// Nanoseconds in a second.
pub const NANOS_PER_SEC: u32 = 1_000_000_000;

impl Timestamp {
    /// Nanoseconds from the epoch to this instant.
    pub open spec fn nanos_since_epoch(self) -> int {
        self.secs * 1_000_000_000 + self.nanos
    }

    /// Whether the instant is written in its plain form and within reach: it
    /// lies within `TIMESTAMP_SECS_BOUND` of the epoch and its nanoseconds
    /// stay below one second (no leap second is spelled out).
    pub open spec fn representable(self) -> bool {
        &&& -TIMESTAMP_SECS_BOUND <= self.secs <= TIMESTAMP_SECS_BOUND
        &&& self.nanos < NANOS_PER_SEC
    }

    /// The seconds of the instant in its plain form: where a leap second is
    /// spelled out (nanoseconds of one second or more), that second is
    /// carried over to the seconds.
    pub open spec fn plain_secs(self) -> int {
        if self.nanos >= NANOS_PER_SEC {
            self.secs + 1
        } else {
            self.secs as int
        }
    }

    /// Whether the library computes with this instant: its nanoseconds stay
    /// below two seconds and its plain form lies within
    /// `TIMESTAMP_SECS_BOUND` of the epoch.
    pub open spec fn valid(self) -> bool {
        &&& self.nanos < 2 * NANOS_PER_SEC
        &&& -TIMESTAMP_SECS_BOUND <= self.plain_secs() <= TIMESTAMP_SECS_BOUND
    }

    /// The plain form of an instant that the library computes with.
    pub open spec fn normalized(self) -> Timestamp
        recommends
            self.valid(),
    {
        if self.nanos >= NANOS_PER_SEC {
            Timestamp { secs: (self.secs + 1) as i64, nanos: (self.nanos - NANOS_PER_SEC) as u32 }
        } else {
            self
        }
    }

    /// Tells whether the instant is in its plain form and within reach.
    pub fn is_representable(&self) -> (ok: bool)
        ensures
            ok == self.representable(),
    {
        -TIMESTAMP_SECS_BOUND <= self.secs && self.secs <= TIMESTAMP_SECS_BOUND && self.nanos
            < NANOS_PER_SEC
    }

    /// The plain form of an instant that the library computes with, and
    /// nothing for any other instant.
    pub fn normalize(&self) -> (plain: Option<Timestamp>)
        ensures
            self.valid() ==> plain == Some(self.normalized()),
            !self.valid() ==> plain is None,
            plain matches Some(t) ==> t.representable() && t.nanos_since_epoch()
                == self.nanos_since_epoch(),
    {
        if self.nanos < NANOS_PER_SEC {
            if -TIMESTAMP_SECS_BOUND <= self.secs && self.secs <= TIMESTAMP_SECS_BOUND {
                Some(*self)
            } else {
                None
            }
        } else if self.nanos - NANOS_PER_SEC < NANOS_PER_SEC && -TIMESTAMP_SECS_BOUND - 1
            <= self.secs && self.secs < TIMESTAMP_SECS_BOUND {
            Some(Timestamp { secs: self.secs + 1, nanos: self.nanos - NANOS_PER_SEC })
        } else {
            None
        }
    }

    /// The epoch itself. It stands in where an answer holds no time.
    pub fn epoch() -> (at: Timestamp)
        ensures
            at == (Timestamp { secs: 0, nanos: 0 }),
    {
        Timestamp { secs: 0, nanos: 0 }
    }
}

impl Span {
    /// The span of no time at all.
    pub open spec fn spec_zero() -> Span {
        Span { secs: 0, nanos: 0 }
    }

    /// Length of the span in nanoseconds.
    pub open spec fn total_nanos(self) -> int {
        self.secs * 1_000_000_000 + self.nanos
    }

    /// Whether the nanoseconds stay below one second.
    pub open spec fn well_formed(self) -> bool {
        self.nanos < NANOS_PER_SEC
    }

    /// Returns the span of no time at all.
    pub fn zero() -> (span: Span)
        ensures
            span == Span::spec_zero(),
    {
        Span { secs: 0, nanos: 0 }
    }
}

/// The time from `now` until `date`, where `date` is not before `now`.
pub open spec fn elapsed_between(date: Timestamp, now: Timestamp) -> Option<Span> {
    let gap = date.nanos_since_epoch() - now.nanos_since_epoch();
    if gap >= 0 {
        Some(Span { secs: (gap / 1_000_000_000) as u64, nanos: (gap % 1_000_000_000) as u32 })
    } else {
        None
    }
}

/// What `duration_until` answers: the time from `now` until `date` where the
/// library computes with both instants and `date` is not before `now`.
pub open spec fn spec_duration_until(date: Timestamp, now: Timestamp) -> Result<Span, OcppError> {
    if date.valid() && now.valid() {
        match elapsed_between(date, now) {
            Some(span) => Ok(span),
            None => Err(OcppError::DurationOutOfRange),
        }
    } else {
        Err(OcppError::DurationOutOfRange)
    }
}

/// Subtracts two instants with `chrono::DateTime::signed_duration_since` and
/// converts the difference with `chrono::TimeDelta::to_std`. Trusted: for
/// instants without a spelled-out leap second `chrono` subtracts seconds and
/// nanoseconds exactly, and `to_std` refuses a negative difference and nothing
/// else. Both instants are within the range of `chrono::DateTime::from_timestamp`.
#[verifier::external_body]
fn chrono_elapsed(date: Timestamp, now: Timestamp) -> (elapsed: Option<Span>)
    requires
        date.representable(),
        now.representable(),
    ensures
        elapsed == elapsed_between(date, now),
{
    let date = chrono::DateTime::from_timestamp(date.secs, date.nanos)?;
    let now = chrono::DateTime::from_timestamp(now.secs, now.nanos)?;
    match date.signed_duration_since(now).to_std() {
        Ok(span) => Some(Span { secs: span.as_secs(), nanos: span.subsec_nanos() }),
        Err(_) => None,
    }
}

/// A reading of the system clock, as `std::time::SystemTime` holds it.
#[verifier::external_type_specification]
#[verifier::external_body]
pub struct ExSystemTime(std::time::SystemTime);

/// Reads the system clock with `std::time::SystemTime::now`. Trusted: the
/// call returns; nothing is claimed of the reading.
#[verifier::external_body]
fn system_now() -> std::time::SystemTime {
    std::time::SystemTime::now()
}

/// Measures a reading of the system clock from the Unix epoch with
/// `std::time::SystemTime::duration_since`. Trusted: `None` stands for a
/// reading before the epoch; the nanoseconds of a `Duration` stay below one
/// second.
#[verifier::external_body]
fn span_since_epoch(reading: &std::time::SystemTime) -> (elapsed: Option<Span>)
    ensures
        elapsed matches Some(span) ==> span.well_formed(),
{
    match reading.duration_since(std::time::SystemTime::UNIX_EPOCH) {
        Ok(span) => Some(Span { secs: span.as_secs(), nanos: span.subsec_nanos() }),
        Err(_) => None,
    }
}

/// Whether `e` is one of the two errors of the system clock.
pub open spec fn clock_error(e: OcppError) -> bool {
    e == OcppError::ClockBeforeEpoch || e == OcppError::ClockOutOfRange
}

/// Whether `r` is a failure with one of the two errors of the system clock.
pub open spec fn clock_failed<T>(r: Result<T, OcppError>) -> bool {
    r matches Err(e) && clock_error(e)
}

/// The instant that a reading of the system clock stands for, where `None`
/// is a clock set before the epoch: `ClockBeforeEpoch` for such a clock,
/// `ClockOutOfRange` for one set beyond `TIMESTAMP_SECS_BOUND`.
pub open spec fn spec_utc_of(reading: Option<Span>) -> Result<Timestamp, OcppError> {
    match reading {
        None => Err(OcppError::ClockBeforeEpoch),
        Some(span) => if span.secs <= TIMESTAMP_SECS_BOUND && span.nanos < NANOS_PER_SEC {
            Ok(Timestamp { secs: span.secs as i64, nanos: span.nanos })
        } else {
            Err(OcppError::ClockOutOfRange)
        },
    }
}

/// The instant that the reading `reading` of the system clock stands for.
///
/// Fails with `ClockBeforeEpoch` for a clock set before the epoch (`None`),
/// and with `ClockOutOfRange` for one set beyond `TIMESTAMP_SECS_BOUND`.
pub fn utc_of(reading: Option<Span>) -> (r: Result<Timestamp, OcppError>)
    ensures
        r == spec_utc_of(reading),
{
    match reading {
        None => Err(OcppError::ClockBeforeEpoch),
        Some(span) => {
            if span.secs <= TIMESTAMP_SECS_BOUND as u64 && span.nanos < NANOS_PER_SEC {
                Ok(Timestamp { secs: span.secs as i64, nanos: span.nanos })
            } else {
                Err(OcppError::ClockOutOfRange)
            }
        },
    }
}

/// The current time, read from the system clock.
///
/// The clock decides: the result is that of `utc_of` for what the clock
/// gave. An instant that is returned is representable and not before the
/// epoch; the only errors are the two of the clock.
pub fn get_utc() -> (r: Result<Timestamp, OcppError>)
    ensures
        r matches Ok(now) ==> now.representable() && now.secs >= 0,
        r matches Err(e) ==> clock_error(e),
{
    let reading = system_now();
    utc_of(span_since_epoch(&reading))
}

/// The time from `now` until `date`.
///
/// Fails with `DurationOutOfRange` where `date` lies before `now`, or where
/// the library does not compute with one of the two instants. A leap second
/// that is spelled out counts as the second after.
pub fn duration_until(date: Timestamp, now: Timestamp) -> (r: Result<Span, OcppError>)
    ensures
        r == spec_duration_until(date, now),
{
    let date = match date.normalize() {
        Some(plain) => plain,
        None => {
            return Err(OcppError::DurationOutOfRange);
        },
    };
    let now = match now.normalize() {
        Some(plain) => plain,
        None => {
            return Err(OcppError::DurationOutOfRange);
        },
    };
    match chrono_elapsed(date, now) {
        Some(span) => Ok(span),
        None => Err(OcppError::DurationOutOfRange),
    }
}

/// The time from the current instant until `date`.
///
/// Fails with `DurationOutOfRange`, without a look at the clock, for a date
/// that the library does not compute with. For any other date the clock is
/// read: the result is that of `duration_until` for the instant it gave, or
/// the error of the clock.
pub fn now_to_duration(date: Timestamp) -> (r: Result<Span, OcppError>)
    ensures
        !date.valid() ==> r == Err::<Span, OcppError>(OcppError::DurationOutOfRange),
        date.valid() ==> (exists|now: Timestamp|
            now.representable() && r == #[trigger] spec_duration_until(date, now)) || (r matches Err(
            e,
        ) && clock_error(e)),
{
    if date.normalize().is_none() {
        return Err(OcppError::DurationOutOfRange);
    }
    match get_utc() {
        Ok(now) => {
            let r = duration_until(date, now);
            assert(now.representable() && r == spec_duration_until(date, now));
            r
        },
        Err(e) => Err(e),
    }
}

/// What a reading of the system clock means: the time since the epoch where
/// there is one, `ClockBeforeEpoch` where the clock is set before the epoch.
pub open spec fn spec_since_epoch(reading: Option<Span>) -> Result<Span, OcppError> {
    match reading {
        Some(span) => Ok(span),
        None => Err(OcppError::ClockBeforeEpoch),
    }
}

/// The time since the Unix epoch for the reading `reading` of the system
/// clock, where `None` stands for a clock that is set before the epoch.
///
/// Fails with `ClockBeforeEpoch` for such a clock.
pub fn since_epoch(reading: Option<Span>) -> (r: Result<Span, OcppError>)
    ensures
        r == spec_since_epoch(reading),
{
    match reading {
        Some(span) => Ok(span),
        None => Err(OcppError::ClockBeforeEpoch),
    }
}

/// The time since the Unix epoch, read from the system clock.
///
/// Fails with `ClockBeforeEpoch` where the clock is set before the epoch.
/// The clock decides which of the two it is: the result is that of
/// `since_epoch` for what the clock gave.
pub fn unix_time() -> (r: Result<Span, OcppError>)
    ensures
        r matches Ok(span) ==> span.well_formed(),
        r matches Err(e) ==> e == OcppError::ClockBeforeEpoch,
{
    let reading = system_now();
    since_epoch(span_since_epoch(&reading))
}

/// A date that is not before `now` is reached after exactly the time that
/// separates the two instants; an earlier date is refused.
pub proof fn lemma_duration_until_measures(date: Timestamp, now: Timestamp)
    requires
        date.valid(),
        now.valid(),
    ensures
        date.nanos_since_epoch() >= now.nanos_since_epoch() ==> (spec_duration_until(date, now)
            matches Ok(span) && span.well_formed() && now.nanos_since_epoch() + span.total_nanos()
            == date.nanos_since_epoch()),
        date.nanos_since_epoch() < now.nanos_since_epoch() ==> spec_duration_until(date, now)
            == Err::<Span, OcppError>(OcppError::DurationOutOfRange),
{
    let gap = date.nanos_since_epoch() - now.nanos_since_epoch();
    assert(date.nanos_since_epoch() < (date.plain_secs() + 1) * 1_000_000_000);
    assert(now.nanos_since_epoch() >= now.plain_secs() * 1_000_000_000);
    if gap >= 0 {
        assert(gap <= 16_000_000_001_000_000_000_000);
        assert(0 <= gap / 1_000_000_000 <= 16_000_000_001_000);
        assert(0 <= gap % 1_000_000_000 < 1_000_000_000);
        assert((gap / 1_000_000_000) * 1_000_000_000 + gap % 1_000_000_000 == gap);
    }
}

} // verus!
