//! Points in time.
//!
//! The node reads two things of a point in time: that it lies on the calendar
//! that `time::OffsetDateTime` covers, and how many whole seconds lie between
//! two of them.

use vstd::prelude::*;

use crate::readings::is_clock_reading;

verus! {

/// Nanoseconds in a second.
pub const NANOS_PER_SECOND: i128 = 1_000_000_000;

/// First nanosecond of the year -9999, counted from the Unix epoch.
pub const MIN_UNIX_NANOS: i128 = -377_705_116_800_000_000_000;

/// Last nanosecond of the year 9999, counted from the Unix epoch.
pub const MAX_UNIX_NANOS: i128 = 253_402_300_799_999_999_999;

/// A point in time, in UTC, between the years -9999 and 9999.
#[derive(Debug, Clone, Copy, PartialEq, Eq)]
pub struct Timestamp {
    unix_nanos: i128,
}

/// `nanos` lies on the calendar.
pub open spec fn on_calendar(nanos: int) -> bool {
    MIN_UNIX_NANOS <= nanos <= MAX_UNIX_NANOS
}

/// Whole seconds in a span of nanoseconds; the fraction is dropped.
pub open spec fn whole_seconds(span: int) -> int {
    if span >= 0 {
        span / 1_000_000_000
    } else {
        -((-span) / 1_000_000_000)
    }
}

/// Seconds that a guest was held between two points in time: whole seconds,
/// and none if the end does not lie after the start.
pub open spec fn held_seconds(start: Timestamp, end: Timestamp) -> int {
    let seconds = whole_seconds(end.nanos() - start.nanos());
    if seconds > 0 {
        seconds
    } else {
        0
    }
}

/// `OffsetDateTime - OffsetDateTime` and `whole_seconds` of the difference:
/// the seconds between two points in time, rounded towards zero.
#[verifier::external_body]
fn seconds_between(start: i128, end: i128) -> (r: i64)
    requires
        on_calendar(start as int),
        on_calendar(end as int),
    ensures
        r as int == whole_seconds(end - start),
{
    let start = time::OffsetDateTime::from_unix_timestamp_nanos(start).expect("on the calendar");
    let end = time::OffsetDateTime::from_unix_timestamp_nanos(end).expect("on the calendar");
    (end - start).whole_seconds()
}

/// `OffsetDateTime::now_utc`: a reading of the clock, which is some point on
/// the calendar.
#[verifier::external_body]
fn current_unix_nanos() -> (r: i128)
    ensures
        on_calendar(r as int),
        is_clock_reading(r as int),
{
    time::OffsetDateTime::now_utc().unix_timestamp_nanos()
}

/// How RFC 3339 writes the point in time `nanos` nanoseconds after the Unix
/// epoch, in UTC; or why it does not.
pub uninterp spec fn rfc3339(nanos: int) -> Result<Seq<char>, Seq<char>>;

/// `OffsetDateTime::format` with `Rfc3339`: the same point in time is always
/// written the same way, or refused with the same text. What is written is not
/// stated.
#[verifier::external_body]
fn format_rfc3339(nanos: i128) -> (r: Result<String, String>)
    requires
        on_calendar(nanos as int),
    ensures
        match r {
            Ok(text) => rfc3339(nanos as int) == Ok::<Seq<char>, Seq<char>>(text@),
            Err(reason) => rfc3339(nanos as int) == Err::<Seq<char>, Seq<char>>(reason@),
        },
{
    let date = time::OffsetDateTime::from_unix_timestamp_nanos(nanos).expect("on the calendar");
    date.format(&time::format_description::well_known::Rfc3339).map_err(|e| e.to_string())
}

impl Timestamp {
    #[verifier::type_invariant]
    closed spec fn well_formed(self) -> bool {
        on_calendar(self.unix_nanos as int)
    }

    /// Nanoseconds since the Unix epoch.
    pub closed spec fn nanos(self) -> int {
        self.unix_nanos as int
    }

    /// The point in time `nanos` nanoseconds after the Unix epoch, if it lies
    /// on the calendar.
    pub fn from_unix_nanos(nanos: i128) -> (r: Option<Timestamp>)
        ensures
            r is Some <==> on_calendar(nanos as int),
            r matches Some(t) ==> t.nanos() == nanos,
    {
        if MIN_UNIX_NANOS <= nanos && nanos <= MAX_UNIX_NANOS {
            Some(Timestamp { unix_nanos: nanos })
        } else {
            None
        }
    }

    /// The point in time `seconds` seconds after the Unix epoch, if it lies
    /// on the calendar.
    pub fn from_unix_timestamp(seconds: i64) -> (r: Option<Timestamp>)
        ensures
            r is Some <==> on_calendar(seconds * 1_000_000_000),
            r matches Some(t) ==> t.nanos() == seconds * 1_000_000_000,
    {
        Timestamp::from_unix_nanos(seconds as i128 * NANOS_PER_SECOND)
    }

    /// Nanoseconds since the Unix epoch.
    pub fn unix_nanos(&self) -> (r: i128)
        ensures
            r == self.nanos(),
            on_calendar(r as int),
    {
        proof {
            use_type_invariant(self);
        }
        self.unix_nanos
    }

    /// The current time: a reading of the clock. Which one is not said, but
    /// that it lies on the calendar, which every [`Timestamp`] does.
    pub fn now_utc() -> (r: Timestamp)
        ensures
            on_calendar(r.nanos()),
            is_clock_reading(r.nanos()),
    {
        Timestamp { unix_nanos: current_unix_nanos() }
    }

    /// This point in time as RFC 3339 writes it, or why it does not.
    pub fn print_rfc3339(&self) -> (r: Result<String, String>)
        ensures
            match r {
                Ok(text) => rfc3339(self.nanos()) == Ok::<Seq<char>, Seq<char>>(text@),
                Err(reason) => rfc3339(self.nanos()) == Err::<Seq<char>, Seq<char>>(reason@),
            },
    {
        proof {
            use_type_invariant(self);
        }
        format_rfc3339(self.unix_nanos)
    }

    /// Whole seconds from this point in time to `end`; none if `end` does not
    /// lie after it.
    pub fn seconds_until(&self, end: &Timestamp) -> (r: u64)
        ensures
            r == held_seconds(*self, *end),
    {
        proof {
            use_type_invariant(self);
            use_type_invariant(end);
        }
        let seconds = seconds_between(self.unix_nanos, end.unix_nanos);
        if seconds > 0 {
            seconds as u64
        } else {
            0
        }
    }
}

} // verus!
