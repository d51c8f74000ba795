//! Instants and spans as plain integers: the reading of the system clock,
//! and the calls into `chrono` that read and write an instant as text.

use vstd::prelude::*;

verus! {

/// An instant: whole seconds since the Unix epoch and the nanoseconds past
/// that second. An instant before the epoch has negative seconds.
#[derive(Clone, Copy, Debug, PartialEq, Eq, Structural)]
pub struct Timestamp {
    pub seconds: i64,
    pub nanos: u32,
}

/// A non-negative span of time: whole seconds and the nanoseconds beyond them.
#[derive(Clone, Copy, Debug, PartialEq, Eq, Structural)]
pub struct Span {
    pub seconds: u64,
    pub nanos: u32,
}

impl Timestamp {
    /// Nanoseconds since the epoch.
    pub open spec fn total_nanos(self) -> int {
        self.seconds * 1_000_000_000 + self.nanos
    }

    /// The instant `seconds` whole seconds after `self`, if it can be held.
    pub open spec fn plus_seconds(self, seconds: int) -> Option<Timestamp> {
        if i64::MIN <= self.seconds + seconds <= i64::MAX {
            Some(Timestamp { seconds: (self.seconds + seconds) as i64, nanos: self.nanos })
        } else {
            None
        }
    }

    /// The instant `seconds` whole seconds after `self`; `None` where the
    /// count of seconds leaves the range of `i64`.
    pub fn add_seconds(self, seconds: i64) -> (r: Option<Timestamp>)
        ensures
            r == self.plus_seconds(seconds as int),
    {
        match self.seconds.checked_add(seconds) {
            Some(s) => Some(Timestamp { seconds: s, nanos: self.nanos }),
            None => None,
        }
    }

    /// Whether `self` lies more than `age` before `now`.
    pub open spec fn older_than(self, now: Timestamp, age: Span) -> bool {
        self.total_nanos() < now.total_nanos() - age.total_nanos()
    }

    /// Whether `self` lies more than `age` before `now`.
    pub fn is_older_than(self, now: Timestamp, age: Span) -> (b: bool)
        ensures
            b == self.older_than(now, age),
    {
        let this: i128 = (self.seconds as i128) * 1_000_000_000 + (self.nanos as i128);
        let then: i128 = (now.seconds as i128) * 1_000_000_000 + (now.nanos as i128);
        let span: i128 = (age.seconds as i128) * 1_000_000_000 + (age.nanos as i128);
        this < then - span
    }
}

impl Timestamp {
    /// A count of seconds as far as an instant can hold it.
    pub open spec fn held(seconds: u64) -> int {
        if seconds <= i64::MAX {
            seconds as int
        } else {
            i64::MAX as int
        }
    }

    /// The instant that a reading of the clock stands for. `Ok` holds the
    /// time since the epoch: its seconds and nanoseconds are the
    /// instant's. `Err` holds the time until the epoch: the instant lies
    /// that long before it, so its seconds are negative, and where the
    /// span has a part of a second the instant's nanoseconds make up the
    /// second. (A part that is no part of a second counts as none.)
    /// Seconds beyond what an instant can hold count as the most it holds.
    pub open spec fn of_reading(reading: Result<Span, Span>) -> Timestamp {
        match reading {
            Ok(span) => Timestamp { seconds: Timestamp::held(span.seconds) as i64, nanos: span.nanos },
            Err(span) => if 0 < span.nanos < 1_000_000_000 {
                Timestamp {
                    seconds: (-Timestamp::held(span.seconds) - 1) as i64,
                    nanos: (1_000_000_000 - span.nanos) as u32,
                }
            } else {
                Timestamp { seconds: (-Timestamp::held(span.seconds)) as i64, nanos: 0 }
            },
        }
    }

    /// The instant that a reading of the clock stands for.
    pub fn from_clock(reading: Result<Span, Span>) -> (t: Timestamp)
        ensures
            t == Timestamp::of_reading(reading),
    {
        match reading {
            Ok(span) => {
                let seconds: i64 = if span.seconds <= 0x7fff_ffff_ffff_ffff {
                    span.seconds as i64
                } else {
                    0x7fff_ffff_ffff_ffff
                };
                Timestamp { seconds, nanos: span.nanos }
            },
            Err(span) => {
                let seconds: i64 = if span.seconds <= 0x7fff_ffff_ffff_ffff {
                    span.seconds as i64
                } else {
                    0x7fff_ffff_ffff_ffff
                };
                if 0 < span.nanos && span.nanos < 1_000_000_000 {
                    Timestamp { seconds: -seconds - 1, nanos: 1_000_000_000 - span.nanos }
                } else {
                    Timestamp { seconds: -seconds, nanos: 0 }
                }
            },
        }
    }
}

impl Span {
    /// The span in nanoseconds.
    pub open spec fn total_nanos(self) -> int {
        self.seconds * 1_000_000_000 + self.nanos
    }
}

/// Reads the system clock with `std::time::SystemTime::now` and measures
/// it against the Unix epoch with `duration_since`: `Ok` with the time that
/// has passed since the epoch, or `Err` with the time still to pass until
/// it where the clock stands before it. Nothing is promised of the
/// reading: the clock decides.
#[verifier::external_body]
pub(crate) fn read_clock() -> (r: Result<Span, Span>) {
    match std::time::SystemTime::now().duration_since(std::time::UNIX_EPOCH) {
        Ok(d) => Ok(Span { seconds: d.as_secs(), nanos: d.subsec_nanos() }),
        Err(e) => Err(Span { seconds: e.duration().as_secs(), nanos: e.duration().subsec_nanos() }),
    }
}

/// The present instant: what `Timestamp::from_clock` makes of the system
/// clock's reading, whatever that is.
pub(crate) fn current_time() -> (t: Timestamp) {
    Timestamp::from_clock(read_clock())
}

/// The instant that `chrono::DateTime::parse_from_rfc3339` reads from a text,
/// as seconds and nanoseconds; `None` where it rejects the text.
pub uninterp spec fn rfc3339_instant(text: Seq<char>) -> Option<(i64, u32)>;

/// The instant that an RFC 3339 text names.
pub open spec fn rfc3339_timestamp(text: Seq<char>) -> Option<Timestamp> {
    match rfc3339_instant(text) {
        Some((seconds, nanos)) => Some(Timestamp { seconds, nanos }),
        None => None,
    }
}

/// Calls `chrono::DateTime::parse_from_rfc3339` and hands back the instant it
/// read, or `None` where it returned an error. The contract only names that
/// result.
#[verifier::external_body]
pub(crate) fn parse_rfc3339(text: &str) -> (r: Option<Timestamp>)
    ensures
        r == (match rfc3339_instant(text@) {
            Some((seconds, nanos)) => Some((Timestamp { seconds, nanos })),
            None => None,
        }),
{
    match chrono::DateTime::parse_from_rfc3339(text) {
        Ok(t) => Some(Timestamp { seconds: t.timestamp(), nanos: t.timestamp_subsec_nanos() }),
        Err(_) => None,
    }
}


/// Whether `chrono::DateTime::from_timestamp` makes a UTC date-time of
/// seconds and nanoseconds.
pub uninterp spec fn timestamp_valid(seconds: i64, nanos: u32) -> bool;

/// The text that `chrono::DateTime::to_rfc3339` writes for the UTC
/// date-time that `from_timestamp` makes of seconds and nanoseconds.
pub uninterp spec fn rfc3339_text(seconds: i64, nanos: u32) -> Seq<char>;

/// How an instant is written: as `rfc3339_text` gives it, or not at all
/// where it is no date-time.
pub open spec fn written_instant(t: Timestamp) -> Option<Seq<char>> {
    if timestamp_valid(t.seconds, t.nanos) {
        Some(rfc3339_text(t.seconds, t.nanos))
    } else {
        None
    }
}

/// Makes a UTC date-time with `chrono::DateTime::from_timestamp` and writes
/// it with `to_rfc3339`. `None` where `from_timestamp` returns `None`. The
/// contract only names the two results.
#[verifier::external_body]
pub(crate) fn to_rfc3339(t: Timestamp) -> (r: Option<String>)
    ensures
        crate::pattern::text_of(r) == if timestamp_valid(t.seconds, t.nanos) {
            Some(rfc3339_text(t.seconds, t.nanos))
        } else {
            None
        },
{
    chrono::DateTime::from_timestamp(t.seconds, t.nanos).map(|d| d.to_rfc3339())
}

} // verus!
