//! Monotonic time values with millisecond resolution.
//!
//! The library never reads a clock: callers hand in the current [`Instant`]
//! and every schedule is computed from it.  An instant is a counter of
//! milliseconds; a span is whole seconds plus milliseconds, so that any
//! number of seconds can be a span.  Their arithmetic is exact and checked.
use vstd::prelude::*;

verus! {

/// A span of time with millisecond resolution: whole seconds and the
/// milliseconds past them.
#[derive(Debug, Clone, Copy, PartialEq, Eq, Structural)]
pub struct Duration {
    pub secs: u64,
    pub subsec_millis: u32,
}

impl Duration {
    /// The span in milliseconds.
    pub open spec fn total_millis(self) -> nat {
        (self.secs * 1000 + self.subsec_millis) as nat
    }

    /// Whether the millisecond part is below one second, as every
    /// constructor leaves it.
    pub open spec fn normalized(self) -> bool {
        self.subsec_millis < 1000
    }

    /// The span of `secs` whole seconds.
    pub fn from_secs(secs: u64) -> (d: Duration)
        ensures
            d.total_millis() == secs * 1000,
            d.secs == secs,
            d.normalized(),
    {
        Duration { secs, subsec_millis: 0 }
    }

    /// The span of `millis` milliseconds.
    pub fn from_millis(millis: u64) -> (d: Duration)
        ensures
            d.total_millis() == millis,
            d.normalized(),
    {
        Duration { secs: millis / 1000, subsec_millis: (millis % 1000) as u32 }
    }

    /// Whole seconds in this span (rounded down).
    pub fn as_secs(&self) -> (r: u64)
        ensures
            r == self.secs,
            self.normalized() ==> r == self.total_millis() / 1000,
    {
        self.secs
    }

    /// The shorter of two spans.
    pub fn min(self, other: Duration) -> (r: Duration)
        requires
            self.normalized(),
            other.normalized(),
        ensures
            r == if self.total_millis() <= other.total_millis() { self } else { other },
    {
        if self.secs < other.secs || (self.secs == other.secs && self.subsec_millis <= other.subsec_millis) {
            self
        } else {
            other
        }
    }

    /// The span in milliseconds, or `None` when it exceeds `u64`.
    pub fn checked_millis(&self) -> (r: Option<u64>)
        ensures
            match r {
                Some(m) => m == self.total_millis(),
                None => self.total_millis() > u64::MAX,
            },
    {
        match self.secs.checked_mul(1000) {
            Some(m) => m.checked_add(self.subsec_millis as u64),
            None => None,
        }
    }
}

/// A point on a monotonic clock: milliseconds since an arbitrary origin
/// that the caller fixes.
#[derive(Debug, Clone, Copy, PartialEq, Eq, Structural)]
pub struct Instant {
    pub millis: u64,
}

impl Instant {
    /// The point `millis` milliseconds after the origin.
    pub fn from_millis(millis: u64) -> (t: Instant)
        ensures
            t.millis == millis,
    {
        Instant { millis }
    }

    /// The point `d` after `self`.  The sum must stay representable.
    pub fn after(self, d: Duration) -> (t: Instant)
        requires
            self.millis + d.total_millis() <= u64::MAX,
        ensures
            t.millis == self.millis + d.total_millis(),
    {
        let span = d.checked_millis();
        match span {
            Some(m) => Instant { millis: self.millis + m },
            None => self,
        }
    }

    /// The point `d` after `self`, or `None` when it cannot be represented.
    pub fn checked_add(self, d: Duration) -> (t: Option<Instant>)
        ensures
            match t {
                Some(t) => t.millis == self.millis + d.total_millis(),
                None => self.millis + d.total_millis() > u64::MAX,
            },
    {
        match d.checked_millis() {
            Some(m) => match self.millis.checked_add(m) {
                Some(total) => Some(Instant { millis: total }),
                None => None,
            },
            None => None,
        }
    }

    /// The point `d` before `self`, or `None` when it lies before the origin.
    pub fn checked_sub(self, d: Duration) -> (t: Option<Instant>)
        ensures
            match t {
                Some(t) => t.millis == self.millis - d.total_millis(),
                None => self.millis < d.total_millis(),
            },
    {
        match d.checked_millis() {
            Some(m) => if m <= self.millis {
                Some(Instant { millis: self.millis - m })
            } else {
                None
            },
            None => None,
        }
    }

    /// Whether `self` comes strictly before `other`.
    pub fn is_before(&self, other: &Instant) -> (r: bool)
        ensures
            r == (self.millis < other.millis),
    {
        self.millis < other.millis
    }
}

/// A UTC point in time: whole seconds since the Unix epoch and the
/// nanoseconds past that second.
#[derive(Debug, Clone, Copy, PartialEq, Eq, Structural)]
pub struct UtcInstant {
    pub secs: i64,
    pub nanos: u32,
}

/// The UTC instant that `chrono` reads from `text` in SQLite's
/// `CURRENT_TIMESTAMP` form `%Y-%m-%d %H:%M:%S`, as (seconds, nanoseconds);
/// `None` when `text` is not in that form.
pub uninterp spec fn sqlite_utc_of(text: Seq<char>) -> Option<(i64, u32)>;

/// The UTC instant that `chrono` reads from the RFC 3339 timestamp `text`,
/// as (seconds, nanoseconds); `None` when `text` is not RFC 3339.
pub uninterp spec fn rfc3339_utc_of(text: Seq<char>) -> Option<(i64, u32)>;

/// Calls `chrono::NaiveDateTime::parse_from_str(text, "%Y-%m-%d %H:%M:%S")`
/// and reads the result as a UTC instant.  Trusted: the result depends on
/// the text alone.
#[verifier::external_body]
pub(crate) fn parse_sqlite_utc(text: &str) -> (r: Option<UtcInstant>)
    ensures
        match r {
            Some(t) => sqlite_utc_of(text@) == Some((t.secs, t.nanos)),
            None => sqlite_utc_of(text@) is None,
        },
{
    match chrono::NaiveDateTime::parse_from_str(text, "%Y-%m-%d %H:%M:%S") {
        Ok(naive) => {
            let t = naive.and_utc();
            Some(UtcInstant { secs: t.timestamp(), nanos: t.timestamp_subsec_nanos() })
        },
        Err(_) => None,
    }
}

/// Calls `chrono::DateTime::parse_from_rfc3339(text)` and reads the result
/// as a UTC instant.  Trusted: the result depends on the text alone.
#[verifier::external_body]
pub(crate) fn parse_rfc3339_utc(text: &str) -> (r: Option<UtcInstant>)
    ensures
        match r {
            Some(t) => rfc3339_utc_of(text@) == Some((t.secs, t.nanos)),
            None => rfc3339_utc_of(text@) is None,
        },
{
    match chrono::DateTime::parse_from_rfc3339(text) {
        Ok(dt) => Some(UtcInstant { secs: dt.timestamp(), nanos: dt.timestamp_subsec_nanos() }),
        Err(_) => None,
    }
}

} // verus!
