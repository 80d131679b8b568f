//! Points in time and spans of time, counted in whole nanoseconds.

use vstd::prelude::*;

verus! {

/// Nanoseconds in one millisecond.
pub const NANOS_PER_MILLISECOND: u128 = 1_000_000;

/// Nanoseconds in one second.
pub const NANOS_PER_SECOND: u128 = 1_000_000_000;

/// Nanoseconds in one minute.
pub const NANOS_PER_MINUTE: u128 = 60_000_000_000;

/// Nanoseconds in one hour.
pub const NANOS_PER_HOUR: u128 = 3_600_000_000_000;

/// Nanoseconds in one day.
pub const NANOS_PER_DAY: u128 = 86_400_000_000_000;

/// Nanoseconds in one week.
pub const NANOS_PER_WEEK: u128 = 604_800_000_000_000;

/// A span of time that is never negative, in nanoseconds.
#[derive(Clone, Copy, Debug, PartialEq, Eq, Structural)]
pub struct Duration {
    /// The span in nanoseconds.
    pub nanos: u128,
}

impl View for Duration {
    type V = nat;

    /// The span as a number of nanoseconds.
    open spec fn view(&self) -> nat {
        self.nanos as nat
    }
}

impl Duration {
    /// The empty span.
    pub fn zero() -> (d: Duration)
        ensures
            d@ == 0,
    {
        Duration { nanos: 0 }
    }

    /// A span of `nanos` nanoseconds.
    pub fn from_nanos(nanos: u128) -> (d: Duration)
        ensures
            d@ == nanos,
    {
        Duration { nanos }
    }

    /// A span of `millis` milliseconds.
    pub fn from_millis(millis: u64) -> (d: Duration)
        ensures
            d@ == millis * NANOS_PER_MILLISECOND,
    {
        let wide: u128 = millis as u128;
        Duration { nanos: wide * NANOS_PER_MILLISECOND }
    }

    /// A span of `seconds` seconds.
    pub fn from_secs(seconds: u64) -> (d: Duration)
        ensures
            d@ == seconds * NANOS_PER_SECOND,
    {
        let wide: u128 = seconds as u128;
        Duration { nanos: wide * NANOS_PER_SECOND }
    }

    /// The span in nanoseconds.
    pub fn as_nanos(&self) -> (n: u128)
        ensures
            n == self@,
    {
        self.nanos
    }

    /// Whether the span is empty.
    pub fn is_zero(&self) -> (b: bool)
        ensures
            b == (self@ == 0),
    {
        self.nanos == 0
    }

    /// The number of whole weeks in the span.
    pub fn whole_weeks(&self) -> (n: u128)
        ensures
            n == self@ / NANOS_PER_WEEK as nat,
    {
        self.nanos / NANOS_PER_WEEK
    }

    /// The number of whole days in the span.
    pub fn whole_days(&self) -> (n: u128)
        ensures
            n == self@ / NANOS_PER_DAY as nat,
    {
        self.nanos / NANOS_PER_DAY
    }

    /// The number of whole hours in the span.
    pub fn whole_hours(&self) -> (n: u128)
        ensures
            n == self@ / NANOS_PER_HOUR as nat,
    {
        self.nanos / NANOS_PER_HOUR
    }

    /// The number of whole minutes in the span.
    pub fn whole_minutes(&self) -> (n: u128)
        ensures
            n == self@ / NANOS_PER_MINUTE as nat,
    {
        self.nanos / NANOS_PER_MINUTE
    }

    /// The number of whole seconds in the span.
    pub fn whole_seconds(&self) -> (n: u128)
        ensures
            n == self@ / NANOS_PER_SECOND as nat,
    {
        self.nanos / NANOS_PER_SECOND
    }

    /// The milliseconds past the last whole second, from 0 to 999.
    pub fn subsec_milliseconds(&self) -> (n: u16)
        ensures
            n == (self@ % NANOS_PER_SECOND as nat) / NANOS_PER_MILLISECOND as nat,
            n < 1000,
    {
        let rest: u128 = self.nanos % NANOS_PER_SECOND;
        let millis: u128 = rest / NANOS_PER_MILLISECOND;
        millis as u16
    }

    /// The sum of two spans, or `None` where it cannot be represented.
    pub fn checked_add(&self, other: Duration) -> (sum: Option<Duration>)
        ensures
            sum is Some <==> self@ + other@ <= u128::MAX,
            sum is Some ==> sum->Some_0@ == self@ + other@,
    {
        match self.nanos.checked_add(other.nanos) {
            Some(nanos) => Some(Duration { nanos }),
            None => None,
        }
    }

    /// The sum of two spans, held at the longest span that can be represented.
    pub fn saturating_add(&self, other: Duration) -> (sum: Duration)
        ensures
            sum@ == saturating_sum(self@, other@, u128::MAX as nat),
    {
        Duration { nanos: self.nanos.saturating_add(other.nanos) }
    }
}

/// `a + b`, held at `limit`.
pub open spec fn saturating_sum(a: nat, b: nat, limit: nat) -> nat {
    if a + b <= limit {
        a + b
    } else {
        limit
    }
}

/// A point in time: nanoseconds since the Unix epoch, in UTC.
#[derive(Clone, Copy, Debug, PartialEq, Eq, Structural)]
pub struct Timestamp {
    /// Nanoseconds since the Unix epoch.
    pub nanos: i128,
}

impl View for Timestamp {
    type V = int;

    /// The point in time as a number of nanoseconds since the Unix epoch.
    open spec fn view(&self) -> int {
        self.nanos as int
    }
}

/// The time to wait at `now` for something that is due at `due`: nothing once it
/// is due.
pub open spec fn wait_between(due: int, now: int) -> nat {
    if due <= now {
        0
    } else {
        (due - now) as nat
    }
}

/// The point in time `span` before `from`, and no earlier than the earliest
/// point in time that can be represented.
pub open spec fn earlier_by(from: int, span: nat) -> int {
    if from - span >= i128::MIN {
        from - span
    } else {
        i128::MIN as int
    }
}

impl Timestamp {
    /// The point in time `nanos` nanoseconds after the Unix epoch.
    pub fn from_unix_nanos(nanos: i128) -> (t: Timestamp)
        ensures
            t@ == nanos,
    {
        Timestamp { nanos }
    }

    /// Nanoseconds since the Unix epoch.
    pub fn unix_nanos(&self) -> (n: i128)
        ensures
            n == self@,
    {
        self.nanos
    }

    /// Whether this point in time lies strictly before `other`.
    pub fn is_before(&self, other: Timestamp) -> (b: bool)
        ensures
            b == (self@ < other@),
    {
        self.nanos < other.nanos
    }

    /// This point in time moved forward by `span`, or `None` where the result
    /// cannot be represented.
    pub fn checked_add(&self, span: Duration) -> (t: Option<Timestamp>)
        ensures
            t is Some <==> self@ + span@ <= i128::MAX,
            t is Some ==> t->Some_0@ == self@ + span@,
    {
        if span.nanos > i128::MAX as u128 {
            if self.nanos >= 0 {
                return None;
            }
            // self is negative: add in two steps that both fit.
            let first: i128 = self.nanos + i128::MAX;
            let rest: u128 = span.nanos - (i128::MAX as u128);
            if first < 0 {
                return Some(Timestamp { nanos: (rest - 1) as i128 });
            }
            if rest > (i128::MAX - first) as u128 {
                return None;
            }
            return Some(Timestamp { nanos: first + (rest as i128) });
        }
        match self.nanos.checked_add(span.nanos as i128) {
            Some(nanos) => Some(Timestamp { nanos }),
            None => None,
        }
    }

    /// This point in time moved back by `span`, and no further than the earliest
    /// point in time that can be represented.
    pub fn saturating_sub(&self, span: Duration) -> (t: Timestamp)
        ensures
            t@ == earlier_by(self@, span@),
    {
        if span.nanos > i128::MAX as u128 {
            if self.nanos < 0 {
                return Timestamp { nanos: i128::MIN };
            }
            // self is not negative, and the span is longer than self is late.
            let behind: u128 = span.nanos - (self.nanos as u128);
            if behind > i128::MAX as u128 {
                return Timestamp { nanos: i128::MIN };
            }
            return Timestamp { nanos: -(behind as i128) };
        }
        match self.nanos.checked_sub(span.nanos as i128) {
            Some(nanos) => Timestamp { nanos },
            None => Timestamp { nanos: i128::MIN },
        }
    }

    /// The time from `now` until this point in time; see [`wait_between`].
    pub fn wait_from(&self, now: Timestamp) -> (wait: Duration)
        ensures
            wait@ == wait_between(self@, now@),
    {
        if self.nanos <= now.nanos {
            Duration { nanos: 0 }
        } else if now.nanos >= 0 {
            Duration { nanos: (self.nanos - now.nanos) as u128 }
        } else if self.nanos < 0 {
            Duration { nanos: (self.nanos - now.nanos) as u128 }
        } else {
            // now < 0 <= self: both parts fit an unsigned span.
            let ahead: u128 = self.nanos as u128;
            let behind: u128 = (-(now.nanos + 1)) as u128 + 1;
            Duration { nanos: ahead + behind }
        }
    }
}

} // verus!
