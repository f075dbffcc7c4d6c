//! Instants and spans of time, at nanosecond resolution.

use vstd::prelude::*;

verus! {

/// A span of time.
#[derive(Debug, Clone, Copy, PartialEq, Eq, PartialOrd, Ord, Hash, Structural)]
pub struct Duration {
    /// The length of the span in nanoseconds.
    pub nanos: u128,
}

impl Duration {
    /// The empty span.
    pub fn zero() -> (d: Self)
        ensures
            d.nanos == 0,
    {
        Duration { nanos: 0 }
    }

    /// A span of `millis` milliseconds.
    pub fn from_millis(millis: u64) -> (d: Self)
        ensures
            d.nanos == millis * 1_000_000,
    {
        Duration { nanos: millis as u128 * 1_000_000 }
    }

    /// A span of `secs` seconds.
    pub fn from_secs(secs: u64) -> (d: Self)
        ensures
            d.nanos == secs * 1_000_000_000,
    {
        Duration { nanos: secs as u128 * 1_000_000_000 }
    }

    /// A span of `mins` minutes.
    pub fn from_mins(mins: u64) -> (d: Self)
        ensures
            d.nanos == mins * 60_000_000_000,
    {
        Duration { nanos: mins as u128 * 60_000_000_000 }
    }

    /// A span of `hours` hours.
    pub fn from_hours(hours: u64) -> (d: Self)
        ensures
            d.nanos == hours * 3_600_000_000_000,
    {
        Duration { nanos: hours as u128 * 3_600_000_000_000 }
    }

    /// Whether the span is empty.
    pub fn is_zero(&self) -> (r: bool)
        ensures
            r == (self.nanos == 0),
    {
        self.nanos == 0
    }

    /// The whole seconds in the span.
    pub fn as_secs(&self) -> (r: u128)
        ensures
            r == self.nanos / 1_000_000_000,
    {
        self.nanos / 1_000_000_000
    }

    /// The shorter of two spans.
    pub open spec fn shorter(self, other: Duration) -> Duration {
        if other.nanos < self.nanos {
            other
        } else {
            self
        }
    }

    /// The shorter of two spans.
    pub fn min_with(self, other: Duration) -> (r: Duration)
        ensures
            r == self.shorter(other),
    {
        if other.nanos < self.nanos {
            other
        } else {
            self
        }
    }
}

/// An instant, counted from the Unix epoch. The range reaches far beyond that
/// of any system clock in both directions.
#[derive(Debug, Clone, Copy, PartialEq, Eq, PartialOrd, Ord, Hash, Structural)]
pub struct Timestamp {
    /// Nanoseconds since the Unix epoch; negative before it.
    pub nanos: i128,
}

impl Timestamp {
    /// The Unix epoch.
    pub fn epoch() -> (t: Self)
        ensures
            t.nanos == 0,
    {
        Timestamp { nanos: 0 }
    }

    /// The instant `d` after this one; the last instant there is, should the
    /// sum lie beyond it.
    pub open spec fn later(self, d: Duration) -> Timestamp {
        if self.nanos + d.nanos <= i128::MAX {
            Timestamp { nanos: (self.nanos + d.nanos) as i128 }
        } else {
            Timestamp { nanos: i128::MAX }
        }
    }

    /// The instant `d` after this one.
    pub fn plus(self, d: Duration) -> (t: Timestamp)
        ensures
            t == self.later(d),
    {
        let top: u128 = i128::MAX as u128;
        if self.nanos >= 0 {
            let room: u128 = (i128::MAX - self.nanos) as u128;
            if d.nanos <= room {
                Timestamp { nanos: self.nanos + d.nanos as i128 }
            } else {
                Timestamp { nanos: i128::MAX }
            }
        } else if d.nanos <= top {
            Timestamp { nanos: self.nanos + d.nanos as i128 }
        } else {
            let rest: u128 = d.nanos - top;
            let part: i128 = self.nanos + i128::MAX;
            if part < 0 {
                Timestamp { nanos: (rest - 1) as i128 }
            } else if rest <= (i128::MAX - part) as u128 {
                Timestamp { nanos: part + rest as i128 }
            } else {
                Timestamp { nanos: i128::MAX }
            }
        }
    }

    /// How long `earlier` lies before this instant: nothing when it does not.
    pub open spec fn elapsed(self, earlier: Timestamp) -> Duration {
        if earlier.nanos < self.nanos {
            Duration { nanos: (self.nanos - earlier.nanos) as u128 }
        } else {
            Duration { nanos: 0 }
        }
    }

    /// How long `earlier` lies before this instant: nothing when it does not.
    pub fn since(self, earlier: Timestamp) -> (d: Duration)
        ensures
            d == self.elapsed(earlier),
    {
        if earlier.nanos >= self.nanos {
            Duration { nanos: 0 }
        } else if earlier.nanos >= 0 || self.nanos < 0 {
            Duration { nanos: (self.nanos - earlier.nanos) as u128 }
        } else {
            let before: u128 = (-(earlier.nanos + 1)) as u128 + 1;
            Duration { nanos: self.nanos as u128 + before }
        }
    }

    /// The sooner of two instants.
    pub open spec fn sooner(self, other: Timestamp) -> Timestamp {
        if other.nanos < self.nanos {
            other
        } else {
            self
        }
    }

    /// The sooner of two instants.
    pub fn min_with(self, other: Timestamp) -> (t: Timestamp)
        ensures
            t == self.sooner(other),
    {
        if other.nanos < self.nanos {
            other
        } else {
            self
        }
    }

    /// The later of two instants.
    pub open spec fn latest(self, other: Timestamp) -> Timestamp {
        if other.nanos > self.nanos {
            other
        } else {
            self
        }
    }

    /// The later of two instants.
    pub fn max_with(self, other: Timestamp) -> (t: Timestamp)
        ensures
            t == self.latest(other),
    {
        if other.nanos > self.nanos {
            other
        } else {
            self
        }
    }
}

/// Adding a span moves an instant by exactly that span, until the end of time.
pub proof fn law_plus_adds(t: Timestamp, d: Duration, sum: Timestamp)
    requires
        call_ensures(Timestamp::plus, (t, d), sum),
    ensures
        t.nanos + d.nanos <= i128::MAX ==> sum.nanos == t.nanos + d.nanos,
        t.nanos + d.nanos > i128::MAX ==> sum.nanos == i128::MAX,
        sum == t.later(d),
{
}

/// The time since an instant is what has to be added to it to arrive here, and
/// nothing when it lies ahead.
pub proof fn law_since_undoes_plus(t: Timestamp, earlier: Timestamp, d: Duration)
    requires
        call_ensures(Timestamp::since, (t, earlier), d),
    ensures
        earlier.nanos <= t.nanos ==> earlier.nanos + d.nanos == t.nanos,
        earlier.nanos > t.nanos ==> d.nanos == 0,
        d == t.elapsed(earlier),
{
}

/// Of two instants, or two spans, the one picked is one of them, and no later
/// (earlier, longer) than either.
pub proof fn law_picks_are_extremes(
    a: Timestamp,
    b: Timestamp,
    first: Timestamp,
    last: Timestamp,
    x: Duration,
    y: Duration,
    short: Duration,
)
    requires
        call_ensures(Timestamp::min_with, (a, b), first),
        call_ensures(Timestamp::max_with, (a, b), last),
        call_ensures(Duration::min_with, (x, y), short),
    ensures
        first == a || first == b,
        first.nanos <= a.nanos && first.nanos <= b.nanos,
        last == a || last == b,
        last.nanos >= a.nanos && last.nanos >= b.nanos,
        short == x || short == y,
        short.nanos <= x.nanos && short.nanos <= y.nanos,
        first == a.sooner(b) && last == a.latest(b) && short == x.shorter(y),
{
}

/// The units of time agree with each other: a second is a thousand
/// milliseconds, a minute sixty seconds, an hour sixty minutes; and the whole
/// seconds of a span are those it was made of.
pub proof fn law_units_agree(
    n: u64,
    millis: Duration,
    secs: Duration,
    mins: Duration,
    hours: Duration,
    whole: u128,
)
    requires
        call_ensures(Duration::from_millis, (n,), millis),
        call_ensures(Duration::from_secs, (n,), secs),
        call_ensures(Duration::from_mins, (n,), mins),
        call_ensures(Duration::from_hours, (n,), hours),
        call_ensures(Duration::as_secs, (&secs,), whole),
    ensures
        millis.nanos == n * 1_000_000,
        secs.nanos == 1000 * millis.nanos,
        mins.nanos == 60 * secs.nanos,
        hours.nanos == 60 * mins.nanos,
        whole == n,
{
}

} // verus!
