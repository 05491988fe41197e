//! Signed spans of time at millisecond resolution.
use vstd::prelude::*;

verus! {

/// Milliseconds in one second.
pub const MILLIS_PER_SECOND: i64 = 1000;

/// Whether a span of `total` milliseconds can be held by a `Duration`.
pub open spec fn is_representable(total: int) -> bool {
    -(i64::MAX as int) * 1000 - 999 <= total <= (i64::MAX as int) * 1000 + 999
}

/// A signed span of time: whole seconds plus a millisecond remainder that
/// carries the same sign as the seconds.
#[derive(PartialEq, Eq, Structural, Debug, Clone, Copy)]
pub struct Duration {
    seconds: i64,
    milliseconds: i16,
}

impl View for Duration {
    type V = int;

    /// The span in milliseconds.
    closed spec fn view(&self) -> int {
        self.seconds as int * 1000 + self.milliseconds as int
    }
}

impl Duration {
    /// The remainder is below one second and never has the opposite sign of
    /// the seconds.
    #[verifier::type_invariant]
    pub closed spec fn wf(&self) -> bool {
        &&& -999 <= self.milliseconds <= 999
        &&& self.seconds > 0 ==> self.milliseconds >= 0
        &&& self.seconds < 0 ==> self.milliseconds <= 0
    }

    pub closed spec fn seconds_spec(&self) -> i64 {
        self.seconds
    }

    pub closed spec fn milliseconds_spec(&self) -> i16 {
        self.milliseconds
    }

    /// Builds the normalized duration of `total` milliseconds.
    fn from_millis_total(total: i128) -> (r: Duration)
        requires
            is_representable(total as int),
        ensures
            r.wf(),
            r@ == total as int,
    {
        let magnitude: u128 = if total >= 0 { total as u128 } else { (-total) as u128 };
        let whole: u128 = magnitude / 1000;
        let rest: u128 = magnitude % 1000;
        if total >= 0 {
            Duration { seconds: whole as i64, milliseconds: rest as i16 }
        } else {
            Duration { seconds: -(whole as i64), milliseconds: -(rest as i16) }
        }
    }

    /// The empty span.
    pub fn zero() -> (r: Duration)
        ensures
            r.wf(),
            r@ == 0,
    {
        Duration { seconds: 0, milliseconds: 0 }
    }

    /// A span of whole seconds.
    pub fn of(seconds: i64) -> (r: Duration)
        ensures
            r.wf(),
            r@ == seconds as int * 1000,
            r.seconds_spec() == seconds,
            r.milliseconds_spec() == 0,
    {
        Duration { seconds, milliseconds: 0 }
    }

    /// A span of `seconds` seconds plus `milliseconds` milliseconds,
    /// normalized so that the remainder is below one second.
    pub fn of_ms(seconds: i64, milliseconds: i16) -> (r: Duration)
        requires
            is_representable(seconds as int * 1000 + milliseconds as int),
        ensures
            r.wf(),
            r@ == seconds as int * 1000 + milliseconds as int,
    {
        Duration::from_millis_total(seconds as i128 * 1000 + milliseconds as i128)
    }

    /// The whole seconds and the millisecond remainder.
    pub fn lengths(&self) -> (r: (i64, i16))
        ensures
            r.0 == self.seconds_spec(),
            r.1 == self.milliseconds_spec(),
            r.0 as int * 1000 + r.1 as int == self@,
            -999 <= r.1 <= 999,
            r.0 > 0 ==> r.1 >= 0,
            r.0 < 0 ==> r.1 <= 0,
    {
        proof {
            use_type_invariant(self);
        }
        (self.seconds, self.milliseconds)
    }

    /// The span in milliseconds.
    pub fn total_milliseconds(&self) -> (r: i128)
        ensures
            r as int == self@,
    {
        self.seconds as i128 * 1000 + self.milliseconds as i128
    }

    /// The sum of two spans.
    pub fn plus(&self, other: &Duration) -> (r: Duration)
        requires
            is_representable(self@ + other@),
        ensures
            r.wf(),
            r@ == self@ + other@,
    {
        Duration::from_millis_total(self.total_milliseconds() + other.total_milliseconds())
    }

    /// This span less `other`.
    pub fn minus(&self, other: &Duration) -> (r: Duration)
        requires
            is_representable(self@ - other@),
        ensures
            r.wf(),
            r@ == self@ - other@,
    {
        Duration::from_millis_total(self.total_milliseconds() - other.total_milliseconds())
    }

    /// This span scaled by `factor`.
    pub fn times(&self, factor: i64) -> (r: Duration)
        requires
            is_representable(self@ * factor),
        ensures
            r.wf(),
            r@ == self@ * factor,
    {
        let total = self.total_milliseconds();
        let scaled: i128 = checked_scale(total, factor);
        Duration::from_millis_total(scaled)
    }
}

fn checked_scale(total: i128, factor: i64) -> (r: i128)
    requires
        is_representable(total as int * factor as int),
    ensures
        r as int == total as int * factor as int,
{
    total * factor as i128
}

} // verus!
