//! Spans of time and points in time, to the nanosecond.
//!
//! Reading a clock is left to whoever has one. The decisions here are made on
//! the readings.
use vstd::prelude::*;

verus! {

/// The longest span there is, in nanoseconds: the largest whole number of
/// seconds that 64 bits hold, and all but one nanosecond of another.
pub open spec fn longest() -> nat {
    18_446_744_073_709_551_615_999_999_999
}

/// A span of time.
#[derive(Debug, Clone, Copy, PartialEq, Eq, Structural)]
pub struct Duration {
    nanos: u128,
}

impl View for Duration {
    type V = nat;

    closed spec fn view(&self) -> nat {
        self.nanos as nat
    }
}

impl Duration {
    #[verifier::type_invariant]
    spec fn well_formed(self) -> bool {
        self.nanos <= longest()
    }

    /// A span of whole seconds and a fraction of less than a second.
    pub fn new(secs: u64, nanos: u32) -> (span: Self)
        requires
            nanos < 1_000_000_000,
        ensures
            span@ == secs * 1_000_000_000 + nanos,
    {
        Duration { nanos: secs as u128 * 1_000_000_000 + nanos as u128 }
    }

    /// A span of whole seconds.
    pub fn from_secs(secs: u64) -> (span: Self)
        ensures
            span@ == secs * 1_000_000_000,
    {
        Duration { nanos: secs as u128 * 1_000_000_000 }
    }

    /// A span of milliseconds.
    pub fn from_millis(millis: u64) -> (span: Self)
        ensures
            span@ == millis * 1_000_000,
    {
        Duration { nanos: millis as u128 * 1_000_000 }
    }

    /// A span of microseconds.
    pub fn from_micros(micros: u64) -> (span: Self)
        ensures
            span@ == micros * 1_000,
    {
        Duration { nanos: micros as u128 * 1_000 }
    }

    /// The whole seconds in the span.
    pub fn as_secs(&self) -> (secs: u64)
        ensures
            secs == self@ / 1_000_000_000,
    {
        proof {
            use_type_invariant(self);
        }
        (self.nanos / 1_000_000_000) as u64
    }

    /// What is left of the span beside the whole seconds, in nanoseconds.
    pub fn subsec_nanos(&self) -> (nanos: u32)
        ensures
            nanos == self@ % 1_000_000_000,
    {
        (self.nanos % 1_000_000_000) as u32
    }

    /// The whole milliseconds in the span.
    pub fn as_millis(&self) -> (millis: u128)
        ensures
            millis == self@ / 1_000_000,
    {
        self.nanos / 1_000_000
    }

    /// The whole microseconds in the span.
    pub fn as_micros(&self) -> (micros: u128)
        ensures
            micros == self@ / 1_000,
    {
        self.nanos / 1_000
    }

    /// The span `factor` times over.
    pub fn times(&self, factor: u32) -> (span: Self)
        requires
            self@ * factor <= longest(),
        ensures
            span@ == self@ * factor,
    {
        Duration { nanos: self.nanos * factor as u128 }
    }

    /// Whether the span is no longer than another.
    pub fn at_most(&self, other: &Duration) -> (answer: bool)
        ensures
            answer == (self@ <= other@),
    {
        self.nanos <= other.nanos
    }
}

/// A point in time, as the span since an origin that a clock keeps to.
#[derive(Debug, Clone, Copy, PartialEq, Eq, Structural)]
pub struct Instant {
    since_origin: Duration,
}

impl View for Instant {
    type V = nat;

    closed spec fn view(&self) -> nat {
        self.since_origin@
    }
}

/// How long after `earlier` a point in time lies; nothing when it lies before.
pub open spec fn elapsed(earlier: Instant, now: Instant) -> nat {
    if now@ >= earlier@ {
        (now@ - earlier@) as nat
    } else {
        0
    }
}

impl Instant {
    /// The point in time this long after the origin.
    pub fn at(since_origin: Duration) -> (instant: Self)
        ensures
            instant@ == since_origin@,
    {
        Instant { since_origin }
    }

    /// The point in time this much later.
    pub fn later_by(&self, span: Duration) -> (instant: Self)
        requires
            self@ + span@ <= longest(),
        ensures
            instant@ == self@ + span@,
    {
        Instant { since_origin: Duration { nanos: self.since_origin.nanos + span.nanos } }
    }

    /// The span since `earlier`, nothing when `earlier` lies ahead.
    pub fn saturating_duration_since(&self, earlier: Instant) -> (span: Duration)
        ensures
            span@ == elapsed(earlier, *self),
    {
        if self.since_origin.nanos >= earlier.since_origin.nanos {
            proof {
                use_type_invariant(&self.since_origin);
            }
            Duration { nanos: self.since_origin.nanos - earlier.since_origin.nanos }
        } else {
            Duration { nanos: 0 }
        }
    }
}

/// What lies between two points in time and the earlier of them make up the
/// later one. Nothing lies between a point and one ahead of it.
pub proof fn elapsed_makes_up_the_difference(earlier: Instant, now: Instant)
    ensures
        earlier@ <= now@ ==> earlier@ + elapsed(earlier, now) == now@,
        now@ <= earlier@ ==> elapsed(earlier, now) == 0,
{
}

/// Time that passes adds up: what lies between the first and the last of three
/// points is what lies between each two of them.
pub proof fn elapsed_adds_up(first: Instant, second: Instant, third: Instant)
    requires
        first@ <= second@ <= third@,
    ensures
        elapsed(first, third) == elapsed(first, second) + elapsed(second, third),
{
}

/// A nanosecond more than the longest span would be one second more than 64
/// bits can count.
pub proof fn longest_is_all_that_seconds_can_count()
    ensures
        longest() + 1 == (u64::MAX + 1) * 1_000_000_000,
{
}

/// A span is its whole seconds and what is left of them, however it was made.
pub proof fn a_span_is_its_seconds_and_the_rest(
    span: Duration,
    secs: u64,
    nanos: u32,
    again: Duration,
)
    requires
        call_ensures(Duration::as_secs, (&span,), secs),
        call_ensures(Duration::subsec_nanos, (&span,), nanos),
        call_ensures(Duration::new, (secs, nanos), again),
    ensures
        nanos < 1_000_000_000,
        again@ == span@,
{
}

/// A second is a thousand milliseconds, and a millisecond a thousand
/// microseconds, both ways.
pub proof fn units_of_time_agree(
    count: u64,
    seconds: Duration,
    millis: Duration,
    micros: Duration,
    in_millis: u128,
    in_micros: u128,
)
    requires
        call_ensures(Duration::from_secs, (count,), seconds),
        call_ensures(Duration::from_millis, (count,), millis),
        call_ensures(Duration::from_micros, (count,), micros),
        call_ensures(Duration::as_millis, (&millis,), in_millis),
        call_ensures(Duration::as_micros, (&micros,), in_micros),
    ensures
        seconds@ == millis@ * 1_000,
        millis@ == micros@ * 1_000,
        micros@ == count * 1_000,
        in_millis == count,
        in_micros == count,
{
}

/// A point in time that is later by a span lies that span after the earlier
/// one.
pub proof fn later_by_a_span_is_that_span_later(
    earlier: Instant,
    span: Duration,
    later: Instant,
    between: Duration,
    origin: Instant,
    at_most: bool,
    limit: Duration,
)
    requires
        call_ensures(Instant::later_by, (&earlier, span), later),
        call_ensures(Instant::saturating_duration_since, (&later, earlier), between),
        call_ensures(Instant::at, (span,), origin),
        call_ensures(Duration::at_most, (&between, &limit), at_most),
    ensures
        later@ == earlier@ + span@,
        between@ == span@,
        origin@ == span@,
        at_most <==> span@ <= limit@,
{
}

}
