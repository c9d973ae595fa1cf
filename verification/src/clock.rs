//! Time: spans as exact numbers of nanoseconds, and readings of the monotonic
//! clock.
use vstd::prelude::*;

verus! {

/// Nanoseconds in a second.
pub const NANOS_PER_SEC: u128 = 1_000_000_000;

/// The longest span: the whole seconds of a 64-bit number and a fraction.
pub const MAX_NANOS: u128 = 18_446_744_073_709_551_615_999_999_999;

/// A span of time, in nanoseconds, of at most [`MAX_NANOS`].
#[derive(Debug, Clone, Copy, PartialEq, Eq, Structural)]
pub struct Duration {
    nanos: u128,
}

impl View for Duration {
    type V = nat;

    closed spec fn view(&self) -> nat {
        self.nanos as nat
    }
}

impl Default for Duration {
    fn default() -> (span: Self)
        ensures
            span@ == 0,
            span.wf(),
    {
        Duration { nanos: 0 }
    }
}

impl Duration {
    /// Within the longest span.
    pub open spec fn wf(self) -> bool {
        self@ <= MAX_NANOS
    }

    /// Spans of as many nanoseconds are the same span.
    pub proof fn equal_nanos(self, other: Self)
        requires
            self@ == other@,
        ensures
            self == other,
    {
    }

    /// Whole seconds and the nanoseconds of a fraction of one.
    pub fn new(secs: u64, nanos: u32) -> (span: Self)
        requires
            nanos < NANOS_PER_SEC,
        ensures
            span@ == secs * NANOS_PER_SEC + nanos,
            span.wf(),
    {
        Duration { nanos: secs as u128 * NANOS_PER_SEC + nanos as u128 }
    }

    /// A number of seconds.
    pub fn from_secs(secs: u64) -> (span: Self)
        ensures
            span@ == secs * NANOS_PER_SEC,
            span.wf(),
    {
        Duration { nanos: secs as u128 * NANOS_PER_SEC }
    }

    /// A number of milliseconds.
    pub fn from_millis(millis: u64) -> (span: Self)
        ensures
            span@ == millis * 1_000_000,
            span.wf(),
    {
        Duration { nanos: millis as u128 * 1_000_000 }
    }

    /// A number of microseconds.
    pub fn from_micros(micros: u64) -> (span: Self)
        ensures
            span@ == micros * 1_000,
            span.wf(),
    {
        Duration { nanos: micros as u128 * 1_000 }
    }

    /// A number of nanoseconds.
    pub fn from_nanos(nanos: u64) -> (span: Self)
        ensures
            span@ == nanos,
            span.wf(),
    {
        Duration { nanos: nanos as u128 }
    }

    /// The span in nanoseconds.
    pub fn as_nanos(&self) -> (nanos: u128)
        ensures
            nanos == self@,
    {
        self.nanos
    }

    /// The whole microseconds of the span.
    pub fn as_micros(&self) -> (micros: u128)
        ensures
            micros == self@ / 1_000,
    {
        self.nanos / 1_000
    }

    /// The sum, or the longest span where the sum is longer.
    pub open spec fn saturated_sum(a: nat, b: nat) -> nat {
        if a + b <= MAX_NANOS {
            a + b
        } else {
            MAX_NANOS as nat
        }
    }

    /// The sum of two spans, or the longest span where the sum is longer.
    pub fn saturating_add(self, other: Self) -> (sum: Self)
        requires
            self.wf(),
            other.wf(),
        ensures
            sum@ == Self::saturated_sum(self@, other@),
            sum.wf(),
    {
        let nanos = self.nanos + other.nanos;
        if nanos <= MAX_NANOS {
            Duration { nanos }
        } else {
            Duration { nanos: MAX_NANOS }
        }
    }

    /// The difference of two spans, or nothing where it would be negative.
    pub fn saturating_sub(self, other: Self) -> (difference: Self)
        requires
            self.wf(),
        ensures
            difference@ == (if self@ >= other@ {
                self@ - other@
            } else {
                0
            }),
            difference.wf(),
    {
        if self.nanos >= other.nanos {
            Duration { nanos: self.nanos - other.nanos }
        } else {
            Duration { nanos: 0 }
        }
    }
}

/// `std::time::Instant`, a reading of the monotonic clock, carried unread.
#[verifier::external_type_specification]
#[verifier::external_body]
pub struct ExInstant(std::time::Instant);

/// `std::time::Instant::now`: the current reading. Nothing is claimed of it.
#[verifier::external_body]
pub(crate) fn now() -> std::time::Instant {
    std::time::Instant::now()
}

/// Adding spans is exact up to the longest span and stops there; the order does not
/// matter, and no sum is shorter than what was added.
pub proof fn sums_are_exact_or_longest(a: nat, b: nat)
    requires
        a <= MAX_NANOS,
        b <= MAX_NANOS,
    ensures
        a + b <= 18_446_744_073_709_551_615_999_999_999 ==> Duration::saturated_sum(a, b) == a + b,
        a + b > 18_446_744_073_709_551_615_999_999_999 ==> Duration::saturated_sum(a, b)
            == 18_446_744_073_709_551_615_999_999_999,
        Duration::saturated_sum(a, b) == Duration::saturated_sum(b, a),
        Duration::saturated_sum(a, b) >= a,
{
}

/// Spans are made of their units exactly, and read back as nanoseconds.
pub proof fn units_are_exact(
    amount: u64,
    seconds: Duration,
    millis: Duration,
    micros: Duration,
    nanos: Duration,
    read: u128,
    whole: u128,
)
    requires
        call_ensures(Duration::from_secs, (amount,), seconds),
        call_ensures(Duration::from_millis, (amount,), millis),
        call_ensures(Duration::from_micros, (amount,), micros),
        call_ensures(Duration::from_nanos, (amount,), nanos),
        call_ensures(Duration::as_nanos, (&nanos,), read),
        call_ensures(Duration::as_micros, (&micros,), whole),
    ensures
        read == amount,
        whole == amount,
        micros@ == 1_000 * nanos@,
        millis@ == 1_000 * micros@,
        seconds@ == 1_000 * millis@,
{
}

/// The calls that add and subtract spans undo each other where neither stops at an end, and
/// a difference is nothing where it would be negative.
pub proof fn differences_undo_sums(
    a: Duration,
    b: Duration,
    sum: Duration,
    back: Duration,
    less: Duration,
)
    requires
        call_ensures(Duration::saturating_add, (a, b), sum),
        call_ensures(Duration::saturating_sub, (sum, b), back),
        call_ensures(Duration::saturating_sub, (a, b), less),
    ensures
        a@ + b@ <= MAX_NANOS ==> sum@ == a@ + b@ && back@ == a@,
        a@ + b@ > MAX_NANOS ==> sum@ == MAX_NANOS,
        a@ <= b@ ==> less@ == 0,
        a@ >= b@ ==> less@ + b@ == a@,
{
}

} // verus!
