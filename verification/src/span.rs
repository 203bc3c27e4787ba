//! A span of time with nanosecond resolution, covering exactly the values of
//! `std::time::Duration` (whole seconds up to `u64::MAX`, plus a fraction
//! below one second).
use vstd::prelude::*;

verus! {

/// Nanoseconds in one second.
pub const NANOS_PER_SEC: u128 = 1_000_000_000;

/// The number of nanoseconds in the longest span: `u64::MAX` seconds plus
/// 999_999_999 nanoseconds.
pub open spec fn max_span_nanos() -> nat {
    18_446_744_073_709_551_615nat * 1_000_000_000nat + 999_999_999nat
}

/// A length of time, held as a whole number of nanoseconds.
#[derive(Clone, Copy, Debug, PartialEq, Eq, Structural)]
pub struct Span {
    nanos: u128,
}

impl View for Span {
    type V = nat;

    /// The length of the span in nanoseconds.
    closed spec fn view(&self) -> nat {
        self.nanos as nat
    }
}

impl Span {
    #[verifier::type_invariant]
    spec fn within_range(self) -> bool {
        self.nanos <= max_span_nanos()
    }

    /// The empty span.
    pub fn zero() -> (r: Span)
        ensures
            r@ == 0,
    {
        Span { nanos: 0 }
    }

    /// A span of whole seconds.
    pub fn from_secs(secs: u64) -> (r: Span)
        ensures
            r@ == secs * 1_000_000_000,
    {
        Span { nanos: (secs as u128) * NANOS_PER_SEC }
    }

    /// A span of milliseconds.
    pub fn from_millis(millis: u64) -> (r: Span)
        ensures
            r@ == millis * 1_000_000,
    {
        Span { nanos: (millis as u128) * 1_000_000 }
    }

    /// A span of nanoseconds.
    pub fn from_nanos(nanos: u64) -> (r: Span)
        ensures
            r@ == nanos,
    {
        Span { nanos: nanos as u128 }
    }

    /// A span of `secs` seconds and `nanos` nanoseconds; the nanoseconds may
    /// exceed one second and are carried into the seconds. The total must not
    /// exceed the longest span.
    pub fn new(secs: u64, nanos: u32) -> (r: Span)
        requires
            secs * 1_000_000_000 + nanos <= max_span_nanos(),
        ensures
            r@ == secs * 1_000_000_000 + nanos,
    {
        Span { nanos: (secs as u128) * NANOS_PER_SEC + (nanos as u128) }
    }

    /// The whole seconds of the span.
    pub fn as_secs(&self) -> (r: u64)
        ensures
            r == self@ / 1_000_000_000,
    {
        proof {
            use_type_invariant(self);
        }
        (self.nanos / NANOS_PER_SEC) as u64
    }

    /// The nanoseconds of the span beyond its whole seconds.
    pub fn subsec_nanos(&self) -> (r: u32)
        ensures
            r == self@ % 1_000_000_000,
    {
        (self.nanos % NANOS_PER_SEC) as u32
    }

    /// The whole span in nanoseconds.
    pub fn as_nanos(&self) -> (r: u128)
        ensures
            r == self@,
            r <= max_span_nanos(),
    {
        proof {
            use_type_invariant(self);
        }
        self.nanos
    }

    /// Whether the span is empty.
    pub fn is_zero(&self) -> (r: bool)
        ensures
            r == (self@ == 0),
    {
        self.nanos == 0
    }

    /// Whether this span is strictly shorter than `other`.
    pub fn shorter_than(&self, other: &Span) -> (r: bool)
        ensures
            r == (self@ < other@),
    {
        self.nanos < other.nanos
    }

    /// This span minus `other`, or the empty span where `other` is longer.
    pub fn saturating_sub(&self, other: &Span) -> (r: Span)
        ensures
            r@ == if self@ >= other@ { self@ - other@ } else { 0 },
    {
        proof {
            use_type_invariant(self);
        }
        if self.nanos >= other.nanos {
            Span { nanos: self.nanos - other.nanos }
        } else {
            Span { nanos: 0 }
        }
    }
}

/// Splitting the length of a span into whole seconds (`as_secs`) and the
/// nanoseconds beyond them (`subsec_nanos`), then joining the two parts again
/// (`new`), gives back the same length: the whole seconds always fit in a
/// `u64`, the rest stays below one second, and the two add up again.
pub proof fn lemma_parts_round_trip(n: nat)
    requires
        n <= max_span_nanos(),
    ensures
        n / 1_000_000_000 <= u64::MAX,
        n % 1_000_000_000 < 1_000_000_000,
        (n / 1_000_000_000) * 1_000_000_000 + n % 1_000_000_000 == n,
{
    let i: int = n as int;
    vstd::arithmetic::div_mod::lemma_fundamental_div_mod(i, 1_000_000_000);
    vstd::arithmetic::div_mod::lemma_mod_bound(i, 1_000_000_000);
}

} // verus!
