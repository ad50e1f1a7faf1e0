//! Spans of time.
use vstd::prelude::*;

verus! {

/// How many nanoseconds make a second.
pub const NANOS_PER_SEC: u32 = 1_000_000_000;

/// The longest span that can be represented, in nanoseconds.
pub open spec fn max_nanos() -> nat {
    (u64::MAX * NANOS_PER_SEC + (NANOS_PER_SEC - 1)) as nat
}

/// A span of time: whole seconds and the nanoseconds that remain.
///
/// Its view is the whole span in nanoseconds.
#[derive(Clone, Copy, Debug, PartialEq, Eq, Structural)]
pub struct Duration {
    secs: u64,
    nanos: u32,
}

impl View for Duration {
    type V = nat;

    closed spec fn view(&self) -> nat {
        (self.secs * NANOS_PER_SEC + self.nanos) as nat
    }
}

impl Duration {
    #[verifier::type_invariant]
    spec fn wf(self) -> bool {
        self.nanos < NANOS_PER_SEC
    }

    /// A span of whole seconds and nanoseconds beyond them.
    pub fn from_parts(secs: u64, nanos: u32) -> (duration: Duration)
        requires
            nanos < NANOS_PER_SEC,
        ensures
            duration@ == secs * NANOS_PER_SEC + nanos,
    {
        Duration { secs, nanos }
    }

    /// A span of whole seconds.
    pub fn from_secs(secs: u64) -> (duration: Duration)
        ensures
            duration@ == secs * NANOS_PER_SEC,
    {
        Duration { secs, nanos: 0 }
    }

    /// A span of whole milliseconds.
    pub fn from_millis(millis: u64) -> (duration: Duration)
        ensures
            duration@ == millis * 1_000_000,
    {
        Duration { secs: millis / 1000, nanos: ((millis % 1000) as u32) * 1_000_000 }
    }

    /// The whole seconds of the span.
    pub fn as_secs(&self) -> (secs: u64)
        ensures
            secs == self@ / (NANOS_PER_SEC as nat),
    {
        proof {
            use_type_invariant(self);
        }
        self.secs
    }

    /// What remains of the span beyond its whole seconds, in nanoseconds.
    pub fn subsec_nanos(&self) -> (nanos: u32)
        ensures
            nanos == self@ % (NANOS_PER_SEC as nat),
    {
        proof {
            use_type_invariant(self);
        }
        self.nanos
    }

    /// The span taken `factor` times, or the longest span where that is too long.
    pub fn saturating_mul(self, factor: u32) -> (product: Duration)
        ensures
            product@ == (if self@ * factor <= max_nanos() {
                (self@ * factor) as nat
            } else {
                max_nanos()
            }),
    {
        proof {
            use_type_invariant(&self);
        }
        let nanos: u32 = self.nanos;
        assert(nanos * factor <= 999_999_999 * 0xffff_ffff) by (nonlinear_arith)
            requires
                nanos <= 999_999_999,
                factor <= 0xffff_ffff,
        ;
        let total: u64 = (nanos as u64) * (factor as u64);
        let carried: u64 = total / 1_000_000_000;
        let rest: u32 = (total % 1_000_000_000) as u32;
        assert(total == nanos * factor);
        assert(total == carried * 1_000_000_000 + rest);
        assert(self@ * factor == (self.secs * factor + carried) * 1_000_000_000 + rest)
            by (nonlinear_arith)
            requires
                self@ == self.secs * 1_000_000_000 + nanos,
                nanos * factor == carried * 1_000_000_000 + rest,
        ;
        match self.secs.checked_mul(factor as u64) {
            Some(secs) => match secs.checked_add(carried) {
                Some(secs) => Duration { secs, nanos: rest },
                None => Duration { secs: u64::MAX, nanos: 999_999_999 },
            },
            None => Duration { secs: u64::MAX, nanos: 999_999_999 },
        }
    }

    /// The shorter of two spans.
    pub fn min(self, other: Duration) -> (shorter: Duration)
        ensures
            shorter@ == (if self@ <= other@ {
                self@
            } else {
                other@
            }),
    {
        proof {
            use_type_invariant(&self);
            use_type_invariant(&other);
        }
        if self.secs < other.secs || (self.secs == other.secs && self.nanos <= other.nanos) {
            self
        } else {
            other
        }
    }
}

/// A second has a thousand million nanoseconds, and the longest span that can be represented is
/// one nanosecond short of two to the sixty-fourth seconds.
pub proof fn law_the_longest_span()
    ensures
        NANOS_PER_SEC == 1_000_000_000,
        max_nanos() + 1 == 0x1_0000_0000_0000_0000 * 1_000_000_000,
{
}

/// A span has the seconds and nanoseconds that it was made of, a thousand milliseconds make a
/// second, and a span read off in seconds and nanoseconds is the whole span.
pub proof fn law_spans_are_what_they_were_made_of(
    amount: u64,
    nanos: u32,
    parts: Duration,
    whole: Duration,
    millis: Duration,
    secs_read: u64,
    nanos_read: u32,
)
    requires
        nanos < 1_000_000_000,
        call_ensures(Duration::from_parts, (amount, nanos), parts),
        call_ensures(Duration::from_secs, (amount,), whole),
        call_ensures(Duration::from_millis, (amount,), millis),
        call_ensures(Duration::as_secs, (&parts,), secs_read),
        call_ensures(Duration::subsec_nanos, (&parts,), nanos_read),
    ensures
        secs_read == amount,
        nanos_read == nanos,
        parts@ == amount * 1_000_000_000 + nanos,
        whole@ == amount * 1_000_000_000,
        millis@ * 1000 == whole@,
{
}

/// A span taken several times is that many times as long, unless that is longer than the longest
/// span; and the shorter of two spans is one of them and no longer than either.
pub proof fn law_multiples_and_minima_of_spans(
    span: Duration,
    other: Duration,
    factor: u32,
    product: Duration,
    shorter: Duration,
)
    requires
        call_ensures(Duration::saturating_mul, (span, factor), product),
        call_ensures(Duration::min, (span, other), shorter),
    ensures
        product@ == span@ * factor || (product@ < span@ * factor && product@ + 1
            == 0x1_0000_0000_0000_0000 * 1_000_000_000),
        shorter@ == span@ || shorter@ == other@,
        shorter@ <= span@ && shorter@ <= other@,
{
}

} // verus!
