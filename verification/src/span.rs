//! Lengths of time, exact to the nanosecond.

use vstd::prelude::*;

verus! {

/// Nanoseconds in one second.
pub const NANOS_PER_SEC: u32 = 1_000_000_000;

/// Nanoseconds in one millisecond.
pub const NANOS_PER_MILLI: u32 = 1_000_000;

/// Milliseconds in one second.
pub const MILLIS_PER_SEC: u64 = 1_000;

/// The longest length of time a [`Span`] can hold, in nanoseconds.
pub open spec fn max_nanos() -> nat {
    (u64::MAX as nat) * (NANOS_PER_SEC as nat) + (NANOS_PER_SEC as nat - 1) as nat
}

/// A length of time: whole seconds and the nanoseconds of the second begun.
///
/// Its view is the whole length in nanoseconds.
#[derive(Clone, Copy, Debug, PartialEq, Eq, Structural)]
pub struct Span {
    secs: u64,
    nanos: u32,
}

impl View for Span {
    type V = nat;

    closed spec fn view(&self) -> nat {
        (self.secs as nat) * (NANOS_PER_SEC as nat) + (self.nanos as nat)
    }
}

impl Span {
    /// The nanoseconds never reach a full second.
    #[verifier::type_invariant]
    pub closed spec fn normal(self) -> bool {
        self.nanos < NANOS_PER_SEC
    }

    /// Spans of one length are one span, and no span is longer than the
    /// longest.
    pub proof fn lemma_view_is_exact(self, other: Span)
        requires
            self.normal(),
            other.normal(),
        ensures
            self@ == other@ <==> self == other,
            self@ <= max_nanos(),
    {
    }

    /// The empty span.
    pub fn zero() -> (span: Span)
        ensures
            span@ == 0,
    {
        Span { secs: 0, nanos: 0 }
    }

    /// The span of `secs` seconds and `nanos` nanoseconds. A billion
    /// nanoseconds or more carry over into the seconds; a sum beyond the
    /// longest span gives the longest span.
    pub fn new(secs: u64, nanos: u32) -> (span: Span)
        ensures
            span@ == if secs * NANOS_PER_SEC + nanos <= max_nanos() {
                (secs * NANOS_PER_SEC + nanos) as nat
            } else {
                max_nanos()
            },
    {
        let carry: u64 = (nanos / NANOS_PER_SEC) as u64;
        let rest: u32 = nanos % NANOS_PER_SEC;
        if secs <= u64::MAX - carry {
            Span { secs: secs + carry, nanos: rest }
        } else {
            Span { secs: u64::MAX, nanos: NANOS_PER_SEC - 1 }
        }
    }

    /// The span of `secs` whole seconds.
    pub fn from_secs(secs: u64) -> (span: Span)
        ensures
            span@ == secs * NANOS_PER_SEC,
    {
        Span { secs, nanos: 0 }
    }

    /// The span of `millis` milliseconds.
    pub fn from_millis(millis: u64) -> (span: Span)
        ensures
            span@ == millis * NANOS_PER_MILLI,
    {
        let rest: u32 = (millis % MILLIS_PER_SEC) as u32;
        Span { secs: millis / MILLIS_PER_SEC, nanos: rest * NANOS_PER_MILLI }
    }

    /// The whole seconds in the span.
    pub fn as_secs(&self) -> (secs: u64)
        ensures
            secs == self@ / (NANOS_PER_SEC as nat),
    {
        proof {
            use_type_invariant(self);
        }
        self.secs
    }

    /// The nanoseconds of the second begun: what is left of the span once
    /// its whole seconds are taken away.
    pub fn subsec_nanos(&self) -> (nanos: u32)
        ensures
            nanos == self@ % (NANOS_PER_SEC as nat),
    {
        proof {
            use_type_invariant(self);
        }
        self.nanos
    }

    /// `self - rhs`, or `None` where `rhs` is the longer.
    pub fn checked_sub(self, rhs: Span) -> (left: Option<Span>)
        ensures
            self@ >= rhs@ ==> left is Some && left.unwrap()@ == self@ - rhs@,
            self@ < rhs@ ==> left is None,
    {
        proof {
            use_type_invariant(self);
            use_type_invariant(rhs);
        }
        if self.secs < rhs.secs {
            None
        } else if self.nanos >= rhs.nanos {
            Some(Span { secs: self.secs - rhs.secs, nanos: self.nanos - rhs.nanos })
        } else if self.secs > rhs.secs {
            Some(
                Span {
                    secs: self.secs - rhs.secs - 1,
                    nanos: self.nanos + (NANOS_PER_SEC - rhs.nanos),
                },
            )
        } else {
            None
        }
    }

    /// `self - rhs`, or the empty span where `rhs` is the longer.
    pub fn saturating_sub(self, rhs: Span) -> (left: Span)
        ensures
            left@ == if self@ >= rhs@ {
                self@ - rhs@
            } else {
                0
            },
    {
        match self.checked_sub(rhs) {
            Some(left) => left,
            None => Span::zero(),
        }
    }
}

} // verus!
