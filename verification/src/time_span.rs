//! Time spans counted to the nanosecond, with the same range and the same
//! carry and borrow rules as `std::time::Duration`.

use vstd::prelude::*;

verus! {

/// Nanoseconds in one second.
pub const NANOS_PER_SEC: u32 = 1_000_000_000;

/// The largest number of nanoseconds a span can hold: `u64::MAX` whole
/// seconds and 999 999 999 nanoseconds.
pub open spec fn max_span_nanos() -> nat {
    (u64::MAX as nat) * 1_000_000_000 + 999_999_999
}

/// A non-negative span of time: whole seconds and the nanoseconds of the
/// second that is not yet whole.
#[derive(Clone, Copy, Debug, PartialEq, Eq, Structural)]
pub struct TimeSpan {
    secs: u64,
    nanos: u32,
}

impl TimeSpan {
    #[verifier::type_invariant]
    spec fn nanos_below_one_second(self) -> bool {
        self.nanos < NANOS_PER_SEC
    }

    /// The whole seconds of the span.
    pub closed spec fn secs_part(self) -> nat {
        self.secs as nat
    }

    /// The nanoseconds beyond the whole seconds.
    pub closed spec fn nanos_part(self) -> nat {
        self.nanos as nat
    }
}

impl View for TimeSpan {
    type V = nat;

    /// The length of the span in nanoseconds.
    open spec fn view(&self) -> nat {
        self.secs_part() * 1_000_000_000 + self.nanos_part()
    }
}

impl TimeSpan {
    /// The empty span.
    pub fn zero() -> (r: TimeSpan)
        ensures
            r@ == 0,
    {
        TimeSpan { secs: 0, nanos: 0 }
    }

    /// The span of `secs` seconds and `nanos` nanoseconds; nanoseconds of a
    /// billion or more carry into the seconds. The carry must not take the
    /// seconds past `u64::MAX`.
    pub fn new(secs: u64, nanos: u32) -> (r: TimeSpan)
        requires
            secs + nanos / 1_000_000_000 <= u64::MAX,
        ensures
            r@ == secs * 1_000_000_000 + nanos,
            r@ <= max_span_nanos(),
    {
        let extra: u32 = nanos / NANOS_PER_SEC;
        let rest: u32 = nanos % NANOS_PER_SEC;
        let whole: u64 = secs + extra as u64;
        proof {
            vstd::arithmetic::div_mod::lemma_fundamental_div_mod(nanos as int, 1_000_000_000);
        }
        TimeSpan { secs: whole, nanos: rest }
    }

    /// The whole seconds of the span.
    pub fn as_secs(&self) -> (r: u64)
        ensures
            r == self@ / 1_000_000_000,
            self@ <= max_span_nanos(),
    {
        proof {
            use_type_invariant(self);
            self.lemma_parts();
        }
        self.secs
    }

    /// The nanoseconds of the span beyond its whole seconds.
    pub fn subsec_nanos(&self) -> (r: u32)
        ensures
            r == self@ % 1_000_000_000,
            r < NANOS_PER_SEC,
            self@ <= max_span_nanos(),
    {
        proof {
            use_type_invariant(self);
            self.lemma_parts();
        }
        self.nanos
    }

    /// Every span lies within the range: at most `u64::MAX` seconds and
    /// 999 999 999 nanoseconds.
    pub fn length_in_range(&self)
        ensures
            self@ <= max_span_nanos(),
    {
        proof {
            use_type_invariant(self);
            self.lemma_parts();
        }
    }

    proof fn lemma_parts(self)
        requires
            self.nanos < NANOS_PER_SEC,
        ensures
            self@ / 1_000_000_000 == self.secs,
            self@ % 1_000_000_000 == self.nanos,
            self@ <= max_span_nanos(),
    {
        vstd::arithmetic::div_mod::lemma_fundamental_div_mod_converse(
            self@ as int,
            1_000_000_000,
            self.secs as int,
            self.nanos as int,
        );
    }

    /// The sum of two spans, or `None` where it would exceed the largest span.
    pub fn checked_add(self, rhs: TimeSpan) -> (r: Option<TimeSpan>)
        ensures
            r is Some <==> self@ + rhs@ <= max_span_nanos(),
            r matches Some(s) ==> s@ == self@ + rhs@ && s@ <= max_span_nanos(),
            self@ <= max_span_nanos(),
            rhs@ <= max_span_nanos(),
    {
        proof {
            use_type_invariant(&self);
            use_type_invariant(&rhs);
        }
        match self.secs.checked_add(rhs.secs) {
            None => None,
            Some(secs) => {
                let nanos: u32 = self.nanos + rhs.nanos;
                if nanos >= NANOS_PER_SEC {
                    match secs.checked_add(1) {
                        None => None,
                        Some(carried) => Some(TimeSpan { secs: carried, nanos: nanos - NANOS_PER_SEC }),
                    }
                } else {
                    Some(TimeSpan { secs, nanos })
                }
            },
        }
    }

    /// The difference of two spans, or `None` where `rhs` is the longer one.
    pub fn checked_sub(self, rhs: TimeSpan) -> (r: Option<TimeSpan>)
        ensures
            r is Some <==> rhs@ <= self@,
            r matches Some(s) ==> s@ == self@ - rhs@ && s@ <= max_span_nanos(),
            self@ <= max_span_nanos(),
            rhs@ <= max_span_nanos(),
    {
        proof {
            use_type_invariant(&self);
            use_type_invariant(&rhs);
        }
        if self.secs < rhs.secs {
            return None;
        }
        let secs: u64 = self.secs - rhs.secs;
        if self.nanos >= rhs.nanos {
            Some(TimeSpan { secs, nanos: self.nanos - rhs.nanos })
        } else if secs == 0 {
            None
        } else {
            Some(TimeSpan { secs: secs - 1, nanos: self.nanos + (NANOS_PER_SEC - rhs.nanos) })
        }
    }
}

} // verus!
