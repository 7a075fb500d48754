//! A duration value: non-negative seconds plus a sub-second nanosecond
//! component, always below one billion.  Viewed in specifications as the
//! total number of nanoseconds, a single mathematical integer.

use vstd::prelude::*;

verus! {

/// An amount of elapsed time: `secs` whole seconds plus `nanos`
/// nanoseconds, with `nanos < 1_000_000_000` as the well-formedness
/// invariant.  Its view is the total nanosecond count.
#[derive(Clone, Copy, Debug, PartialEq, Eq, Structural)]
pub struct Duration {
    secs: u64,
    nanos: u32,
}

impl View for Duration {
    type V = int;

    closed spec fn view(&self) -> int {
        self.secs * 1_000_000_000 + self.nanos
    }
}

impl Duration {
    /// The nanosecond component is below one second.
    pub closed spec fn wf(&self) -> bool {
        self.nanos < 1_000_000_000
    }

    /// The zero duration.
    pub fn zero() -> (r: Duration)
        ensures
            r.wf(),
            r@ == 0,
    {
        Duration { secs: 0, nanos: 0 }
    }

    /// Builds a duration from whole seconds and a sub-second nanosecond
    /// component.
    pub fn new(secs: u64, nanos: u32) -> (r: Duration)
        requires
            nanos < 1_000_000_000,
        ensures
            r.wf(),
            r@ == secs * 1_000_000_000 + nanos,
    {
        Duration { secs, nanos }
    }

    /// Builds a duration of `ms` milliseconds.
    pub fn from_millis(ms: u64) -> (r: Duration)
        ensures
            r.wf(),
            r@ == ms * 1_000_000,
    {
        let secs: u64 = ms / 1000;
        let rem: u64 = ms % 1000;
        let nanos: u32 = (rem as u32) * 1_000_000;
        proof {
            vstd::arithmetic::div_mod::lemma_fundamental_div_mod(ms as int, 1000);
            assert(secs * 1_000_000_000 + nanos == ms * 1_000_000);
        }
        Duration { secs, nanos }
    }

    /// The whole-second part of the duration.
    pub fn secs(&self) -> (r: u64)
        requires
            self.wf(),
        ensures
            r == self@ / 1_000_000_000,
    {
        proof {
            vstd::arithmetic::div_mod::lemma_fundamental_div_mod_converse(
                self@, 1_000_000_000, self.secs as int, self.nanos as int);
        }
        self.secs
    }

    /// The sub-second part of the duration, in nanoseconds.
    pub fn subsec_nanos(&self) -> (r: u32)
        requires
            self.wf(),
        ensures
            r == self@ % 1_000_000_000,
    {
        proof {
            vstd::arithmetic::div_mod::lemma_fundamental_div_mod_converse(
                self@, 1_000_000_000, self.secs as int, self.nanos as int);
        }
        self.nanos
    }

    /// Whether `self` is at most `other`.
    pub fn le(&self, other: &Duration) -> (r: bool)
        requires
            self.wf(),
            other.wf(),
        ensures
            r == (self@ <= other@),
    {
        proof {
            lemma_view_order(*self, *other);
        }
        if self.secs != other.secs {
            self.secs < other.secs
        } else {
            self.nanos <= other.nanos
        }
    }

    /// Whether `self` is strictly below `other`.
    pub fn lt(&self, other: &Duration) -> (r: bool)
        requires
            self.wf(),
            other.wf(),
        ensures
            r == (self@ < other@),
    {
        proof {
            lemma_view_order(*self, *other);
            lemma_view_order(*other, *self);
        }
        if self.secs != other.secs {
            self.secs < other.secs
        } else {
            self.nanos < other.nanos
        }
    }

    /// The difference `self - other`, or `None` when `other` is larger.
    pub fn checked_sub(&self, other: &Duration) -> (r: Option<Duration>)
        requires
            self.wf(),
            other.wf(),
        ensures
            r is Some <==> self@ >= other@,
            r matches Some(d) ==> d.wf() && d@ == self@ - other@,
    {
        proof {
            lemma_view_order(*self, *other);
            lemma_view_order(*other, *self);
        }
        if self.secs < other.secs {
            None
        } else if self.secs == other.secs && self.nanos < other.nanos {
            None
        } else if self.nanos >= other.nanos {
            Some(Duration { secs: self.secs - other.secs, nanos: self.nanos - other.nanos })
        } else {
            Some(Duration {
                secs: self.secs - other.secs - 1,
                nanos: self.nanos + 1_000_000_000 - other.nanos,
            })
        }
    }
}

/// The view (total nanoseconds) orders durations exactly as the
/// lexicographic order on the (seconds, nanoseconds) pair does.
proof fn lemma_view_order(a: Duration, b: Duration)
    requires
        a.wf(),
        b.wf(),
    ensures
        (a@ <= b@) <==> (a.secs < b.secs || (a.secs == b.secs && a.nanos <= b.nanos)),
{
    if a.secs < b.secs {
        assert((a.secs + 1) * 1_000_000_000 <= b.secs * 1_000_000_000) by (nonlinear_arith)
            requires
                a.secs < b.secs,
        ;
    }
    if a.secs > b.secs {
        assert((b.secs + 1) * 1_000_000_000 <= a.secs * 1_000_000_000) by (nonlinear_arith)
            requires
                b.secs < a.secs,
        ;
    }
}

} // verus!
