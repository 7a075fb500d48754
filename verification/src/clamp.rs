//! The running-maximum clamp that gives a clock instance its monotonicity
//! guarantee: each update returns the larger of the fresh candidate and
//! everything returned before, so the sequence of returned values never
//! decreases.

use crate::duration::Duration;
use vstd::prelude::*;

verus! {

/// The value a clamp holding `last` returns when fed `candidate`:
/// whichever of the two is larger.
pub open spec fn spec_clamp(last: int, candidate: int) -> int {
    if candidate > last {
        candidate
    } else {
        last
    }
}

/// The sequence of values a clamp starting at `init` returns when fed the
/// candidates `cs` one after the other.
pub open spec fn clamp_run(init: int, cs: Seq<int>) -> Seq<int>
    decreases cs.len(),
{
    if cs.len() == 0 {
        Seq::empty()
    } else {
        let first = spec_clamp(init, cs[0]);
        seq![first] + clamp_run(first, cs.skip(1))
    }
}

/// Holds the largest duration ever returned for one clock instance; viewed
/// as that duration's total nanosecond count.
#[derive(Clone, Copy, Debug)]
pub struct MonotonicClamp {
    last: Duration,
}

impl View for MonotonicClamp {
    type V = int;

    closed spec fn view(&self) -> int {
        self.last@
    }
}

impl MonotonicClamp {
    /// The stored duration is well formed.
    pub closed spec fn wf(&self) -> bool {
        self.last.wf()
    }

    /// A fresh clamp, holding the zero duration as its initial sentinel.
    pub fn new() -> (r: MonotonicClamp)
        ensures
            r.wf(),
            r@ == 0,
    {
        MonotonicClamp { last: Duration::zero() }
    }

    /// Feeds one candidate: stores the larger of the candidate and the
    /// previous maximum, and returns the stored value.
    pub fn update(&mut self, candidate: Duration) -> (r: Duration)
        requires
            old(self).wf(),
            candidate.wf(),
        ensures
            final(self).wf(),
            r.wf(),
            r@ == spec_clamp(old(self)@, candidate@),
            final(self)@ == r@,
            r@ >= old(self)@,
            r@ >= candidate@,
    {
        if self.last.lt(&candidate) {
            self.last = candidate;
        }
        self.last
    }

    /// The largest duration returned so far.
    pub fn last(&self) -> (r: Duration)
        requires
            self.wf(),
        ensures
            r.wf(),
            r@ == self@,
    {
        self.last
    }
}

/// Every value a clamp run returns is at least the starting value, and the
/// returned sequence never decreases: for any starting value and any
/// sequence of candidates, later outputs are at least earlier ones.
pub proof fn lemma_clamp_run_monotonic(init: int, cs: Seq<int>)
    ensures
        clamp_run(init, cs).len() == cs.len(),
        forall|i: int| 0 <= i < cs.len() ==> #[trigger] clamp_run(init, cs)[i] >= init,
        forall|i: int, j: int|
            0 <= i <= j < cs.len() ==> clamp_run(init, cs)[i] <= clamp_run(init, cs)[j],
    decreases cs.len(),
{
    if cs.len() > 0 {
        let first = spec_clamp(init, cs[0]);
        lemma_clamp_run_monotonic(first, cs.skip(1));
        let out = clamp_run(init, cs);
        assert forall|i: int| 0 <= i < cs.len() implies #[trigger] out[i] >= init by {
            if i > 0 {
                assert(clamp_run(first, cs.skip(1))[i - 1] >= first);
            }
        }
        assert forall|i: int, j: int|
            0 <= i <= j < cs.len() implies out[i] <= out[j] by {
            if i == 0 && j > 0 {
                assert(clamp_run(first, cs.skip(1))[j - 1] >= first);
            }
        }
    }
}

/// Every value a clamp run returns is at least the candidate fed at that
/// step: clamping never loses a raw reading that was the largest so far.
pub proof fn lemma_clamp_run_at_least_candidate(init: int, cs: Seq<int>)
    ensures
        clamp_run(init, cs).len() == cs.len(),
        forall|i: int| 0 <= i < cs.len() ==> #[trigger] clamp_run(init, cs)[i] >= cs[i],
    decreases cs.len(),
{
    if cs.len() > 0 {
        let first = spec_clamp(init, cs[0]);
        lemma_clamp_run_at_least_candidate(first, cs.skip(1));
    }
}

/// The candidates (or outputs) of the instance tagged `which`, in order,
/// out of a tagged interleaving of two instances' candidates (or outputs).
pub open spec fn selected(events: Seq<(bool, int)>, which: bool) -> Seq<int>
    decreases events.len(),
{
    if events.len() == 0 {
        Seq::empty()
    } else {
        let rest = selected(events.skip(1), which);
        if events[0].0 == which {
            seq![events[0].1] + rest
        } else {
            rest
        }
    }
}

/// The tagged outputs of two clamp instances, starting at `a` and `b`,
/// fed the tagged candidates `events` in order: each event goes to the
/// instance its tag selects, and only that instance's state moves.
pub open spec fn interleaved_run(a: int, b: int, events: Seq<(bool, int)>) -> Seq<(bool, int)>
    decreases events.len(),
{
    if events.len() == 0 {
        Seq::empty()
    } else {
        let which = events[0].0;
        let c = events[0].1;
        if which {
            let out = spec_clamp(a, c);
            seq![(true, out)] + interleaved_run(out, b, events.skip(1))
        } else {
            let out = spec_clamp(b, c);
            seq![(false, out)] + interleaved_run(a, out, events.skip(1))
        }
    }
}

/// Prepending one tagged event keeps or drops its value in the selection
/// according to its tag.
proof fn lemma_selected_cons(e: (bool, int), s: Seq<(bool, int)>, which: bool)
    ensures
        selected(seq![e] + s, which) == if e.0 == which {
            seq![e.1] + selected(s, which)
        } else {
            selected(s, which)
        },
{
    assert((seq![e] + s).skip(1) =~= s);
    assert((seq![e] + s)[0] == e);
}

/// Independence of interleaved instances: when two clamp instances are
/// fed an arbitrarily interleaved sequence of candidates, the outputs of
/// each instance are exactly the outputs of running that instance alone
/// on its own candidates; the other instance influences nothing.
pub proof fn lemma_interleaved_run_independent(a: int, b: int, events: Seq<(bool, int)>)
    ensures
        selected(interleaved_run(a, b, events), true) == clamp_run(a, selected(events, true)),
        selected(interleaved_run(a, b, events), false) == clamp_run(b, selected(events, false)),
    decreases events.len(),
{
    if events.len() > 0 {
        let rest = events.skip(1);
        let which = events[0].0;
        let c = events[0].1;
        if which {
            let out = spec_clamp(a, c);
            lemma_interleaved_run_independent(out, b, rest);
            lemma_selected_cons((true, out), interleaved_run(out, b, rest), true);
            lemma_selected_cons((true, out), interleaved_run(out, b, rest), false);
            assert((seq![c] + selected(rest, true)).skip(1) =~= selected(rest, true));
            assert(clamp_run(a, selected(events, true)) == seq![out] + clamp_run(
                out,
                selected(rest, true),
            ));
        } else {
            let out = spec_clamp(b, c);
            lemma_interleaved_run_independent(a, out, rest);
            lemma_selected_cons((false, out), interleaved_run(a, out, rest), true);
            lemma_selected_cons((false, out), interleaved_run(a, out, rest), false);
            assert((seq![c] + selected(rest, false)).skip(1) =~= selected(rest, false));
            assert(clamp_run(b, selected(events, false)) == seq![out] + clamp_run(
                out,
                selected(rest, false),
            ));
        }
    }
}

/// The lower-bound guarantee one step of clamping preserves: when a fresh
/// raw reading exceeds the previously returned value by at least `d` (as a
/// correct platform timer guarantees after the caller has waited for `d`),
/// the newly returned value exceeds the previously returned one by at
/// least `d` as well.
pub proof fn lemma_clamp_lower_bound(last: int, candidate: int, d: int)
    requires
        candidate >= last + d,
        d >= 0,
    ensures
        spec_clamp(last, candidate) >= last + d,
{
}

} // verus!
