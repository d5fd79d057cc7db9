//! A minimum-hold filter: a new value is committed only after it has been
//! presented continuously for at least `min_hold` nanoseconds.
use vstd::prelude::*;
use vstd::std_specs::cmp::PartialEqSpec;

verus! {

/// The abstract state of a [`Hysteresis`] filter.
pub struct HysteresisView<T> {
    pub committed: T,
    /// The value waiting to be committed and the time (ns) it was first seen.
    pub pending: Option<(T, u64)>,
    /// Minimum hold time, in nanoseconds.
    pub min_hold: u64,
}

/// Time elapsed between `since` and `now`, saturating at zero when `now`
/// lies before `since`.
pub open spec fn held_for(now: u64, since: u64) -> int {
    if now >= since {
        now - since
    } else {
        0
    }
}

/// One step of the filter: what the state becomes when `candidate` is
/// presented at time `now`. Equality is the one `T`'s `==` computes.
pub open spec fn next_state<T: PartialEq>(
    s: HysteresisView<T>,
    candidate: T,
    now: u64,
) -> HysteresisView<T> {
    if candidate.eq_spec(&s.committed) {
        HysteresisView { committed: s.committed, pending: None, min_hold: s.min_hold }
    } else {
        match s.pending {
            Some(p) => {
                if p.0.eq_spec(&candidate) {
                    if held_for(now, p.1) >= s.min_hold {
                        HysteresisView { committed: candidate, pending: None, min_hold: s.min_hold }
                    } else {
                        s
                    }
                } else {
                    HysteresisView {
                        committed: s.committed,
                        pending: Some((candidate, now)),
                        min_hold: s.min_hold,
                    }
                }
            },
            None => HysteresisView {
                committed: s.committed,
                pending: Some((candidate, now)),
                min_hold: s.min_hold,
            },
        }
    }
}

/// Cloning a `T` gives an equal value.
pub open spec fn clone_is_exact<T: Clone>() -> bool {
    forall|a: T, b: T| #[trigger] vstd::pervasive::strictly_cloned(a, b) ==> a == b
}

/// `T`'s `==` is spec equality.
pub open spec fn eq_is_identity<T: PartialEq>() -> bool {
    forall|x: T, y: T| #[trigger] x.eq_spec(&y) <==> x == y
}

#[derive(Debug)]
pub struct Hysteresis<T> {
    committed: T,
    pending: Option<(T, u64)>,
    min_hold: u64,
}

impl<T> View for Hysteresis<T> {
    type V = HysteresisView<T>;

    closed spec fn view(&self) -> HysteresisView<T> {
        HysteresisView { committed: self.committed, pending: self.pending, min_hold: self.min_hold }
    }
}

impl<T: PartialEq + Clone> Hysteresis<T> {
    /// A filter committed to `initial`, with nothing pending.
    pub fn new(initial: T, min_hold: u64) -> (h: Self)
        ensures
            h@ == (HysteresisView { committed: initial, pending: None, min_hold }),
    {
        Hysteresis { committed: initial, pending: None, min_hold }
    }

    /// The value currently committed.
    pub fn committed(&self) -> (c: &T)
        ensures
            *c == self@.committed,
    {
        &self.committed
    }

    /// Presents `candidate` at time `now` (ns) and returns a clone of the
    /// value committed afterwards.
    pub fn update(&mut self, candidate: T, now: u64) -> (out: T)
        ensures
            T::obeys_eq_spec() ==> final(self)@ == next_state(old(self)@, candidate, now),
            final(self)@.min_hold == old(self)@.min_hold,
            final(self)@.committed == old(self)@.committed || final(self)@.committed == candidate,
            cloned(final(self)@.committed, out),
            clone_is_exact::<T>() ==> out == final(self)@.committed,
    {
        if candidate == self.committed {
            self.pending = None;
            let out = self.committed.clone();
            proof {
                if vstd::pervasive::strictly_cloned(self.committed, out) {
                    assert(clone_is_exact::<T>() ==> out == self.committed);
                }
            }
            return out;
        }
        let (same_as_pending, since) = match &self.pending {
            Some(p) => (p.0 == candidate, p.1),
            None => (false, 0),
        };
        if same_as_pending {
            let held: u64 = if now >= since {
                now - since
            } else {
                0
            };
            if held >= self.min_hold {
                self.committed = candidate;
                self.pending = None;
            }
        } else {
            self.pending = Some((candidate, now));
        }
        let out = self.committed.clone();
        proof {
            if vstd::pervasive::strictly_cloned(self.committed, out) {
                assert(clone_is_exact::<T>() ==> out == self.committed);
            }
        }
        out
    }
}

/// Presenting the committed value again keeps it and drops whatever was
/// pending.
pub proof fn lemma_committed_value_is_stable<T: PartialEq>(s: HysteresisView<T>, now: u64)
    requires
        eq_is_identity::<T>(),
    ensures
        next_state(s, s.committed, now).committed == s.committed,
        next_state(s, s.committed, now).pending is None,
{
    assert(s.committed.eq_spec(&s.committed));
}

/// A change of the committed value happens only when the candidate has been
/// pending since a time at least `min_hold` before now.
pub proof fn lemma_commit_requires_hold<T: PartialEq>(
    s: HysteresisView<T>,
    candidate: T,
    now: u64,
)
    requires
        next_state(s, candidate, now).committed != s.committed,
    ensures
        next_state(s, candidate, now).committed == candidate,
        s.pending is Some,
        s.pending.unwrap().0.eq_spec(&candidate),
        held_for(now, s.pending.unwrap().1) >= s.min_hold,
{
}

/// A value that differs from the committed one and from the pending one is
/// committed once it is presented again at least `min_hold` later.
pub proof fn lemma_commit_after_hold<T: PartialEq>(
    s: HysteresisView<T>,
    candidate: T,
    t0: u64,
    t1: u64,
)
    requires
        eq_is_identity::<T>(),
        candidate != s.committed,
        s.pending is None || s.pending.unwrap().0 != candidate,
        t1 >= t0,
        t1 - t0 >= s.min_hold,
    ensures
        next_state(s, candidate, t0).committed == s.committed,
        next_state(next_state(s, candidate, t0), candidate, t1).committed == candidate,
{
    assert(!candidate.eq_spec(&s.committed));
    if s.pending is Some {
        assert(!s.pending.unwrap().0.eq_spec(&candidate));
    }
    let s1 = next_state(s, candidate, t0);
    assert(s1.pending == Some((candidate, t0)));
    assert(candidate.eq_spec(&candidate));
}

/// Every commit needs two consecutive presentations: right after a different
/// value `other` was presented, presenting `candidate` never commits it,
/// however much time has passed.
pub proof fn lemma_first_sighting_never_commits<T: PartialEq>(
    s: HysteresisView<T>,
    other: T,
    t0: u64,
    candidate: T,
    t1: u64,
)
    requires
        eq_is_identity::<T>(),
        other != candidate,
    ensures
        next_state(next_state(s, other, t0), candidate, t1).committed == next_state(
            s,
            other,
            t0,
        ).committed,
{
    let s1 = next_state(s, other, t0);
    if s1.pending is Some {
        assert(s1.pending.unwrap().0 == other);
        assert(!other.eq_spec(&candidate));
    }
}

/// The state after presenting each `(value, time)` of `inputs` in turn.
pub open spec fn run_inputs<T: PartialEq>(s: HysteresisView<T>, inputs: Seq<(T, u64)>) -> HysteresisView<T>
    decreases inputs.len(),
{
    if inputs.len() == 0 {
        s
    } else {
        run_inputs(next_state(s, inputs[0].0, inputs[0].1), inputs.drop_first())
    }
}

/// A signal that changes at every update never changes the committed value:
/// when no two consecutive inputs are equal, and the first input is not what
/// is already pending, the committed value stays as it was, whatever the
/// timing.
pub proof fn lemma_flicker_never_commits<T: PartialEq>(s: HysteresisView<T>, inputs: Seq<(T, u64)>)
    requires
        eq_is_identity::<T>(),
        inputs.len() > 0 ==> (s.pending is None || s.pending.unwrap().0 != inputs[0].0),
        forall|k: int| 0 <= k < inputs.len() - 1 ==> #[trigger] inputs[k].0 != inputs[k + 1].0,
    ensures
        run_inputs(s, inputs).committed == s.committed,
    decreases inputs.len(),
{
    if inputs.len() > 0 {
        let c = inputs[0].0;
        let s1 = next_state(s, c, inputs[0].1);
        if s.pending is Some {
            assert(!s.pending.unwrap().0.eq_spec(&c));
        }
        assert(s1.committed == s.committed);
        let rest = inputs.drop_first();
        assert forall|k: int| 0 <= k < rest.len() - 1 implies #[trigger] rest[k].0 != rest[k + 1].0 by {
            assert(inputs[k + 1].0 != inputs[k + 2].0);
        }
        if rest.len() > 0 {
            assert(inputs[0].0 != inputs[1].0);
            if s1.pending is Some {
                assert(s1.pending.unwrap().0 == c);
            }
        }
        lemma_flicker_never_commits(s1, rest);
    }
}

proof fn lemma_sustained_step<T: PartialEq>(
    s: HysteresisView<T>,
    c: T,
    t0: u64,
    inputs: Seq<(T, u64)>,
)
    requires
        eq_is_identity::<T>(),
        s.committed == c || s.pending == Some((c, t0)),
        forall|k: int| 0 <= k < inputs.len() ==> #[trigger] inputs[k].0 == c,
    ensures
        run_inputs(s, inputs).committed == c || run_inputs(s, inputs).pending == Some((c, t0)),
        inputs.len() > 0 && held_for(inputs.last().1, t0) >= s.min_hold ==> run_inputs(
            s,
            inputs,
        ).committed == c,
    decreases inputs.len(),
{
    if inputs.len() > 0 {
        assert(inputs[0].0 == c);
        assert(c.eq_spec(&c));
        let s1 = next_state(s, c, inputs[0].1);
        let rest = inputs.drop_first();
        assert forall|k: int| 0 <= k < rest.len() implies #[trigger] rest[k].0 == c by {
            assert(inputs[k + 1].0 == c);
        }
        if rest.len() > 0 {
            assert(rest.last() == inputs.last());
        }
        lemma_sustained_step(s1, c, t0, rest);
    }
}

/// A value presented at every update is committed once the last update
/// comes at least `min_hold` after the first, provided it was neither
/// committed nor pending before and it was presented at least twice.
pub proof fn lemma_sustained_signal_commits<T: PartialEq>(
    s: HysteresisView<T>,
    c: T,
    inputs: Seq<(T, u64)>,
)
    requires
        eq_is_identity::<T>(),
        c != s.committed,
        s.pending is None || s.pending.unwrap().0 != c,
        inputs.len() >= 2,
        forall|k: int| 0 <= k < inputs.len() ==> #[trigger] inputs[k].0 == c,
        held_for(inputs.last().1, inputs[0].1) >= s.min_hold,
    ensures
        run_inputs(s, inputs).committed == c,
{
    assert(inputs[0].0 == c);
    assert(!c.eq_spec(&s.committed));
    if s.pending is Some {
        assert(!s.pending.unwrap().0.eq_spec(&c));
    }
    let t0 = inputs[0].1;
    let s1 = next_state(s, c, t0);
    assert(s1.pending == Some((c, t0)));
    let rest = inputs.drop_first();
    assert forall|k: int| 0 <= k < rest.len() implies #[trigger] rest[k].0 == c by {
        assert(inputs[k + 1].0 == c);
    }
    assert(rest.last() == inputs.last());
    lemma_sustained_step(s1, c, t0, rest);
}

/// The update rule spelled out: the committed value changes exactly when
/// the candidate differs from it, is the pending value, and has been pending
/// for at least `min_hold`; the pending entry is dropped when the candidate
/// is the committed value or gets committed, kept while it is held back, and
/// replaced by `(candidate, now)` otherwise.
pub proof fn lemma_update_rule<T: PartialEq>(s: HysteresisView<T>, candidate: T, now: u64)
    requires
        eq_is_identity::<T>(),
    ensures
        next_state(s, candidate, now).min_hold == s.min_hold,
        next_state(s, candidate, now).committed == s.committed || next_state(
            s,
            candidate,
            now,
        ).committed == candidate,
        (next_state(s, candidate, now).committed != s.committed) <==> (candidate != s.committed
            && s.pending is Some && s.pending.unwrap().0 == candidate && held_for(
            now,
            s.pending.unwrap().1,
        ) >= s.min_hold),
        next_state(s, candidate, now).pending == (if candidate == s.committed {
            None
        } else if s.pending is Some && s.pending.unwrap().0 == candidate {
            if held_for(now, s.pending.unwrap().1) >= s.min_hold {
                None
            } else {
                s.pending
            }
        } else {
            Some((candidate, now))
        }),
{
    assert(candidate.eq_spec(&s.committed) == (candidate == s.committed));
    if s.pending is Some {
        assert(s.pending.unwrap().0.eq_spec(&candidate) == (s.pending.unwrap().0 == candidate));
    }
}

} // verus!
