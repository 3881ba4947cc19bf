//! Properties of the classifier that hold for every map, seed, transient
//! length and sample bound.

use vstd::prelude::*;

use crate::behavior::Behavior;
use crate::behavior::behavior_equivalent;
use crate::behavior::behavior_matches;
use crate::behavior::chaotic_outcome;
use crate::behavior::close_to_some;
use crate::behavior::convergent_outcome;
use crate::behavior::cyclic_outcome;
use crate::behavior::distinguishable;
use crate::close::CloseEnough;
use crate::iterate::IterableFunction;
use crate::iterate::iterate;
use crate::iterate::window;

verus! {

/// The distinguishable collection of a window is never larger than the
/// window, and never empty when the window is not.
pub proof fn lemma_distinguishable_len<T: CloseEnough>(win: Seq<T>)
    ensures
        distinguishable(win).len() <= win.len(),
        win.len() > 0 ==> distinguishable(win).len() >= 1,
    decreases win.len(),
{
    if win.len() > 0 {
        lemma_distinguishable_len(win.drop_last());
    }
}

/// Determinism: the classification contract pins the result down, so any
/// two results reached for the same map, seed, transient length and sample
/// bound report the same behavior.
pub proof fn lemma_classify_deterministic<T, F>(
    f: F,
    start: T,
    skip: nat,
    max: nat,
    b1: Behavior<T>,
    b2: Behavior<T>,
) where T: CloseEnough, F: IterableFunction<T>
    requires
        behavior_matches(b1, distinguishable(window(f, start, skip, max)), max),
        behavior_matches(b2, distinguishable(window(f, start, skip, max)), max),
    ensures
        behavior_equivalent(b1, b2),
{
}

/// Exhaustiveness and exclusivity: for any distinguishable collection and
/// sample bound, exactly one of the three outcomes holds.
pub proof fn lemma_outcomes_partition<T>(d: Seq<T>, max: nat)
    ensures
        convergent_outcome(d) || chaotic_outcome(d, max) || cyclic_outcome(d, max),
        !(convergent_outcome(d) && chaotic_outcome(d, max)),
        !(convergent_outcome(d) && cyclic_outcome(d, max)),
        !(chaotic_outcome(d, max) && cyclic_outcome(d, max)),
{
}

/// The tag of a classified behavior is decided by its outcome alone: a
/// result meeting the classification contract carries the convergence tag
/// exactly on a convergent outcome, and so for the other two.
pub proof fn lemma_behavior_tag_determined<T>(b: Behavior<T>, d: Seq<T>, max: nat)
    requires
        behavior_matches(b, d, max),
    ensures
        b.is_convergence() <==> convergent_outcome(d),
        b.is_chaos() <==> chaotic_outcome(d, max),
        b.is_cycle() <==> cyclic_outcome(d, max),
{
}

/// With a sample bound of one, the classifier never reports a cycle: the
/// single sample is always a convergence.
pub proof fn lemma_single_sample_never_cycle<T, F>(
    f: F,
    start: T,
    skip: nat,
    b: Behavior<T>,
) where T: CloseEnough, F: IterableFunction<T>
    requires
        behavior_matches(b, distinguishable(window(f, start, skip, 1)), 1),
    ensures
        b.is_convergence(),
        !b.is_cycle(),
{
    let w = window(f, start, skip, 1);
    assert(w.len() == 1);
    lemma_distinguishable_len(w);
}

/// Every iterate of a map from a fixed point of that map is the fixed point
/// itself.
pub proof fn lemma_iterate_fixed_point<T, F>(f: F, start: T, n: nat) where
    F: IterableFunction<T>,

    requires
        f.apply_spec(start) == start,
    ensures
        iterate(f, start, n) == start,
    decreases n,
{
    if n > 0 {
        lemma_iterate_fixed_point(f, start, (n - 1) as nat);
    }
}

/// The distinguishable collection of a non-empty window whose elements are
/// all one value is that value alone.
proof fn lemma_distinguishable_constant<T: CloseEnough>(w: Seq<T>, v: T)
    requires
        w.len() >= 1,
        forall|i: int| 0 <= i < w.len() ==> w[i] == v,
    ensures
        distinguishable(w) == seq![v],
    decreases w.len(),
{
    if w.len() == 1 {
        reveal_with_fuel(distinguishable, 2);
        assert(!close_to_some(Seq::<T>::empty(), w.last()));
        assert(distinguishable(w) =~= seq![v]);
    } else {
        lemma_distinguishable_constant(w.drop_last(), v);
        T::lemma_close_reflexive(&v);
        assert(seq![v][0].close_spec(&v));
        assert(close_to_some(seq![v], w.last()));
    }
}

/// A seed that its map holds fixed is classified as a convergence to that
/// seed, whatever the transient length and whatever the sample bound, as
/// long as at least one sample is taken: every sampled value is the seed,
/// so the distinguishable collection has size one.
pub proof fn lemma_fixed_point_convergence<T, F>(
    f: F,
    start: T,
    skip: nat,
    max: nat,
    b: Behavior<T>,
) where T: CloseEnough, F: IterableFunction<T>
    requires
        f.apply_spec(start) == start,
        max >= 1,
        behavior_matches(b, distinguishable(window(f, start, skip, max)), max),
    ensures
        b == Behavior::Convergence(start),
{
    let w = window(f, start, skip, max);
    assert forall|i: int| 0 <= i < w.len() implies w[i] == start by {
        lemma_iterate_fixed_point(f, start, (skip + i + 1) as nat);
    }
    lemma_distinguishable_constant(w, start);
}

/// A non-empty window whose elements all fall in the first element's
/// rounding bucket retains the first element alone.
proof fn lemma_distinguishable_settled<T: CloseEnough>(w: Seq<T>)
    requires
        w.len() >= 1,
        forall|i: int| 0 <= i < w.len() ==> w[0].close_spec(&w[i]),
    ensures
        distinguishable(w) == seq![w[0]],
    decreases w.len(),
{
    if w.len() == 1 {
        reveal_with_fuel(distinguishable, 2);
        assert(!close_to_some(Seq::<T>::empty(), w.last()));
        assert(distinguishable(w) =~= seq![w[0]]);
    } else {
        let prefix = w.drop_last();
        assert forall|i: int| 0 <= i < prefix.len() implies prefix[0].close_spec(&prefix[i]) by {
            assert(prefix[0] == w[0] && prefix[i] == w[i]);
        }
        lemma_distinguishable_settled(prefix);
        assert(seq![w[0]][0].close_spec(&w.last()));
        assert(close_to_some(seq![w[0]], w.last()));
    }
}

/// The convergence case: when every sample lies within the rounding
/// resolution of the first sample — the tail has settled into a single
/// bucket — the classifier reports convergence to the first sample,
/// whatever the sample bound, as long as at least one sample is taken.
pub proof fn lemma_settled_window_convergence<T, F>(
    f: F,
    start: T,
    skip: nat,
    max: nat,
    b: Behavior<T>,
) where T: CloseEnough, F: IterableFunction<T>
    requires
        max >= 1,
        forall|i: int|
            0 <= i < max ==> window(f, start, skip, max)[0].close_spec(
                &window(f, start, skip, max)[i],
            ),
        behavior_matches(b, distinguishable(window(f, start, skip, max)), max),
    ensures
        b == Behavior::Convergence(iterate(f, start, (skip + 1) as nat)),
{
    let w = window(f, start, skip, max);
    lemma_distinguishable_settled(w);
}

/// A window whose elements are pairwise distinguishable is retained whole.
proof fn lemma_distinguishable_pairwise<T: CloseEnough>(w: Seq<T>)
    requires
        forall|i: int, j: int| 0 <= i < j < w.len() ==> !(#[trigger] w[i].close_spec(&w[j])),
    ensures
        distinguishable(w) == w,
    decreases w.len(),
{
    if w.len() == 0 {
        assert(distinguishable(w) =~= w);
    } else {
        let prefix = w.drop_last();
        assert forall|i: int, j: int| 0 <= i < j < prefix.len() implies !(#[trigger] prefix[i].close_spec(&prefix[j])) by {
            assert(prefix[i] == w[i] && prefix[j] == w[j]);
        }
        lemma_distinguishable_pairwise(prefix);
        assert forall|j: int| 0 <= j < prefix.len() implies !prefix[j].close_spec(&w.last()) by {
            assert(prefix[j] == w[j]);
            assert(!w[j].close_spec(&w[w.len() - 1]));
        }
        assert(!close_to_some(prefix, w.last()));
        assert(distinguishable(w) =~= w);
    }
}

/// Chaos saturation: when every pair of samples in the window is
/// distinguishable and more than one sample is taken, the classifier
/// reports chaos — the distinguishable collection fills the whole window.
pub proof fn lemma_pairwise_distinct_chaos<T, F>(
    f: F,
    start: T,
    skip: nat,
    max: nat,
    b: Behavior<T>,
) where T: CloseEnough, F: IterableFunction<T>
    requires
        max >= 2,
        forall|i: int, j: int|
            0 <= i < j < max ==> !(#[trigger] window(f, start, skip, max)[i].close_spec(
                &window(f, start, skip, max)[j],
            )),
        behavior_matches(b, distinguishable(window(f, start, skip, max)), max),
    ensures
        b.is_chaos(),
{
    let w = window(f, start, skip, max);
    lemma_distinguishable_pairwise(w);
}

} // verus!
