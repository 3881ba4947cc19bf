//! The behavior classifier: consume a bounded window of the iteration
//! sequence after a transient prefix and decide whether the tail converges,
//! cycles, or shows no repetition within the window.

use vstd::prelude::*;

use crate::close::CloseEnough;
use crate::close::Fixed;
use crate::close::round_to_resolution;
use crate::close::rounded_to_resolution;
use crate::iterate::IterableFunction;
use crate::iterate::RecursiveFunction;
use crate::iterate::RecursiveIterator;
use crate::iterate::iterate;
use crate::iterate::window;

verus! {

/// How many leading iterates `end_behavior` discards before sampling, so
/// that the system has settled near its attractor.
pub const TRANSIENT_SKIP: usize = 10000;

/// The classified long-run behavior of an iterated map.
#[derive(Debug, PartialEq, Eq)]
pub enum Behavior<T> {
    /// The sampled tail collapses to a single distinguishable value.
    Convergence(T),
    /// The sampled tail repeats among more than one distinguishable value;
    /// the values are kept in first-seen order.
    Cycle(Vec<T>),
    /// Every sampled value was distinguishable from every other: no
    /// repetition was observed within the window.
    Chaos,
}

impl<T> Behavior<T> {
    pub open spec fn is_convergence(&self) -> bool {
        match *self {
            Behavior::Convergence(_) => true,
            _ => false,
        }
    }

    pub open spec fn is_cycle(&self) -> bool {
        match *self {
            Behavior::Cycle(_) => true,
            _ => false,
        }
    }

    pub open spec fn is_chaos(&self) -> bool {
        match *self {
            Behavior::Chaos => true,
            _ => false,
        }
    }
}

/// Whether some element of `s` is approximately equal to `v`.
pub open spec fn close_to_some<T: CloseEnough>(s: Seq<T>, v: T) -> bool {
    exists|j: int| 0 <= j < s.len() && s[j].close_spec(&v)
}

/// The ordered collection of distinguishable values in `win`: each window
/// element is kept exactly when it is not approximately equal to any value
/// kept before it, so the collection is in first-seen order.
pub open spec fn distinguishable<T: CloseEnough>(win: Seq<T>) -> Seq<T>
    decreases win.len(),
{
    if win.len() == 0 {
        Seq::empty()
    } else {
        let prefix = distinguishable(win.drop_last());
        if close_to_some(prefix, win.last()) {
            prefix
        } else {
            prefix.push(win.last())
        }
    }
}

/// The outcome of a window whose distinguishable values are `d`: the tail
/// collapsed to a single value.
pub open spec fn convergent_outcome<T>(d: Seq<T>) -> bool {
    d.len() == 1
}

/// The outcome of a window whose distinguishable values are `d` under a
/// sample bound of `max`: every sample was distinguishable, so no repetition
/// was observed.
pub open spec fn chaotic_outcome<T>(d: Seq<T>, max: nat) -> bool {
    d.len() != 1 && d.len() == max
}

/// The outcome of a window whose distinguishable values are `d` under a
/// sample bound of `max`: a repeating set of more than one value.
pub open spec fn cyclic_outcome<T>(d: Seq<T>, max: nat) -> bool {
    d.len() != 1 && d.len() != max
}

/// What a returned `Behavior` says of a window whose distinguishable values
/// are `d`, sampled under the bound `max`: the tag is decided by the size of
/// `d`, and the payload carries the collected values.
pub open spec fn behavior_matches<T>(b: Behavior<T>, d: Seq<T>, max: nat) -> bool {
    match b {
        Behavior::Convergence(v) => convergent_outcome(d) && v == d[0],
        Behavior::Chaos => chaotic_outcome(d, max),
        Behavior::Cycle(vals) => cyclic_outcome(d, max) && vals@ == d,
    }
}

/// Whether `b1` and `b2` report the same behavior: the same tag, and the
/// same payload (the same value for a convergence, the same values in the
/// same order for a cycle).
pub open spec fn behavior_equivalent<T>(b1: Behavior<T>, b2: Behavior<T>) -> bool {
    match (b1, b2) {
        (Behavior::Convergence(v1), Behavior::Convergence(v2)) => v1 == v2,
        (Behavior::Cycle(c1), Behavior::Cycle(c2)) => c1@ == c2@,
        (Behavior::Chaos, Behavior::Chaos) => true,
        _ => false,
    }
}

/// Whether some element of `vals` is approximately equal to `v`.
fn contains_close<T: Copy + CloseEnough>(vals: &Vec<T>, v: &T) -> (r: bool)
    ensures
        r == close_to_some(vals@, *v),
{
    let mut k: usize = 0;
    while k < vals.len()
        invariant
            k <= vals@.len(),
            forall|m: int| 0 <= m < k ==> !vals@[m].close_spec(v),
        decreases vals@.len() - k,
    {
        if vals[k].close_enough_to(v) {
            return true;
        }
        k = k + 1;
    }
    false
}

/// Runs the full algorithm: iterate `func` from `start`, discard the first
/// `skip_count` produced values, pull up to `max_samples` further values in
/// order, collect the distinguishable ones among them in first-seen order,
/// and classify by the size of that collection — one value means
/// convergence, `max_samples` values mean no observed repetition (chaos),
/// anything in between is a cycle carrying the collected values.
///
/// Edge cases: with `max_samples == 1` the single sample is its own whole
/// collection, so the result is a convergence and never a cycle; with
/// `max_samples == 0` nothing is sampled and the empty collection fills the
/// whole (empty) window, which reads as chaos.
pub fn classify<T, F>(func: &F, start: T, skip_count: usize, max_samples: usize) -> (b: Behavior<
    T,
>) where
    T: Copy + CloseEnough,
    F: IterableFunction<T>,

    ensures
        behavior_matches(
            b,
            distinguishable(window(*func, start, skip_count as nat, max_samples as nat)),
            max_samples as nat,
        ),
{
    let mut it = RecursiveIterator::new(func, start);
    let mut i: usize = 0;
    while i < skip_count
        invariant
            i <= skip_count,
            it.func_spec() == *func,
            it.current_spec() == iterate(*func, start, i as nat),
        decreases skip_count - i,
    {
        let _ = it.next();
        i = i + 1;
    }
    let mut vals: Vec<T> = Vec::new();
    let mut j: usize = 0;
    while j < max_samples
        invariant
            j <= max_samples,
            it.func_spec() == *func,
            it.current_spec() == iterate(*func, start, (skip_count + j) as nat),
            vals@ == distinguishable(window(*func, start, skip_count as nat, j as nat)),
        decreases max_samples - j,
    {
        let v = match it.next() {
            Some(v) => v,
            None => unreached(),
        };
        proof {
            let w_next = window(*func, start, skip_count as nat, (j + 1) as nat);
            assert(w_next.drop_last() =~= window(*func, start, skip_count as nat, j as nat));
            assert(w_next.last() == v);
        }
        if !contains_close(&vals, &v) {
            vals.push(v);
        }
        j = j + 1;
    }
    if vals.len() == 1 {
        Behavior::Convergence(vals[0])
    } else if vals.len() == max_samples {
        Behavior::Chaos
    } else {
        Behavior::Cycle(vals)
    }
}

/// How many leading iterates `num_cycles` discards before sampling.
pub const COUNT_SKIP: usize = 1000;

/// How many samples `num_cycles` draws after its transient.
pub const COUNT_SAMPLES: usize = 50;

/// The distinct bucket representatives in `win`, in first-seen order: each
/// window element is rounded to the classification resolution, and the
/// rounded value is kept exactly when it has not been kept before.
pub open spec fn rounded_distinct(win: Seq<Fixed>) -> Seq<Fixed>
    decreases win.len(),
{
    if win.len() == 0 {
        Seq::empty()
    } else {
        let prefix = rounded_distinct(win.drop_last());
        let r = Fixed { nanos: rounded_to_resolution(win.last().nanos as int) as i64 };
        if prefix.contains(r) {
            prefix
        } else {
            prefix.push(r)
        }
    }
}

/// Whether `nums` holds `r`.
fn contains_fixed(nums: &Vec<Fixed>, r: Fixed) -> (b: bool)
    ensures
        b == nums@.contains(r),
{
    let mut k: usize = 0;
    while k < nums.len()
        invariant
            k <= nums@.len(),
            forall|m: int| 0 <= m < k ==> nums@[m] != r,
        decreases nums@.len() - k,
    {
        if nums[k] == r {
            return true;
        }
        k = k + 1;
    }
    false
}

/// Counts how many rounding buckets the sampled tail visits: the size of
/// the set of distinct representatives among `COUNT_SAMPLES` samples taken
/// after a transient of `COUNT_SKIP` iterates.
pub fn num_cycles<F: IterableFunction<Fixed>>(func: F, start: Fixed) -> (n: usize)
    ensures
        n == rounded_distinct(window(func, start, COUNT_SKIP as nat, COUNT_SAMPLES as nat)).len(),
{
    let mut it = RecursiveIterator::new(&func, start);
    let mut i: usize = 0;
    while i < COUNT_SKIP
        invariant
            i <= COUNT_SKIP,
            it.func_spec() == func,
            it.current_spec() == iterate(func, start, i as nat),
        decreases COUNT_SKIP - i,
    {
        let _ = it.next();
        i = i + 1;
    }
    let mut nums: Vec<Fixed> = Vec::new();
    let mut j: usize = 0;
    while j < COUNT_SAMPLES
        invariant
            j <= COUNT_SAMPLES,
            it.func_spec() == func,
            it.current_spec() == iterate(func, start, (COUNT_SKIP + j) as nat),
            nums@ == rounded_distinct(window(func, start, COUNT_SKIP as nat, j as nat)),
        decreases COUNT_SAMPLES - j,
    {
        let v = match it.next() {
            Some(v) => v,
            None => unreached(),
        };
        proof {
            let w_next = window(func, start, COUNT_SKIP as nat, (j + 1) as nat);
            assert(w_next.drop_last() =~= window(func, start, COUNT_SKIP as nat, j as nat));
            assert(w_next.last() == v);
        }
        let r = round_to_resolution(v);
        if !contains_fixed(&nums, r) {
            nums.push(r);
        }
        j = j + 1;
    }
    nums.len()
}

impl<T, F> RecursiveFunction<T, F> where T: Copy + CloseEnough, F: IterableFunction<T> {
    /// Classifies this system's long-run behavior from a window of up to
    /// `max_cycles` samples taken after a transient of `TRANSIENT_SKIP`
    /// iterates.
    pub fn end_behavior(&self, max_cycles: usize) -> (b: Behavior<T>)
        ensures
            behavior_matches(
                b,
                distinguishable(
                    window(
                        self.func_spec(),
                        self.start_spec(),
                        TRANSIENT_SKIP as nat,
                        max_cycles as nat,
                    ),
                ),
                max_cycles as nat,
            ),
    {
        proof {
            self.lemma_fields();
        }
        classify(&self.func, self.start, TRANSIENT_SKIP, max_cycles)
    }
}

} // verus!
