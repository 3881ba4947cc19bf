//! Generation of the iteration sequence: repeated application of a self-map
//! to a seed value. The sequence is conceptually infinite; consumers pull as
//! many elements as they need.

use vstd::prelude::*;

use crate::close::CloseEnough;

verus! {

/// A pure unary self-map of a numeric type: the function that is iterated.
/// A captured parameter (such as the coefficient of the logistic map) lives
/// in a field of the implementing struct, so the map is an explicit value
/// rather than an implicit closure capture.
pub trait IterableFunction<T> {
    /// The mathematical function this map computes.
    spec fn apply_spec(&self, x: T) -> T;

    /// Computes the map. Total: it returns a value for every input.
    fn apply(&self, x: T) -> (r: T)
        ensures
            r == self.apply_spec(x),
    ;
}

/// The `n`-th iterate of `f` from `start`: `iterate(f, start, 0) == start`
/// and `iterate(f, start, n + 1) == f(iterate(f, start, n))`.
pub open spec fn iterate<T, F: IterableFunction<T>>(f: F, start: T, n: nat) -> T
    decreases n,
{
    if n == 0 {
        start
    } else {
        f.apply_spec(iterate(f, start, (n - 1) as nat))
    }
}

/// The sample window: `count` successive iterates of `f` from `start`, in
/// order, beginning after the seed and `skip` further transient terms. The
/// seed itself is never sampled; element `i` of the window is iterate number
/// `skip + i + 1`.
pub open spec fn window<T, F: IterableFunction<T>>(f: F, start: T, skip: nat, count: nat) -> Seq<
    T,
> {
    Seq::new(count, |i: int| iterate(f, start, (skip + i + 1) as nat))
}

/// A lazy producer of the iteration sequence `f(x0), f(f(x0)), ...` for a
/// borrowed map `f` and seed `x0`. The seed itself is not emitted.
pub struct RecursiveIterator<'a, T, F> where T: Copy, F: IterableFunction<T> {
    current: T,
    func: &'a F,
}

impl<'a, T, F> RecursiveIterator<'a, T, F> where T: Copy, F: IterableFunction<T> {
    /// The value the iterator last produced (or the seed, before any call).
    pub closed spec fn current_spec(&self) -> T {
        self.current
    }

    /// The map being iterated.
    pub closed spec fn func_spec(&self) -> F {
        *self.func
    }

    pub fn new(func: &'a F, start: T) -> (it: Self)
        ensures
            it.current_spec() == start,
            it.func_spec() == *func,
    {
        Self { func, current: start }
    }

    /// Produces the next iterate. The sequence never ends on its own, so the
    /// result is always `Some`; the consumer decides when to stop pulling.
    pub fn next(&mut self) -> (r: Option<T>)
        ensures
            final(self).current_spec() == old(self).func_spec().apply_spec(
                old(self).current_spec(),
            ),
            final(self).func_spec() == old(self).func_spec(),
            r == Some(final(self).current_spec()),
    {
        let temp = self.current;
        self.current = self.func.apply(temp);
        Some(self.current)
    }
}

/// A self-map paired with a seed: the dynamical system whose long-run
/// behavior is analyzed.
pub struct RecursiveFunction<T, F> where T: Copy + CloseEnough, F: IterableFunction<T> {
    pub(crate) func: F,
    pub(crate) start: T,
}

impl<T, F> RecursiveFunction<T, F> where T: Copy + CloseEnough, F: IterableFunction<T> {
    /// The map being iterated.
    pub closed spec fn func_spec(&self) -> F {
        self.func
    }

    /// The seed the iteration starts from.
    pub closed spec fn start_spec(&self) -> T {
        self.start
    }

    pub fn new(func: F, start: T) -> (r: Self)
        ensures
            r.func_spec() == func,
            r.start_spec() == start,
    {
        Self { func, start }
    }

    pub(crate) proof fn lemma_fields(&self)
        ensures
            self.func_spec() == self.func,
            self.start_spec() == self.start,
    {
    }

    /// A fresh generator over this system's sequence. Independent generators
    /// over the same map and seed produce identical sequences.
    pub fn iter(&self) -> (it: RecursiveIterator<'_, T, F>)
        ensures
            it.current_spec() == self.start_spec(),
            it.func_spec() == self.func_spec(),
    {
        RecursiveIterator::new(&self.func, self.start)
    }
}

} // verus!
