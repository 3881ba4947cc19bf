//! Numeric values and the approximate-equality relation used to decide when
//! two iterates count as "the same" for classification purposes.

use vstd::prelude::*;

verus! {

/// A real number held in fixed point: a signed count of billionths of a unit.
/// `Fixed { nanos: 400_000_000 }` stands for 0.4.
#[derive(Clone, Copy, PartialEq, Eq, Structural, Debug)]
pub struct Fixed {
    pub nanos: i64,
}

/// Rounds a count of billionths to the nearest count of millionths.
/// Exact halves (a billionths count ending in 500) round away from zero:
/// 1500 billionths rounds to 2 millionths, -1500 billionths to -2 millionths.
/// This is the rounding rule behind the approximate-equality relation on
/// `Fixed`: the resolution is one millionth of a unit.
pub open spec fn rounded_micros(n: int) -> int {
    if n >= 0 {
        (n + 500) / 1000
    } else {
        -(((-n) + 500) / 1000)
    }
}

/// Computes `rounded_micros` on a machine integer. The magnitude is taken
/// first so that every division is on a non-negative value.
fn rounded_micros_exec(n: i64) -> (r: i64)
    ensures
        r as int == rounded_micros(n as int),
{
    if n >= 0 {
        let q: u64 = (n as u64 + 500) / 1000;
        q as i64
    } else {
        let mag: u128 = (-(n as i128)) as u128;
        let q: u128 = (mag + 500) / 1000;
        -(q as i64)
    }
}

/// `n` forced into the range of a machine count of billionths.
pub open spec fn clip_nanos(n: int) -> int {
    if n > i64::MAX {
        i64::MAX as int
    } else if n < i64::MIN {
        i64::MIN as int
    } else {
        n
    }
}

/// A count of billionths rounded to the nearest whole count of millionths
/// and re-scaled to billionths: the canonical representative of its rounding
/// bucket. Within five hundred billionths of the ends of the machine range
/// the re-scaled count is held at the range's end.
pub open spec fn rounded_to_resolution(n: int) -> int {
    clip_nanos(rounded_micros(n) * 1000)
}

/// The canonical representative of the rounding bucket `x` falls in.
pub fn round_to_resolution(x: Fixed) -> (r: Fixed)
    ensures
        r.nanos as int == rounded_to_resolution(x.nanos as int),
{
    let m = rounded_micros_exec(x.nanos);
    let p: i128 = (m as i128) * 1000;
    if p > i64::MAX as i128 {
        Fixed { nanos: i64::MAX }
    } else if p < i64::MIN as i128 {
        Fixed { nanos: i64::MIN }
    } else {
        Fixed { nanos: p as i64 }
    }
}

/// The relation deciding whether two values are indistinguishable for
/// classification. It is reflexive and symmetric; transitivity is not
/// promised (two chains of nearby values can straddle a rounding boundary).
pub trait CloseEnough: Sized {
    /// What "approximately equal" means for this type.
    spec fn close_spec(&self, other: &Self) -> bool;

    /// Every value is approximately equal to itself.
    proof fn lemma_close_reflexive(x: &Self)
        ensures
            x.close_spec(x),
    ;

    /// Approximate equality does not depend on the order of its arguments.
    proof fn lemma_close_symmetric(x: &Self, y: &Self)
        requires
            x.close_spec(y),
        ensures
            y.close_spec(x),
    ;

    /// Decides the relation.
    fn close_enough_to(&self, other: &Self) -> (r: bool)
        ensures
            r == self.close_spec(other),
    ;
}

impl CloseEnough for Fixed {
    /// Two `Fixed` values are approximately equal when both round to the
    /// same count of millionths (resolution one millionth of a unit).
    open spec fn close_spec(&self, other: &Self) -> bool {
        rounded_micros(self.nanos as int) == rounded_micros(other.nanos as int)
    }

    proof fn lemma_close_reflexive(x: &Self) {
    }

    proof fn lemma_close_symmetric(x: &Self, y: &Self) {
    }

    fn close_enough_to(&self, other: &Self) -> (r: bool) {
        rounded_micros_exec(self.nanos) == rounded_micros_exec(other.nanos)
    }
}

} // verus!
