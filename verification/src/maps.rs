//! Concrete self-maps of the fixed-point number line, the canonical one
//! being the logistic map used to study bifurcation and chaos.

use vstd::prelude::*;

use crate::close::Fixed;
use crate::iterate::IterableFunction;

verus! {

/// One unit, as a count of billionths.
pub const UNIT_NANOS: i64 = 1_000_000_000;

/// The largest logistic coefficient the map admits, as a count of
/// thousandths: a = 4.
pub const MAX_A_MILLIS: i64 = 4000;

/// `n` forced into the interval `[lo, hi]`.
pub open spec fn clamped(n: int, lo: int, hi: int) -> int {
    if n < lo {
        lo
    } else if n > hi {
        hi
    } else {
        n
    }
}

/// The map `f(x) = x`.
#[derive(Clone, Copy, PartialEq, Eq, Structural, Debug)]
pub struct IdentityMap;

impl IterableFunction<Fixed> for IdentityMap {
    open spec fn apply_spec(&self, x: Fixed) -> Fixed {
        x
    }

    fn apply(&self, x: Fixed) -> (r: Fixed) {
        x
    }
}

/// Half of a count of billionths, rounded toward zero.
pub open spec fn halved_nanos(n: int) -> int {
    if n >= 0 {
        n / 2
    } else {
        -((-n) / 2)
    }
}

/// The map `f(x) = x / 2`, a strictly contracting map with fixed point 0.
/// The quotient is rounded toward zero.
#[derive(Clone, Copy, PartialEq, Eq, Structural, Debug)]
pub struct HalvingMap;

impl IterableFunction<Fixed> for HalvingMap {
    open spec fn apply_spec(&self, x: Fixed) -> Fixed {
        Fixed { nanos: halved_nanos(x.nanos as int) as i64 }
    }

    fn apply(&self, x: Fixed) -> (r: Fixed) {
        if x.nanos >= 0 {
            Fixed { nanos: ((x.nanos as u64) / 2) as i64 }
        } else {
            let mag: u128 = (-(x.nanos as i128)) as u128;
            Fixed { nanos: -((mag / 2) as i64) }
        }
    }
}

/// The map `f(x) = -x`, a 2-cycle on every non-zero seed. The one machine
/// value with no negative, the smallest representable count, is left in
/// place.
#[derive(Clone, Copy, PartialEq, Eq, Structural, Debug)]
pub struct NegationMap;

impl IterableFunction<Fixed> for NegationMap {
    open spec fn apply_spec(&self, x: Fixed) -> Fixed {
        if x.nanos == i64::MIN {
            x
        } else {
            Fixed { nanos: (-x.nanos) as i64 }
        }
    }

    fn apply(&self, x: Fixed) -> (r: Fixed) {
        if x.nanos == i64::MIN {
            x
        } else {
            Fixed { nanos: -x.nanos }
        }
    }
}

/// A count of billionths moved by `d`, held inside the machine range.
pub open spec fn stepped_nanos(n: int, d: int) -> int {
    clamped(n + d, i64::MIN as int, i64::MAX as int)
}

/// The map `f(x) = x + d` for a fixed step `d`, saturating at the ends of
/// the machine range. With a step wider than the rounding resolution, every
/// sample in a window away from the ends is distinguishable from every
/// other.
#[derive(Clone, Copy, PartialEq, Eq, Structural, Debug)]
pub struct StepMap {
    pub delta_nanos: i64,
}

impl IterableFunction<Fixed> for StepMap {
    open spec fn apply_spec(&self, x: Fixed) -> Fixed {
        Fixed { nanos: stepped_nanos(x.nanos as int, self.delta_nanos as int) as i64 }
    }

    fn apply(&self, x: Fixed) -> (r: Fixed) {
        let s: i128 = x.nanos as i128 + self.delta_nanos as i128;
        if s > i64::MAX as i128 {
            Fixed { nanos: i64::MAX }
        } else if s < i64::MIN as i128 {
            Fixed { nanos: i64::MIN }
        } else {
            Fixed { nanos: s as i64 }
        }
    }
}

/// The value of the logistic map `a * x * (1 - x)` in counts of billionths,
/// for a coefficient given in thousandths. The coefficient is held in
/// `[0, 4]` and the argument in `[0, 1]`, the intervals on which the map
/// sends the unit interval to itself; the quotient is rounded toward zero.
pub open spec fn logistic_nanos(a_millis: int, x_nanos: int) -> int {
    let a = clamped(a_millis, 0, MAX_A_MILLIS as int);
    let x = clamped(x_nanos, 0, UNIT_NANOS as int);
    (a * x * (UNIT_NANOS as int - x)) / 1_000_000_000_000
}

/// The logistic map `f(x) = a * x * (1 - x)`, the canonical source of
/// convergent, periodic and chaotic behavior as `a` sweeps `[0, 4]`.
#[derive(Clone, Copy, PartialEq, Eq, Structural, Debug)]
pub struct LogisticMap {
    /// The coefficient `a`, as a count of thousandths: 3900 stands for 3.9.
    pub a_millis: i64,
}

impl IterableFunction<Fixed> for LogisticMap {
    open spec fn apply_spec(&self, x: Fixed) -> Fixed {
        Fixed { nanos: logistic_nanos(self.a_millis as int, x.nanos as int) as i64 }
    }

    fn apply(&self, x: Fixed) -> (r: Fixed) {
        let a: u128 = if self.a_millis < 0 {
            0
        } else if self.a_millis > MAX_A_MILLIS {
            MAX_A_MILLIS as u128
        } else {
            self.a_millis as u128
        };
        let xx: u128 = if x.nanos < 0 {
            0
        } else if x.nanos > UNIT_NANOS {
            UNIT_NANOS as u128
        } else {
            x.nanos as u128
        };
        let rest: u128 = (UNIT_NANOS as u128) - xx;
        proof {
            assert(a * xx <= 4000 * 1_000_000_000) by (nonlinear_arith)
                requires
                    a <= 4000,
                    xx <= 1_000_000_000,
            ;
            assert((a * xx) * rest <= 4_000_000_000_000 * 1_000_000_000) by (nonlinear_arith)
                requires
                    a * xx <= 4_000_000_000_000,
                    rest <= 1_000_000_000,
            ;
        }
        let num: u128 = a * xx * rest;
        let q: u128 = num / 1_000_000_000_000;
        Fixed { nanos: q as i64 }
    }
}

} // verus!
