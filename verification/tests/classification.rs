use chaos::behavior::{classify, num_cycles, Behavior};
use chaos::close::Fixed;
use chaos::iterate::{IterableFunction, RecursiveFunction, RecursiveIterator};
use chaos::maps::{HalvingMap, IdentityMap, LogisticMap, NegationMap, StepMap};

fn fx(nanos: i64) -> Fixed {
    Fixed { nanos }
}

#[test]
fn identity_map_converges_to_seed() {
    // f(x) = x, seed 0.4: one distinguishable value whatever the skip and bound.
    for &(skip, max) in &[(0usize, 1usize), (0, 5), (3, 2), (100, 50)] {
        let b = classify(&IdentityMap, fx(400_000_000), skip, max);
        assert_eq!(b, Behavior::Convergence(fx(400_000_000)));
    }
    let system = RecursiveFunction::new(IdentityMap, fx(400_000_000));
    assert_eq!(system.end_behavior(50), Behavior::Convergence(fx(400_000_000)));
}

#[test]
fn contracting_map_converges_to_fixed_point() {
    // f(x) = x / 2 decays to the fixed point 0 well inside the transient.
    let system = RecursiveFunction::new(HalvingMap, fx(900_000_000));
    assert_eq!(system.end_behavior(50), Behavior::Convergence(fx(0)));
    let b = classify(&HalvingMap, fx(123_456_789), 100, 10);
    assert_eq!(b, Behavior::Convergence(fx(0)));
}

#[test]
fn negation_map_is_a_two_cycle() {
    // f(x) = -x, seed 1.0: the tail alternates between -1.0 and 1.0.
    let b = classify(&NegationMap, fx(1_000_000_000), 0, 10);
    assert_eq!(
        b,
        Behavior::Cycle(vec![fx(-1_000_000_000), fx(1_000_000_000)])
    );
    let system = RecursiveFunction::new(NegationMap, fx(1_000_000_000));
    assert_eq!(
        system.end_behavior(50),
        Behavior::Cycle(vec![fx(-1_000_000_000), fx(1_000_000_000)])
    );
}

#[test]
fn pairwise_distinct_window_saturates_to_chaos() {
    // A step of 0.001 per iterate keeps every pair of samples more than the
    // rounding resolution apart, so the whole window is distinguishable.
    let step = StepMap { delta_nanos: 1_000_000 };
    let b = classify(&step, fx(0), 0, 50);
    assert_eq!(b, Behavior::Chaos);
    let system = RecursiveFunction::new(step, fx(0));
    assert_eq!(system.end_behavior(50), Behavior::Chaos);
}

#[test]
fn logistic_map_in_chaotic_regime() {
    // The canonical chaotic parameter: a = 3.9, seed 0.4.
    let b = classify(&LogisticMap { a_millis: 3900 }, fx(400_000_000), 1000, 50);
    assert_eq!(b, Behavior::Chaos);
}

#[test]
fn logistic_map_low_coefficient_converges() {
    // For a = 2 the map has the attracting fixed point 1/2, hit exactly.
    let b = classify(&LogisticMap { a_millis: 2000 }, fx(500_000_000), 10, 10);
    assert_eq!(b, Behavior::Convergence(fx(500_000_000)));
    // For a = 0 everything is sent to 0.
    let b = classify(&LogisticMap { a_millis: 0 }, fx(400_000_000), 0, 10);
    assert_eq!(b, Behavior::Convergence(fx(0)));
}

#[test]
fn single_sample_never_reports_a_cycle() {
    // With a bound of one sample the result is a convergence, never a cycle.
    let seeds = [fx(1_000_000_000), fx(400_000_000), fx(-7)];
    for &seed in &seeds {
        assert!(matches!(
            classify(&NegationMap, seed, 0, 1),
            Behavior::Convergence(_)
        ));
        assert!(matches!(
            classify(&StepMap { delta_nanos: 5_000_000 }, seed, 9, 1),
            Behavior::Convergence(_)
        ));
        assert!(matches!(
            classify(&LogisticMap { a_millis: 3900 }, seed, 0, 1),
            Behavior::Convergence(_)
        ));
    }
}

#[test]
fn zero_sample_window_reports_chaos() {
    // An empty window retains no value at all, and zero equals the bound.
    let b = classify(&IdentityMap, fx(400_000_000), 0, 0);
    assert_eq!(b, Behavior::Chaos);
}

#[test]
fn classification_is_deterministic() {
    // Two independent runs over equal maps and seeds agree exactly.
    let b1 = classify(&LogisticMap { a_millis: 3457 }, fx(400_000_000), 1000, 50);
    let b2 = classify(&LogisticMap { a_millis: 3457 }, fx(400_000_000), 1000, 50);
    assert_eq!(b1, b2);
    let s1 = RecursiveFunction::new(NegationMap, fx(250_000_000));
    let s2 = RecursiveFunction::new(NegationMap, fx(250_000_000));
    assert_eq!(s1.end_behavior(25), s2.end_behavior(25));
}

#[test]
fn result_is_exactly_one_tag() {
    // Exactly one of the three shapes holds of any result.
    let results = [
        classify(&IdentityMap, fx(400_000_000), 0, 5),
        classify(&NegationMap, fx(1_000_000_000), 0, 5),
        classify(&StepMap { delta_nanos: 1_000_000 }, fx(0), 0, 5),
    ];
    for b in &results {
        let tags = [
            matches!(b, Behavior::Convergence(_)),
            matches!(b, Behavior::Cycle(_)),
            matches!(b, Behavior::Chaos),
        ];
        assert_eq!(tags.iter().filter(|&&t| t).count(), 1);
    }
}

#[test]
fn iterator_emits_successive_iterates_without_the_seed() {
    let mut it = RecursiveIterator::new(&NegationMap, fx(1_000_000_000));
    assert_eq!(it.next(), Some(fx(-1_000_000_000)));
    assert_eq!(it.next(), Some(fx(1_000_000_000)));
    assert_eq!(it.next(), Some(fx(-1_000_000_000)));
}

#[test]
fn independent_iterators_produce_identical_sequences() {
    let system = RecursiveFunction::new(LogisticMap { a_millis: 3700 }, fx(800_000_000));
    let mut a = system.iter();
    let mut b = system.iter();
    for _ in 0..100 {
        assert_eq!(a.next(), b.next());
    }
}

#[test]
fn logistic_map_exact_values() {
    // 3.9 * 0.4 * 0.6 == 0.936, exact in fixed point.
    let m = LogisticMap { a_millis: 3900 };
    assert_eq!(m.apply(fx(400_000_000)), fx(936_000_000));
    // The coefficient is held in [0, 4] and the argument in [0, 1].
    assert_eq!(
        LogisticMap { a_millis: 5000 }.apply(fx(500_000_000)),
        LogisticMap { a_millis: 4000 }.apply(fx(500_000_000))
    );
    assert_eq!(
        LogisticMap { a_millis: 3900 }.apply(fx(-250)),
        LogisticMap { a_millis: 3900 }.apply(fx(0))
    );
}

#[test]
fn num_cycles_counts_distinct_buckets() {
    assert_eq!(num_cycles(IdentityMap, fx(400_000_000)), 1);
    assert_eq!(num_cycles(NegationMap, fx(1_000_000_000)), 2);
    assert_eq!(num_cycles(HalvingMap, fx(900_000_000)), 1);
    assert_eq!(num_cycles(StepMap { delta_nanos: 1_000_000 }, fx(0)), 50);
}
