use chaos::close::{round_to_resolution, CloseEnough, Fixed};

fn fx(nanos: i64) -> Fixed {
    Fixed { nanos }
}

#[test]
fn values_in_the_same_bucket_are_close() {
    // 0.1234564 and 0.1234561 both round to 0.123456.
    assert!(fx(123_456_400).close_enough_to(&fx(123_456_100)));
    // 0.4000004 and 0.4 both round to 0.400000.
    assert!(fx(400_000_400).close_enough_to(&fx(400_000_000)));
}

#[test]
fn values_across_the_boundary_are_not_close() {
    // 0.1234565 rounds up to 0.123457 while 0.1234564 rounds down to
    // 0.123456: one step at the boundary splits the pair.
    assert!(!fx(123_456_500).close_enough_to(&fx(123_456_400)));
    // A whole resolution step apart is never close.
    assert!(!fx(1_500).close_enough_to(&fx(1_000)));
}

#[test]
fn exact_halves_round_away_from_zero() {
    // 0.0000015 rounds to 0.000002, and -0.0000015 to -0.000002.
    assert_eq!(round_to_resolution(fx(1_500)), fx(2_000));
    assert_eq!(round_to_resolution(fx(-1_500)), fx(-2_000));
    assert!(fx(1_500).close_enough_to(&fx(2_000)));
    assert!(!fx(1_500).close_enough_to(&fx(1_400)));
}

#[test]
fn rounding_snaps_to_the_nearest_bucket() {
    assert_eq!(round_to_resolution(fx(499)), fx(0));
    assert_eq!(round_to_resolution(fx(999)), fx(1_000));
    assert_eq!(round_to_resolution(fx(-499)), fx(0));
    assert_eq!(round_to_resolution(fx(-999)), fx(-1_000));
    assert_eq!(round_to_resolution(fx(123_456_789)), fx(123_457_000));
}

#[test]
fn closeness_is_reflexive_and_symmetric() {
    let values = [fx(0), fx(1_500), fx(-1_500), fx(123_456_400), fx(i64::MAX), fx(i64::MIN)];
    for &a in &values {
        assert!(a.close_enough_to(&a));
        for &b in &values {
            assert_eq!(a.close_enough_to(&b), b.close_enough_to(&a));
        }
    }
}

#[test]
fn closeness_is_not_transitive_across_a_boundary() {
    // 0.1234564 is close to 0.1234561, and 0.1234565 is close to 0.1234569,
    // yet the two middle neighbors straddle the boundary and are not close.
    assert!(fx(123_456_100).close_enough_to(&fx(123_456_400)));
    assert!(fx(123_456_500).close_enough_to(&fx(123_456_900)));
    assert!(!fx(123_456_400).close_enough_to(&fx(123_456_500)));
}
