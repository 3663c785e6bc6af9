use future_timed::clock::elapsed;

#[test]
fn elapsed_is_the_difference() {
    assert_eq!(elapsed(0, 0), 0);
    assert_eq!(elapsed(3, 10), 7);
    assert_eq!(elapsed(0, u128::MAX), u128::MAX);
    assert_eq!(elapsed(u128::MAX - 1, u128::MAX), 1);
}

#[test]
fn elapsed_is_zero_when_the_clock_went_back() {
    assert_eq!(elapsed(10, 3), 0);
    assert_eq!(elapsed(u128::MAX, 0), 0);
    assert_eq!(elapsed(1, 0), 0);
}
