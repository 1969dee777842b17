use node_runtime::vote::CurrencyToVoteHandler;

#[test]
fn factor_scales_with_issuance() {
    let handler = CurrencyToVoteHandler::with_bound(100).unwrap();
    assert_eq!(handler.factor(10_000), 100);
    assert_eq!(handler.narrow(10_000, 5_000), 50);
    assert_eq!(handler.widen(10_000, 50), 5_000);
}

#[test]
fn factor_is_one_for_small_issuance() {
    let handler = CurrencyToVoteHandler::new();
    assert_eq!(handler.max_narrow(), u64::MAX);
    assert_eq!(handler.factor(0), 1);
    assert_eq!(handler.factor(1_000_000), 1);
    assert_eq!(handler.factor(u64::MAX as u128), 1);
    assert_eq!(handler.narrow(1_000_000, 123_456), 123_456);
    assert_eq!(handler.widen(1_000_000, 123_456), 123_456);
}

#[test]
fn zero_bound_is_refused() {
    assert!(CurrencyToVoteHandler::with_bound(0).is_none());
    assert!(CurrencyToVoteHandler::with_bound(1).is_some());
}

#[test]
fn round_trip_loses_less_than_one_factor() {
    let handler = CurrencyToVoteHandler::with_bound(100).unwrap();
    let issuance: u128 = 10_000;
    assert_eq!(handler.narrow(issuance, 5_099), 50);
    assert_eq!(handler.widen(issuance, 50), 5_000);
    assert_eq!(handler.narrow(issuance, 99), 0);
}

#[test]
fn quotient_above_the_bound_is_kept_while_it_fits() {
    let handler = CurrencyToVoteHandler::with_bound(100).unwrap();
    assert_eq!(handler.factor(199), 1);
    assert_eq!(handler.narrow(199, 199), 199);
}

#[test]
fn quotient_wraps_at_the_width_of_the_narrow_type() {
    let handler = CurrencyToVoteHandler::new();
    let issuance: u128 = (1u128 << 64) + 5;
    assert_eq!(handler.factor(issuance), 1);
    assert_eq!(handler.narrow(issuance, issuance), 5);
}

#[test]
fn factor_follows_large_issuance() {
    let handler = CurrencyToVoteHandler::new();
    let issuance: u128 = (u64::MAX as u128) * 7 + 3;
    assert_eq!(handler.factor(issuance), 7);
    assert_eq!(handler.narrow(issuance, 70), 10);
    assert_eq!(handler.widen(issuance, 10), 70);
    assert_eq!(handler.widen(issuance, u64::MAX as u128), (u64::MAX as u128) * 7);
}
