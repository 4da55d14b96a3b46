use loyalty_program::conversion::{decimals_multiplier, deposit_to_points};
use loyalty_program::errors::LoyaltyError;
use loyalty_program::fees::compute_fee;

#[test]
fn fee_of_one_point_is_base_plus_rate() {
    assert_eq!(compute_fee(1000, 10, 1), Ok(1010));
    assert_eq!(compute_fee(7, 3, 1), Ok(10));
}

#[test]
fn fee_rounds_up_per_thousand() {
    assert_eq!(compute_fee(1000, 10, 1000), Ok(1010));
    assert_eq!(compute_fee(1000, 10, 1001), Ok(1020));
    assert_eq!(compute_fee(1000, 10, 500_000), Ok(6000));
    assert_eq!(compute_fee(1000, 10, 0), Ok(1000));
}

#[test]
fn fee_never_decreases_with_more_points() {
    let samples: Vec<u64> = vec![0, 1, 2, 999, 1000, 1001, 1999, 2000, 2001, 123_456, 1_000_000, u64::MAX - 999];
    let mut previous = 0u64;
    for n in samples {
        let fee = compute_fee(1000, 10, n).unwrap();
        assert!(fee >= previous);
        previous = fee;
    }
}

#[test]
fn fee_overflow_is_reported() {
    assert_eq!(compute_fee(0, 10, u64::MAX), Err(LoyaltyError::ArithmeticOverflow));
    assert_eq!(compute_fee(u64::MAX, 1, 1), Err(LoyaltyError::ArithmeticOverflow));
    assert_eq!(compute_fee(0, u64::MAX, 2000), Err(LoyaltyError::ArithmeticOverflow));
    assert_eq!(compute_fee(u64::MAX, 0, 5), Ok(u64::MAX));
}

#[test]
fn deposit_of_one_coin_at_ratio_hundred() {
    assert_eq!(deposit_to_points(1_000_000_000, 100, 6), Ok(100_000_000));
}

#[test]
fn deposit_rounds_down() {
    assert_eq!(deposit_to_points(1_500_000_000, 3, 0), Ok(4));
    assert_eq!(deposit_to_points(999_999_999, 1, 9), Ok(999_999_999));
}

#[test]
fn deposit_of_zero_is_invalid() {
    assert_eq!(deposit_to_points(0, 100, 6), Err(LoyaltyError::InvalidAmount));
}

#[test]
fn deposit_worth_less_than_a_point_is_invalid() {
    assert_eq!(deposit_to_points(1, 1, 0), Err(LoyaltyError::InvalidAmount));
    assert_eq!(deposit_to_points(999_999_999, 1, 0), Err(LoyaltyError::InvalidAmount));
}

#[test]
fn deposit_overflow_is_reported() {
    assert_eq!(deposit_to_points(u64::MAX, 2, 0), Err(LoyaltyError::ArithmeticOverflow));
    assert_eq!(deposit_to_points(u64::MAX / 2, 1, 1), Err(LoyaltyError::ArithmeticOverflow));
    assert_eq!(deposit_to_points(1, 1, 20), Err(LoyaltyError::ArithmeticOverflow));
}

#[test]
fn powers_of_ten() {
    assert_eq!(decimals_multiplier(0), Some(1));
    assert_eq!(decimals_multiplier(6), Some(1_000_000));
    assert_eq!(decimals_multiplier(19), Some(10_000_000_000_000_000_000));
    assert_eq!(decimals_multiplier(20), None);
}
