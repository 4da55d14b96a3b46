use loyalty_program::errors::LoyaltyError;
use loyalty_program::key::Pubkey;
use loyalty_program::merchant::MerchantRecord;
use loyalty_program::metadata::{borsh_string, metadata_instruction_data};
use loyalty_program::registry::PlatformState;

fn key(n: u8) -> Pubkey {
    Pubkey::new_from_array([n; 32])
}

fn merchant_with(allowance: u64, minted: u64) -> MerchantRecord {
    MerchantRecord {
        wallet: key(5),
        is_authorized: true,
        mint_allowance: allowance,
        total_minted: minted,
        total_redeemed: 0,
        total_fees_paid: 0,
        registered_at: 0,
    }
}

#[test]
fn keys_compare_by_bytes() {
    let mut bytes = [9u8; 32];
    assert_eq!(Pubkey::new_from_array(bytes), key(9));
    bytes[31] = 8;
    assert_ne!(Pubkey::new_from_array(bytes), key(9));
    assert_eq!(Pubkey::new_from_array(bytes).to_bytes(), bytes);
}

#[test]
fn allowance_leaves_one_point() {
    let m = merchant_with(1000, 999);
    assert_eq!(m.check_allowance(2), Err(LoyaltyError::ExceedsMintAllowance));
    assert_eq!(m.check_allowance(1), Ok(()));
}

#[test]
fn zero_allowance_is_unlimited() {
    let m = merchant_with(0, 5_000_000);
    assert_eq!(m.check_allowance(u64::MAX), Ok(()));
}

#[test]
fn allowance_breach_is_reported_as_overflow() {
    let m = merchant_with(10, 11);
    assert_eq!(m.check_allowance(0), Err(LoyaltyError::ArithmeticOverflow));
}

#[test]
fn merchant_counters_are_checked() {
    let mut m = merchant_with(0, u64::MAX);
    assert_eq!(m.record_mint(1), Err(LoyaltyError::ArithmeticOverflow));
    assert_eq!(m.total_minted, u64::MAX);
    assert_eq!(m.record_redeem(4), Ok(()));
    assert_eq!(m.record_fee(6), Ok(()));
    assert_eq!(m.total_redeemed, 4);
    assert_eq!(m.total_fees_paid, 6);
}

#[test]
fn new_merchant_starts_authorized_at_zero() {
    let m = MerchantRecord::new(key(3), 77, 1_700_000_000);
    assert!(m.is_authorized);
    assert_eq!(m.mint_allowance, 77);
    assert_eq!((m.total_minted, m.total_redeemed, m.total_fees_paid), (0, 0, 0));
    assert_eq!(m.registered_at, 1_700_000_000);
}

#[test]
fn registry_rejects_bad_settings() {
    let r = PlatformState::initialize(key(1), key(2), key(3), 10, 100, 1, 1, 1);
    assert_eq!(r, Err(LoyaltyError::InvalidDecimals));
    let r = PlatformState::initialize(key(1), key(2), key(3), 9, 100, 1, 1, 0);
    assert_eq!(r, Err(LoyaltyError::InvalidRatio));
    let r = PlatformState::initialize(key(1), key(2), key(3), 10, 100, 1, 1, 0);
    assert_eq!(r, Err(LoyaltyError::InvalidDecimals));
}

#[test]
fn registry_supply_moves_within_cap() {
    let mut s = PlatformState::initialize(key(1), key(2), key(3), 6, 100, 1, 1, 1).unwrap();
    assert_eq!(s.apply_mint(60), Ok(()));
    assert_eq!(s.apply_mint(41), Err(LoyaltyError::ExceedsMaxSupply));
    assert_eq!(s.current_supply, 60);
    assert_eq!(s.apply_mint(40), Ok(()));
    assert_eq!(s.current_supply, 100);
    assert_eq!(s.apply_burn(101), Err(LoyaltyError::ArithmeticOverflow));
    assert_eq!(s.apply_burn(30), Ok(()));
    assert_eq!(s.current_supply, 70);
    assert_eq!(s.accrue_fee(u64::MAX), Ok(()));
    assert_eq!(s.accrue_fee(1), Err(LoyaltyError::ArithmeticOverflow));
    assert_eq!(s.total_fees_collected, u64::MAX);
}

#[test]
fn registry_mint_overflow_before_cap() {
    let mut s = PlatformState::initialize(key(1), key(2), key(3), 6, u64::MAX, 1, 1, 1).unwrap();
    assert_eq!(s.apply_mint(u64::MAX), Ok(()));
    assert_eq!(s.apply_mint(1), Err(LoyaltyError::ArithmeticOverflow));
}

#[test]
fn string_gets_length_prefix() {
    assert_eq!(borsh_string("abc"), vec![3, 0, 0, 0, b'a', b'b', b'c']);
    assert_eq!(borsh_string(""), vec![0, 0, 0, 0]);
    let long = "x".repeat(300);
    let enc = borsh_string(&long);
    assert_eq!(&enc[..4], &[44, 1, 0, 0]);
    assert_eq!(enc.len(), 304);
}

#[test]
fn metadata_call_layout() {
    let data = metadata_instruction_data("Pts", "P", "u");
    let expected: Vec<u8> = vec![
        33, 3, 0, 0, 0, b'P', b't', b's', 1, 0, 0, 0, b'P', 1, 0, 0, 0, b'u', 0, 0, 0, 0, 0, 1, 0,
    ];
    assert_eq!(data, expected);
}
