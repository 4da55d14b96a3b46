use loyalty_program::effect::Effect;
use loyalty_program::errors::LoyaltyError;
use loyalty_program::key::Pubkey;
use loyalty_program::platform::Platform;
use loyalty_program::purchase::PaymentType;

fn key(n: u8) -> Pubkey {
    Pubkey::new_from_array([n; 32])
}

fn admin() -> Pubkey {
    key(1)
}

fn treasury() -> Pubkey {
    key(2)
}

fn shop() -> Pubkey {
    key(10)
}

fn alice() -> Pubkey {
    key(20)
}

fn product(n: u8) -> [u8; 32] {
    [n; 32]
}

fn example_platform() -> Platform {
    Platform::initialize_platform(admin(), key(3), treasury(), 6, 1_000_000_000_000, 1000, 10, 100).unwrap()
}

fn with_shop(allowance: u64) -> Platform {
    let mut p = example_platform();
    p.register_merchant(&admin(), shop(), allowance, 1_700_000_000).unwrap();
    p
}

#[test]
fn initialize_sets_up_an_empty_active_platform() {
    let p = example_platform();
    let s = p.state();
    assert_eq!(s.admin, admin());
    assert_eq!(s.token_mint, key(3));
    assert_eq!(s.protocol_treasury, treasury());
    assert_eq!(s.max_supply, 1_000_000_000_000);
    assert_eq!(s.current_supply, 0);
    assert_eq!(s.token_decimals, 6);
    assert_eq!(s.merchant_count, 0);
    assert!(s.is_active);
    assert_eq!(s.base_mint_fee, 1000);
    assert_eq!(s.fee_rate_per_thousand, 10);
    assert_eq!(s.total_fees_collected, 0);
    assert_eq!(s.sol_to_points_ratio, 100);
    assert!(p.merchant(&shop()).is_none());
}

#[test]
fn initialize_rejects_bad_decimals_and_ratio() {
    assert_eq!(
        Platform::initialize_platform(admin(), key(3), treasury(), 10, 1, 1, 1, 1).err(),
        Some(LoyaltyError::InvalidDecimals)
    );
    assert_eq!(
        Platform::initialize_platform(admin(), key(3), treasury(), 9, 1, 1, 1, 0).err(),
        Some(LoyaltyError::InvalidRatio)
    );
}

#[test]
fn example_mint_charges_six_thousand() {
    let mut p = with_shop(0);
    let consumer = alice();
    let effects = p.mint_points(shop(), consumer, 500_000, "order-1").unwrap();
    assert_eq!(
        effects,
        vec![
            Effect::TransferLamports { from: shop(), to: treasury(), amount: 6000 },
            Effect::MintPoints { to: consumer, amount: 500_000 },
        ]
    );
    assert_eq!(p.state().current_supply, 500_000);
    assert_eq!(p.state().total_fees_collected, 6000);
    let m = p.merchant(&shop()).unwrap();
    assert_eq!(m.total_minted, 500_000);
    assert_eq!(m.total_fees_paid, 6000);
}

#[test]
fn register_creates_authorized_record() {
    let p = with_shop(250);
    let m = p.merchant(&shop()).unwrap();
    assert_eq!(m.wallet, shop());
    assert!(m.is_authorized);
    assert_eq!(m.mint_allowance, 250);
    assert_eq!(m.total_minted, 0);
    assert_eq!(m.registered_at, 1_700_000_000);
    assert_eq!(p.state().merchant_count, 1);
}

#[test]
fn register_by_non_admin_is_refused() {
    let mut p = example_platform();
    assert_eq!(p.register_merchant(&shop(), shop(), 0, 0), Err(LoyaltyError::UnauthorizedAdmin));
    assert!(p.merchant(&shop()).is_none());
    assert_eq!(p.state().merchant_count, 0);
}

#[test]
fn register_twice_is_refused() {
    let mut p = with_shop(0);
    assert_eq!(p.register_merchant(&admin(), shop(), 5, 9), Err(LoyaltyError::MerchantAlreadyRegistered));
    assert_eq!(p.merchant(&shop()).unwrap().mint_allowance, 0);
    assert_eq!(p.state().merchant_count, 1);
    p.register_merchant(&admin(), key(11), 5, 9).unwrap();
    assert_eq!(p.state().merchant_count, 2);
}

#[test]
fn revoke_twice_fails_not_registered() {
    let mut p = with_shop(0);
    assert_eq!(p.revoke_merchant(&admin(), &shop()), Ok(()));
    assert!(!p.merchant(&shop()).unwrap().is_authorized);
    assert_eq!(p.state().merchant_count, 0);
    assert_eq!(p.revoke_merchant(&admin(), &shop()), Err(LoyaltyError::MerchantNotRegistered));
    assert_eq!(p.state().merchant_count, 0);
}

#[test]
fn revoke_unknown_or_by_non_admin_is_refused() {
    let mut p = with_shop(0);
    assert_eq!(p.revoke_merchant(&admin(), &key(99)), Err(LoyaltyError::MerchantNotRegistered));
    assert_eq!(p.revoke_merchant(&shop(), &shop()), Err(LoyaltyError::UnauthorizedAdmin));
    assert!(p.merchant(&shop()).unwrap().is_authorized);
}

#[test]
fn revoked_merchant_cannot_mint() {
    let mut p = with_shop(0);
    p.revoke_merchant(&admin(), &shop()).unwrap();
    assert_eq!(p.mint_points(shop(), alice(), 10, ""), Err(LoyaltyError::UnauthorizedMerchant));
    assert_eq!(p.mint_points(key(77), alice(), 10, ""), Err(LoyaltyError::UnauthorizedMerchant));
    assert_eq!(p.deposit_sol(shop(), 1_000_000_000), Err(LoyaltyError::UnauthorizedMerchant));
}

#[test]
fn mint_zero_is_invalid() {
    let mut p = with_shop(0);
    assert_eq!(p.mint_points(shop(), alice(), 0, "r"), Err(LoyaltyError::InvalidAmount));
    assert_eq!(p.state().current_supply, 0);
}

#[test]
fn mint_reference_longer_than_64_bytes_is_refused() {
    let mut p = with_shop(0);
    let long = "r".repeat(65);
    assert_eq!(p.mint_points(shop(), alice(), 5, &long), Err(LoyaltyError::ReferenceTooLong));
    let edge = "r".repeat(64);
    assert!(p.mint_points(shop(), alice(), 5, &edge).is_ok());
}

#[test]
fn mint_past_allowance_is_refused() {
    let mut p = with_shop(1000);
    p.mint_points(shop(), alice(), 999, "a").unwrap();
    let before = p.state();
    assert_eq!(p.mint_points(shop(), alice(), 2, "b"), Err(LoyaltyError::ExceedsMintAllowance));
    assert_eq!(p.state(), before);
    assert_eq!(p.merchant(&shop()).unwrap().total_minted, 999);
    assert!(p.mint_points(shop(), alice(), 1, "c").is_ok());
    assert_eq!(p.merchant(&shop()).unwrap().total_minted, 1000);
}

#[test]
fn mint_past_cap_is_refused() {
    let mut p = Platform::initialize_platform(admin(), key(3), treasury(), 6, 100, 0, 0, 1).unwrap();
    p.register_merchant(&admin(), shop(), 0, 0).unwrap();
    p.mint_points(shop(), alice(), 100, "").unwrap();
    assert_eq!(p.mint_points(shop(), alice(), 1, ""), Err(LoyaltyError::ExceedsMaxSupply));
    assert_eq!(p.state().current_supply, 100);
}

#[test]
fn mint_fee_overflow_is_refused() {
    let mut p = Platform::initialize_platform(admin(), key(3), treasury(), 6, u64::MAX, u64::MAX, 1, 1).unwrap();
    p.register_merchant(&admin(), shop(), 0, 0).unwrap();
    assert_eq!(p.mint_points(shop(), alice(), 1, ""), Err(LoyaltyError::ArithmeticOverflow));
    assert_eq!(p.state().current_supply, 0);
}

#[test]
fn deposit_one_coin_mints_hundred_million_points() {
    let mut p = with_shop(0);
    let effects = p.deposit_sol(shop(), 1_000_000_000).unwrap();
    assert_eq!(
        effects,
        vec![
            Effect::TransferLamports { from: shop(), to: treasury(), amount: 1_000_000_000 },
            Effect::MintPoints { to: shop(), amount: 100_000_000 },
        ]
    );
    assert_eq!(p.state().current_supply, 100_000_000);
    assert_eq!(p.state().total_fees_collected, 0);
    assert_eq!(p.merchant(&shop()).unwrap().total_minted, 100_000_000);
}

#[test]
fn deposit_ignores_merchant_allowance() {
    let mut p = with_shop(10);
    assert!(p.deposit_sol(shop(), 1_000_000_000).is_ok());
    assert_eq!(p.merchant(&shop()).unwrap().total_minted, 100_000_000);
}

#[test]
fn deposit_errors() {
    let mut p = with_shop(0);
    assert_eq!(p.deposit_sol(shop(), 0), Err(LoyaltyError::InvalidAmount));
    assert_eq!(p.state().current_supply, 0);
    assert_eq!(p.deposit_sol(shop(), 1), Err(LoyaltyError::InvalidAmount));
    assert_eq!(p.deposit_sol(shop(), u64::MAX), Err(LoyaltyError::ArithmeticOverflow));
    let mut small = Platform::initialize_platform(admin(), key(3), treasury(), 0, 5, 0, 0, 10).unwrap();
    small.register_merchant(&admin(), shop(), 0, 0).unwrap();
    assert_eq!(small.deposit_sol(shop(), 1_000_000_000), Err(LoyaltyError::DepositExceedsMaxSupply));
    assert_eq!(small.state().current_supply, 0);
}

#[test]
fn purchase_with_same_nonce_is_recorded_once() {
    let mut p = with_shop(0);
    let effects = p.purchase_product_with_sol(alice(), shop(), product(7), 2_000_000, 1500, 1, 42).unwrap();
    assert_eq!(
        effects,
        vec![
            Effect::TransferLamports { from: alice(), to: shop(), amount: 2_000_000 },
            Effect::TransferLamports { from: alice(), to: treasury(), amount: 1020 },
            Effect::MintPoints { to: alice(), amount: 1500 },
        ]
    );
    let before = p.state();
    assert_eq!(
        p.purchase_product_with_sol(alice(), shop(), product(7), 2_000_000, 1500, 1, 43),
        Err(LoyaltyError::DuplicatePurchase)
    );
    assert_eq!(p.state(), before);
    assert!(p.purchase_product_with_sol(alice(), shop(), product(7), 2_000_000, 1500, 2, 44).is_ok());
    assert_eq!(p.state().current_supply, 3000);
    assert_eq!(p.state().total_fees_collected, 2040);
}

#[test]
fn currency_purchase_record_and_totals() {
    let mut p = with_shop(0);
    p.purchase_product_with_sol(alice(), shop(), product(7), 2_000_000, 1500, 1, 42).unwrap();
    let rec = p.purchase(&alice(), &product(7), 1).unwrap();
    assert_eq!(rec.customer, alice());
    assert_eq!(rec.merchant, shop());
    assert_eq!(rec.product_id_hash, product(7));
    assert_eq!(rec.nonce, 1);
    assert_eq!(rec.payment_type, PaymentType::Currency);
    assert_eq!(rec.amount_paid, 2_000_000);
    assert_eq!(rec.points_earned, 1500);
    assert_eq!(rec.purchased_at, 42);
    let m = p.merchant(&shop()).unwrap();
    assert_eq!(m.total_fees_paid, 1020);
    assert!(p.purchase(&alice(), &product(7), 2).is_none());
    assert!(p.purchase(&alice(), &product(8), 1).is_none());
}

#[test]
fn free_purchase_has_no_fee_transfer() {
    let mut p = Platform::initialize_platform(admin(), key(3), treasury(), 6, 1_000_000, 0, 0, 1).unwrap();
    p.register_merchant(&admin(), shop(), 0, 0).unwrap();
    let effects = p.purchase_product_with_sol(alice(), shop(), product(1), 5, 10, 0, 0).unwrap();
    assert_eq!(
        effects,
        vec![
            Effect::TransferLamports { from: alice(), to: shop(), amount: 5 },
            Effect::MintPoints { to: alice(), amount: 10 },
        ]
    );
}

#[test]
fn currency_purchase_errors() {
    let mut p = with_shop(0);
    assert_eq!(
        p.purchase_product_with_sol(alice(), shop(), product(1), 0, 10, 0, 0),
        Err(LoyaltyError::InvalidAmount)
    );
    assert_eq!(
        p.purchase_product_with_sol(alice(), shop(), product(1), 10, 0, 0, 0),
        Err(LoyaltyError::InvalidAmount)
    );
    assert_eq!(
        p.purchase_product_with_sol(alice(), key(50), product(1), 10, 10, 0, 0),
        Err(LoyaltyError::UnauthorizedMerchant)
    );
    assert_eq!(
        p.purchase_product_with_sol(alice(), shop(), product(1), 10, 1_000_000_000_001, 0, 0),
        Err(LoyaltyError::ExceedsMaxSupply)
    );
    assert!(p.purchase(&alice(), &product(1), 0).is_none());
}

#[test]
fn mint_then_spend_restores_supply() {
    let mut p = with_shop(0);
    let before = p.state().current_supply;
    p.mint_points(shop(), alice(), 1234, "gift").unwrap();
    assert_eq!(p.state().current_supply, before + 1234);
    let effects = p.purchase_product_with_points(alice(), shop(), product(3), 1234, 9, 1234, 50).unwrap();
    assert_eq!(effects, vec![Effect::BurnPoints { from: alice(), amount: 1234 }]);
    assert_eq!(p.state().current_supply, before);
    let rec = p.purchase(&alice(), &product(3), 9).unwrap();
    assert_eq!(rec.payment_type, PaymentType::Points);
    assert_eq!(rec.amount_paid, 1234);
    assert_eq!(rec.points_earned, 0);
    assert_eq!(p.merchant(&shop()).unwrap().total_redeemed, 1234);
}

#[test]
fn points_purchase_errors() {
    let mut p = with_shop(0);
    p.mint_points(shop(), alice(), 100, "").unwrap();
    assert_eq!(
        p.purchase_product_with_points(alice(), shop(), product(3), 0, 1, 100, 0),
        Err(LoyaltyError::InvalidAmount)
    );
    assert_eq!(
        p.purchase_product_with_points(alice(), shop(), product(3), 101, 1, 100, 0),
        Err(LoyaltyError::InsufficientPointsBalance)
    );
    assert_eq!(
        p.purchase_product_with_points(alice(), shop(), product(3), 200, 1, 500, 0),
        Err(LoyaltyError::ArithmeticOverflow)
    );
    p.purchase_product_with_points(alice(), shop(), product(3), 40, 1, 100, 0).unwrap();
    assert_eq!(
        p.purchase_product_with_points(alice(), shop(), product(3), 40, 1, 60, 0),
        Err(LoyaltyError::DuplicatePurchase)
    );
    assert_eq!(p.state().current_supply, 60);
}

#[test]
fn redeem_moves_points_without_changing_supply() {
    let mut p = with_shop(0);
    p.mint_points(shop(), alice(), 500, "").unwrap();
    let effects = p.redeem_points(alice(), shop(), 200, "coffee", 500).unwrap();
    assert_eq!(effects, vec![Effect::TransferPoints { from: alice(), to: shop(), amount: 200 }]);
    assert_eq!(p.state().current_supply, 500);
    assert_eq!(p.merchant(&shop()).unwrap().total_redeemed, 200);
}

#[test]
fn redeem_errors() {
    let mut p = with_shop(0);
    assert_eq!(p.redeem_points(alice(), shop(), 0, "x", 10), Err(LoyaltyError::InvalidAmount));
    assert_eq!(p.redeem_points(alice(), shop(), 5, &"x".repeat(65), 10), Err(LoyaltyError::ReferenceTooLong));
    assert_eq!(p.redeem_points(alice(), shop(), 11, "x", 10), Err(LoyaltyError::InsufficientBalance));
    assert_eq!(p.redeem_points(alice(), key(60), 1, "x", 10), Err(LoyaltyError::UnauthorizedMerchant));
    assert_eq!(p.merchant(&shop()).unwrap().total_redeemed, 0);
}

#[test]
fn token_metadata_is_admin_only() {
    let p = example_platform();
    assert_eq!(p.set_token_metadata(&shop(), "Pts", "P", "u"), Err(LoyaltyError::UnauthorizedAdmin));
    let data = p.set_token_metadata(&admin(), "Pts", "P", "u").unwrap();
    assert_eq!(data[0], 33);
    assert_eq!(&data[1..5], &[3, 0, 0, 0]);
    assert_eq!(data.len(), 25);
}
