use vstd::prelude::*;

use crate::errors::LoyaltyError;
use crate::key::Pubkey;
use crate::platform::Platform;

verus! {

/// A currency purchase is recorded at most once for each (customer, product
/// hash, nonce): once accepted, the same request is refused as a duplicate,
/// while the same purchase under a nonce not yet used is not.
pub proof fn lemma_purchase_recorded_once(
    pre: Platform,
    post: Platform,
    customer: Pubkey,
    merchant: Pubkey,
    product_id_hash: [u8; 32],
    price_sol: u64,
    loyalty_points_reward: u64,
    nonce: u64,
    now: i64,
    other_nonce: u64,
)
    requires
        pre.purchase_with_sol_error(
            customer@,
            merchant@,
            product_id_hash@,
            price_sol,
            loyalty_points_reward,
            nonce,
        ) is None,
        Platform::purchase_with_sol_post(
            pre,
            post,
            customer,
            merchant,
            product_id_hash,
            price_sol,
            loyalty_points_reward,
            nonce,
            now,
        ),
    ensures
        post.purchase_with_sol_error(
            customer@,
            merchant@,
            product_id_hash@,
            price_sol,
            loyalty_points_reward,
            nonce,
        ) == Some(LoyaltyError::DuplicatePurchase),
        other_nonce != nonce && !pre.purchases().contains_key(
            (customer@, product_id_hash@, other_nonce),
        ) ==> post.purchase_with_sol_error(
            customer@,
            merchant@,
            product_id_hash@,
            price_sol,
            loyalty_points_reward,
            other_nonce,
        ) != Some(LoyaltyError::DuplicatePurchase),
{
}

/// Minting points and then spending the same amount on a purchase paid in
/// points leaves the supply where it was.
pub proof fn lemma_mint_then_spend_restores_supply(
    start: Platform,
    minted: Platform,
    end: Platform,
    issuer: Pubkey,
    amount: u64,
    reference_len: nat,
    customer: Pubkey,
    shop: Pubkey,
    product_id_hash: [u8; 32],
    nonce: u64,
    customer_balance: u64,
    now: i64,
)
    requires
        start.mint_points_error(issuer@, amount, reference_len) is None,
        Platform::mint_points_post(start, minted, issuer@, amount),
        minted.purchase_with_points_error(
            customer@,
            shop@,
            product_id_hash@,
            amount,
            nonce,
            customer_balance,
        ) is None,
        Platform::purchase_with_points_post(
            minted,
            end,
            customer,
            shop,
            product_id_hash,
            amount,
            nonce,
            now,
        ),
    ensures
        end.registry().current_supply == start.registry().current_supply,
{
}

} // verus!
