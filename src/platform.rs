use vstd::prelude::*;
use vstd::string::StringSliceAdditionalSpecFns;

use crate::conversion::{
    deposit_fits, deposit_to_points, lemma_points_nonnegative, points_for_deposit,
};
use crate::directory::{wallets_distinct, MerchantDirectory};
use crate::effect::Effect;
use crate::errors::LoyaltyError;
use crate::fees::{compute_fee, fee_fits, fee_for};
use crate::key::Pubkey;
use crate::merchant::{fits_allowance, within_allowance, MerchantRecord};
use crate::metadata::{metadata_call_data, metadata_instruction_data};
use crate::purchase::{
    key_of, keys_distinct, PaymentType, PurchaseKey, PurchaseLedger, PurchaseRecord,
};
use crate::registry::{PlatformState, MAX_DECIMALS};

verus! {

/// Longest purchase reference or reward id, in bytes.
pub const MAX_REFERENCE_LEN: usize = 64;

/// Every merchant with a cap has stayed within it.
pub open spec fn all_within_allowance(merchants: Map<Seq<u8>, MerchantRecord>) -> bool {
    forall|k: Seq<u8>| #[trigger] merchants.contains_key(k) ==> within_allowance(merchants[k])
}

/// The whole platform: the global record, the merchant directory and the
/// purchase ledger. Every operation takes it by `&mut` and either applies all
/// of its changes or, when refused, leaves it exactly as it was.
#[derive(Debug, Clone)]
pub struct Platform {
    state: PlatformState,
    merchants: MerchantDirectory,
    purchases: PurchaseLedger,
}

impl Platform {
    /// The global record.
    pub closed spec fn registry(&self) -> PlatformState {
        self.state
    }

    /// The merchant records by wallet.
    pub closed spec fn merchants(&self) -> Map<Seq<u8>, MerchantRecord> {
        self.merchants.view()
    }

    /// The purchase records by (customer, product hash, nonce).
    pub closed spec fn purchases(&self) -> Map<PurchaseKey, PurchaseRecord> {
        self.purchases.view()
    }

    /// What holds of every platform that the operations can produce.
    pub closed spec fn wf(&self) -> bool {
        &&& self.state.wf()
        &&& self.merchants.wf()
        &&& self.purchases.wf()
    }

    /// Whether `wallet` belongs to a registered merchant that is still
    /// authorized.
    pub open spec fn is_authorized_merchant(&self, wallet: Seq<u8>) -> bool {
        self.merchants().contains_key(wallet) && self.merchants()[wallet].is_authorized
    }

    /// The supply never passes the cap.
    pub proof fn lemma_supply_within_cap(&self)
        requires
            self.wf(),
        ensures
            self.registry().current_supply <= self.registry().max_supply,
    {
    }

    /// Sets up the platform: no merchants, no purchases, nothing minted.
    ///
    /// Refused with `InvalidDecimals` for more than nine decimals, then with
    /// `InvalidRatio` for a zero conversion ratio.
    pub fn initialize_platform(
        admin: Pubkey,
        token_mint: Pubkey,
        protocol_treasury: Pubkey,
        token_decimals: u8,
        max_supply: u64,
        base_mint_fee: u64,
        fee_rate_per_thousand: u64,
        sol_to_points_ratio: u64,
    ) -> (r: Result<Platform, LoyaltyError>)
        ensures
            match PlatformState::initialize_error(token_decimals, sol_to_points_ratio) {
                Some(e) => r == Err::<Platform, LoyaltyError>(e),
                None => r matches Ok(p) && {
                    &&& p.wf()
                    &&& p.registry() == PlatformState::initial(
                        admin,
                        token_mint,
                        protocol_treasury,
                        token_decimals,
                        max_supply,
                        base_mint_fee,
                        fee_rate_per_thousand,
                        sol_to_points_ratio,
                    )
                    &&& p.merchants() == Map::<Seq<u8>, MerchantRecord>::empty()
                    &&& p.purchases() == Map::<PurchaseKey, PurchaseRecord>::empty()
                },
            },
    {
        match PlatformState::initialize(
            admin,
            token_mint,
            protocol_treasury,
            token_decimals,
            max_supply,
            base_mint_fee,
            fee_rate_per_thousand,
            sol_to_points_ratio,
        ) {
            Ok(state) => Ok(
                Platform {
                    state,
                    merchants: MerchantDirectory::new(),
                    purchases: PurchaseLedger::new(),
                },
            ),
            Err(e) => Err(e),
        }
    }

    /// The platform made of a stored global record, merchant records and
    /// purchase records, for hosts that keep them apart; `None` where the
    /// global record breaks its invariant or two records share a key.
    pub fn from_parts(
        state: PlatformState,
        merchants: Vec<MerchantRecord>,
        purchases: Vec<PurchaseRecord>,
    ) -> (r: Option<Platform>)
        ensures
            r is Some <==> state.wf() && wallets_distinct(merchants@) && keys_distinct(purchases@),
            r matches Some(p) ==> {
                &&& p.wf()
                &&& p.registry() == state
                &&& forall|k: Seq<u8>| #[trigger]
                    p.merchants().contains_key(k) <==> exists|i: int|
                        0 <= i < merchants@.len() && merchants@[i].wallet@ == k
                &&& forall|i: int| #![trigger merchants@[i]]
                    0 <= i < merchants@.len() ==> p.merchants()[merchants@[i].wallet@]
                        == merchants@[i]
                &&& forall|k: PurchaseKey| #[trigger]
                    p.purchases().contains_key(k) <==> exists|i: int|
                        0 <= i < purchases@.len() && key_of(purchases@[i]) == k
                &&& forall|i: int| #![trigger purchases@[i]]
                    0 <= i < purchases@.len() ==> p.purchases()[key_of(purchases@[i])]
                        == purchases@[i]
            },
    {
        if !(state.current_supply <= state.max_supply && state.token_decimals <= MAX_DECIMALS
            && state.sol_to_points_ratio > 0) {
            return None;
        }
        let merchants = match MerchantDirectory::from_records(merchants) {
            Some(d) => d,
            None => return None,
        };
        let purchases = match PurchaseLedger::from_records(purchases) {
            Some(l) => l,
            None => return None,
        };
        Some(Platform { state, merchants, purchases })
    }

    /// The global record.
    pub fn state(&self) -> (r: PlatformState)
        ensures
            r == self.registry(),
    {
        self.state
    }

    /// The record of the merchant with wallet `wallet`, if registered.
    pub fn merchant(&self, wallet: &Pubkey) -> (r: Option<MerchantRecord>)
        requires
            self.wf(),
        ensures
            r is Some <==> self.merchants().contains_key(wallet@),
            r matches Some(m) ==> m == self.merchants()[wallet@],
    {
        self.merchants.get(wallet)
    }

    /// The purchase filed under (customer, product hash, nonce), if any.
    pub fn purchase(&self, customer: &Pubkey, product_id_hash: &[u8; 32], nonce: u64) -> (r: Option<
        PurchaseRecord,
    >)
        requires
            self.wf(),
        ensures
            r is Some <==> self.purchases().contains_key((customer@, product_id_hash@, nonce)),
            r matches Some(p) ==> p == self.purchases()[(customer@, product_id_hash@, nonce)],
    {
        self.purchases.get(customer, product_id_hash, nonce)
    }

    /// The error, if any, that registering `wallet` at the request of
    /// `caller` meets.
    pub open spec fn register_error(&self, caller: Seq<u8>, wallet: Seq<u8>) -> Option<
        LoyaltyError,
    > {
        if caller != self.registry().admin@ {
            Some(LoyaltyError::UnauthorizedAdmin)
        } else if !self.registry().is_active {
            Some(LoyaltyError::PlatformInactive)
        } else if self.merchants().contains_key(wallet) {
            Some(LoyaltyError::MerchantAlreadyRegistered)
        } else if self.registry().merchant_count == u32::MAX {
            Some(LoyaltyError::ArithmeticOverflow)
        } else {
            None
        }
    }

    /// Registers a merchant (admin only): an authorized record with all
    /// counters at zero, and one more in the merchant count.
    pub fn register_merchant(
        &mut self,
        caller: &Pubkey,
        merchant_wallet: Pubkey,
        mint_allowance: u64,
        now: i64,
    ) -> (r: Result<(), LoyaltyError>)
        requires
            old(self).wf(),
        ensures
            final(self).wf(),
            all_within_allowance(old(self).merchants()) ==> all_within_allowance(
                final(self).merchants(),
            ),
            match old(self).register_error(caller@, merchant_wallet@) {
                Some(e) => r == Err::<(), LoyaltyError>(e) && *final(self) == *old(self),
                None => {
                    &&& r is Ok
                    &&& final(self).registry() == (PlatformState {
                        merchant_count: (old(self).registry().merchant_count + 1) as u32,
                        ..old(self).registry()
                    })
                    &&& final(self).merchants() == old(self).merchants().insert(
                        merchant_wallet@,
                        MerchantRecord {
                            wallet: merchant_wallet,
                            is_authorized: true,
                            mint_allowance,
                            total_minted: 0,
                            total_redeemed: 0,
                            total_fees_paid: 0,
                            registered_at: now,
                        },
                    )
                    &&& final(self).purchases() == old(self).purchases()
                },
            },
    {
        if *caller != self.state.admin {
            return Err(LoyaltyError::UnauthorizedAdmin);
        }
        if !self.state.is_active {
            return Err(LoyaltyError::PlatformInactive);
        }
        if self.merchants.get(&merchant_wallet).is_some() {
            return Err(LoyaltyError::MerchantAlreadyRegistered);
        }
        let count = match self.state.merchant_count.checked_add(1) {
            Some(c) => c,
            None => return Err(LoyaltyError::ArithmeticOverflow),
        };
        let record = MerchantRecord::new(merchant_wallet, mint_allowance, now);
        self.merchants.insert_new(record);
        self.state.merchant_count = count;
        Ok(())
    }

    /// The error, if any, that revoking `wallet` at the request of `caller`
    /// meets.
    pub open spec fn revoke_error(&self, caller: Seq<u8>, wallet: Seq<u8>) -> Option<LoyaltyError> {
        if caller != self.registry().admin@ {
            Some(LoyaltyError::UnauthorizedAdmin)
        } else if !self.is_authorized_merchant(wallet) {
            Some(LoyaltyError::MerchantNotRegistered)
        } else if self.registry().merchant_count == 0 {
            Some(LoyaltyError::ArithmeticOverflow)
        } else {
            None
        }
    }

    /// Withdraws a merchant's authorization (admin only). The record stays,
    /// marked unauthorized, and the merchant count drops by one.
    pub fn revoke_merchant(&mut self, caller: &Pubkey, merchant_wallet: &Pubkey) -> (r: Result<
        (),
        LoyaltyError,
    >)
        requires
            old(self).wf(),
        ensures
            final(self).wf(),
            all_within_allowance(old(self).merchants()) ==> all_within_allowance(
                final(self).merchants(),
            ),
            match old(self).revoke_error(caller@, merchant_wallet@) {
                Some(e) => r == Err::<(), LoyaltyError>(e) && *final(self) == *old(self),
                None => {
                    &&& r is Ok
                    &&& final(self).registry() == (PlatformState {
                        merchant_count: (old(self).registry().merchant_count - 1) as u32,
                        ..old(self).registry()
                    })
                    &&& final(self).merchants() == old(self).merchants().insert(
                        merchant_wallet@,
                        MerchantRecord {
                            is_authorized: false,
                            ..old(self).merchants()[merchant_wallet@]
                        },
                    )
                    &&& final(self).purchases() == old(self).purchases()
                },
            },
    {
        if *caller != self.state.admin {
            return Err(LoyaltyError::UnauthorizedAdmin);
        }
        let mut record = match self.merchants.get(merchant_wallet) {
            Some(m) => m,
            None => return Err(LoyaltyError::MerchantNotRegistered),
        };
        if !record.is_authorized {
            return Err(LoyaltyError::MerchantNotRegistered);
        }
        let count = match self.state.merchant_count.checked_sub(1) {
            Some(c) => c,
            None => return Err(LoyaltyError::ArithmeticOverflow),
        };
        proof {
            self.merchants.lemma_keyed_by_wallet(merchant_wallet@);
        }
        record.is_authorized = false;
        self.merchants.update(record);
        self.state.merchant_count = count;
        Ok(())
    }
    /// The protocol fee for minting `amount` points under the current fee
    /// schedule.
    pub open spec fn mint_fee(&self, amount: u64) -> int {
        fee_for(
            self.registry().base_mint_fee as int,
            self.registry().fee_rate_per_thousand as int,
            amount as int,
        )
    }

    /// The error, if any, that minting `amount` points for `merchant` with a
    /// reference of `reference_len` bytes meets, in the order of the checks.
    pub open spec fn mint_points_error(
        &self,
        merchant: Seq<u8>,
        amount: u64,
        reference_len: nat,
    ) -> Option<LoyaltyError> {
        let s = self.registry();
        let m = self.merchants()[merchant];
        let fee = self.mint_fee(amount);
        if !s.is_active {
            Some(LoyaltyError::PlatformInactive)
        } else if !self.is_authorized_merchant(merchant) {
            Some(LoyaltyError::UnauthorizedMerchant)
        } else if amount == 0 {
            Some(LoyaltyError::InvalidAmount)
        } else if reference_len > MAX_REFERENCE_LEN {
            Some(LoyaltyError::ReferenceTooLong)
        } else if !fee_fits(s.base_mint_fee, s.fee_rate_per_thousand, amount) {
            Some(LoyaltyError::ArithmeticOverflow)
        } else if m.allowance_error(amount) is Some {
            m.allowance_error(amount)
        } else if s.mint_error(amount) is Some {
            s.mint_error(amount)
        } else if s.total_fees_collected + fee > u64::MAX || m.total_minted + amount > u64::MAX
            || m.total_fees_paid + fee > u64::MAX {
            Some(LoyaltyError::ArithmeticOverflow)
        } else {
            None
        }
    }

    /// What an accepted mint of `amount` points by `merchant` changes: the
    /// supply and the fees collected, the merchant's minted total and fees
    /// paid. No purchase is recorded.
    pub open spec fn mint_points_post(
        pre: Platform,
        post: Platform,
        merchant: Seq<u8>,
        amount: u64,
    ) -> bool {
        let fee = pre.mint_fee(amount);
        let m = pre.merchants()[merchant];
        &&& post.registry() == (PlatformState {
            current_supply: (pre.registry().current_supply + amount) as u64,
            total_fees_collected: (pre.registry().total_fees_collected + fee) as u64,
            ..pre.registry()
        })
        &&& post.merchants() == pre.merchants().insert(
            merchant,
            MerchantRecord {
                total_minted: (m.total_minted + amount) as u64,
                total_fees_paid: (m.total_fees_paid + fee) as u64,
                ..m
            },
        )
        &&& post.purchases() == pre.purchases()
    }

    /// An authorized merchant issues `amount` points to `consumer`.
    ///
    /// The merchant pays the protocol fee to the treasury before the points
    /// are minted; the mint counts against the merchant's allowance and the
    /// platform's cap.
    pub fn mint_points(
        &mut self,
        merchant: Pubkey,
        consumer: Pubkey,
        amount: u64,
        purchase_reference: &str,
    ) -> (r: Result<Vec<Effect>, LoyaltyError>)
        requires
            old(self).wf(),
        ensures
            final(self).wf(),
            all_within_allowance(old(self).merchants()) ==> all_within_allowance(
                final(self).merchants(),
            ),
            match old(self).mint_points_error(merchant@, amount, purchase_reference.len() as nat) {
                Some(e) => r == Err::<Vec<Effect>, LoyaltyError>(e) && *final(self) == *old(self),
                None => r matches Ok(effects) && {
                    &&& Platform::mint_points_post(*old(self), *final(self), merchant@, amount)
                    &&& effects@ == seq![
                        Effect::TransferLamports {
                            from: merchant,
                            to: old(self).registry().protocol_treasury,
                            amount: old(self).mint_fee(amount) as u64,
                        },
                        Effect::MintPoints { to: consumer, amount },
                    ]
                },
            },
    {
        if !self.state.is_active {
            return Err(LoyaltyError::PlatformInactive);
        }
        let mut record = match self.merchants.get(&merchant) {
            Some(m) => m,
            None => return Err(LoyaltyError::UnauthorizedMerchant),
        };
        if !record.is_authorized {
            return Err(LoyaltyError::UnauthorizedMerchant);
        }
        if amount == 0 {
            return Err(LoyaltyError::InvalidAmount);
        }
        if purchase_reference.len() > MAX_REFERENCE_LEN {
            return Err(LoyaltyError::ReferenceTooLong);
        }
        let fee = match compute_fee(
            self.state.base_mint_fee,
            self.state.fee_rate_per_thousand,
            amount,
        ) {
            Ok(f) => f,
            Err(e) => return Err(e),
        };
        if let Err(e) = record.check_allowance(amount) {
            return Err(e);
        }
        let mut next = self.state;
        if let Err(e) = next.apply_mint(amount) {
            return Err(e);
        }
        if let Err(e) = next.accrue_fee(fee) {
            return Err(e);
        }
        if let Err(e) = record.record_mint(amount) {
            return Err(e);
        }
        if let Err(e) = record.record_fee(fee) {
            return Err(e);
        }
        proof {
            self.merchants.lemma_keyed_by_wallet(merchant@);
        }
        self.merchants.update(record);
        self.state = next;
        let mut effects: Vec<Effect> = Vec::new();
        effects.push(
            Effect::TransferLamports { from: merchant, to: self.state.protocol_treasury, amount: fee },
        );
        effects.push(Effect::MintPoints { to: consumer, amount });
        Ok(effects)
    }

    /// The points that a deposit of `sol_amount` buys at the platform's
    /// ratio and decimals.
    pub open spec fn deposit_points(&self, sol_amount: u64) -> int {
        points_for_deposit(
            sol_amount as int,
            self.registry().sol_to_points_ratio as int,
            self.registry().token_decimals as nat,
        )
    }

    /// The error, if any, that a deposit of `sol_amount` by `merchant` meets,
    /// in the order of the checks.
    pub open spec fn deposit_sol_error(&self, merchant: Seq<u8>, sol_amount: u64) -> Option<
        LoyaltyError,
    > {
        let s = self.registry();
        let m = self.merchants()[merchant];
        let points = self.deposit_points(sol_amount);
        if !s.is_active {
            Some(LoyaltyError::PlatformInactive)
        } else if !self.is_authorized_merchant(merchant) {
            Some(LoyaltyError::UnauthorizedMerchant)
        } else if sol_amount == 0 {
            Some(LoyaltyError::InvalidAmount)
        } else if !deposit_fits(sol_amount, s.sol_to_points_ratio, s.token_decimals) {
            Some(LoyaltyError::ArithmeticOverflow)
        } else if points == 0 {
            Some(LoyaltyError::InvalidAmount)
        } else if s.current_supply + points > u64::MAX {
            Some(LoyaltyError::ArithmeticOverflow)
        } else if s.current_supply + points > s.max_supply {
            Some(LoyaltyError::DepositExceedsMaxSupply)
        } else if m.total_minted + points > u64::MAX {
            Some(LoyaltyError::ArithmeticOverflow)
        } else {
            None
        }
    }

    /// What an accepted deposit by `merchant` changes: the supply and the
    /// merchant's minted total grow by the points bought.
    pub open spec fn deposit_sol_post(
        pre: Platform,
        post: Platform,
        merchant: Seq<u8>,
        sol_amount: u64,
    ) -> bool {
        let points = pre.deposit_points(sol_amount);
        let m = pre.merchants()[merchant];
        &&& post.registry() == (PlatformState {
            current_supply: (pre.registry().current_supply + points) as u64,
            ..pre.registry()
        })
        &&& post.merchants() == pre.merchants().insert(
            merchant,
            MerchantRecord { total_minted: (m.total_minted + points) as u64, ..m },
        )
        &&& post.purchases() == pre.purchases()
    }

    /// An authorized merchant buys points with currency: `sol_amount` goes
    /// to the treasury and the points it buys are minted to the merchant.
    ///
    /// This channel is backed by the deposit, so only the platform cap
    /// bounds it, not the merchant's allowance.
    /// A zero deposit, or one worth less than a point, is refused with
    /// `InvalidAmount`.
    pub fn deposit_sol(&mut self, merchant: Pubkey, sol_amount: u64) -> (r: Result<
        Vec<Effect>,
        LoyaltyError,
    >)
        requires
            old(self).wf(),
        ensures
            final(self).wf(),
            all_within_allowance(old(self).merchants()) && fits_allowance(
                old(self).merchants()[merchant@],
                old(self).deposit_points(sol_amount),
            ) ==> all_within_allowance(final(self).merchants()),
            match old(self).deposit_sol_error(merchant@, sol_amount) {
                Some(e) => r == Err::<Vec<Effect>, LoyaltyError>(e) && *final(self) == *old(self),
                None => r matches Ok(effects) && {
                    &&& Platform::deposit_sol_post(*old(self), *final(self), merchant@, sol_amount)
                    &&& effects@ == seq![
                        Effect::TransferLamports {
                            from: merchant,
                            to: old(self).registry().protocol_treasury,
                            amount: sol_amount,
                        },
                        Effect::MintPoints {
                            to: merchant,
                            amount: old(self).deposit_points(sol_amount) as u64,
                        },
                    ]
                },
            },
    {
        if !self.state.is_active {
            return Err(LoyaltyError::PlatformInactive);
        }
        let mut record = match self.merchants.get(&merchant) {
            Some(m) => m,
            None => return Err(LoyaltyError::UnauthorizedMerchant),
        };
        if !record.is_authorized {
            return Err(LoyaltyError::UnauthorizedMerchant);
        }
        proof {
            lemma_points_nonnegative(
                sol_amount,
                self.state.sol_to_points_ratio,
                self.state.token_decimals as nat,
            );
        }
        let points = match deposit_to_points(
            sol_amount,
            self.state.sol_to_points_ratio,
            self.state.token_decimals,
        ) {
            Ok(p) => p,
            Err(e) => return Err(e),
        };
        let mut next = self.state;
        match next.apply_mint(points) {
            Ok(()) => {},
            Err(LoyaltyError::ExceedsMaxSupply) => {
                return Err(LoyaltyError::DepositExceedsMaxSupply);
            },
            Err(e) => return Err(e),
        }
        if let Err(e) = record.record_mint(points) {
            return Err(e);
        }
        proof {
            self.merchants.lemma_keyed_by_wallet(merchant@);
        }
        self.merchants.update(record);
        self.state = next;
        let mut effects: Vec<Effect> = Vec::new();
        effects.push(
            Effect::TransferLamports {
                from: merchant,
                to: self.state.protocol_treasury,
                amount: sol_amount,
            },
        );
        effects.push(Effect::MintPoints { to: merchant, amount: points });
        Ok(effects)
    }

    /// The error, if any, that a currency purchase meets, in the order of the
    /// checks.
    pub open spec fn purchase_with_sol_error(
        &self,
        customer: Seq<u8>,
        merchant: Seq<u8>,
        product_id_hash: Seq<u8>,
        price_sol: u64,
        loyalty_points_reward: u64,
        nonce: u64,
    ) -> Option<LoyaltyError> {
        let s = self.registry();
        let m = self.merchants()[merchant];
        let fee = self.mint_fee(loyalty_points_reward);
        if !s.is_active {
            Some(LoyaltyError::PlatformInactive)
        } else if !self.is_authorized_merchant(merchant) {
            Some(LoyaltyError::UnauthorizedMerchant)
        } else if self.purchases().contains_key((customer, product_id_hash, nonce)) {
            Some(LoyaltyError::DuplicatePurchase)
        } else if price_sol == 0 || loyalty_points_reward == 0 {
            Some(LoyaltyError::InvalidAmount)
        } else if !fee_fits(s.base_mint_fee, s.fee_rate_per_thousand, loyalty_points_reward) {
            Some(LoyaltyError::ArithmeticOverflow)
        } else if s.mint_error(loyalty_points_reward) is Some {
            s.mint_error(loyalty_points_reward)
        } else if s.total_fees_collected + fee > u64::MAX || m.total_fees_paid + fee > u64::MAX {
            Some(LoyaltyError::ArithmeticOverflow)
        } else {
            None
        }
    }

    /// What an accepted currency purchase changes: the supply grows by the
    /// reward, the fee is added to the platform's and the merchant's fee
    /// totals, and the purchase is recorded.
    pub open spec fn purchase_with_sol_post(
        pre: Platform,
        post: Platform,
        customer: Pubkey,
        merchant: Pubkey,
        product_id_hash: [u8; 32],
        price_sol: u64,
        loyalty_points_reward: u64,
        nonce: u64,
        now: i64,
    ) -> bool {
        let fee = pre.mint_fee(loyalty_points_reward);
        let m = pre.merchants()[merchant@];
        &&& post.registry() == (PlatformState {
            current_supply: (pre.registry().current_supply + loyalty_points_reward) as u64,
            total_fees_collected: (pre.registry().total_fees_collected + fee) as u64,
            ..pre.registry()
        })
        &&& post.merchants() == pre.merchants().insert(
            merchant@,
            MerchantRecord { total_fees_paid: (m.total_fees_paid + fee) as u64, ..m },
        )
        &&& post.purchases() == pre.purchases().insert(
            (customer@, product_id_hash@, nonce),
            PurchaseRecord {
                customer,
                merchant,
                product_id_hash,
                nonce,
                payment_type: PaymentType::Currency,
                amount_paid: price_sol,
                points_earned: loyalty_points_reward,
                purchased_at: now,
            },
        )
    }

    /// The calls that an accepted currency purchase asks for: the price to
    /// the merchant, the fee (where there is one) to the treasury, then the
    /// reward minted to the customer.
    pub open spec fn purchase_with_sol_effects(
        &self,
        customer: Pubkey,
        merchant: Pubkey,
        price_sol: u64,
        loyalty_points_reward: u64,
    ) -> Seq<Effect> {
        let fee = self.mint_fee(loyalty_points_reward) as u64;
        let pay = seq![
            Effect::TransferLamports { from: customer, to: merchant, amount: price_sol },
        ];
        let fee_part = if fee > 0 {
            seq![
                Effect::TransferLamports {
                    from: customer,
                    to: self.registry().protocol_treasury,
                    amount: fee,
                },
            ]
        } else {
            Seq::<Effect>::empty()
        };
        pay + fee_part + seq![Effect::MintPoints { to: customer, amount: loyalty_points_reward }]
    }

    /// A customer buys a product with currency and earns
    /// `loyalty_points_reward` points.
    ///
    /// The customer pays the price to the merchant and the protocol fee for
    /// the minted reward to the treasury. The nonce tells apart repeated
    /// purchases of one product by one customer; a purchase that repeats
    /// (customer, product hash, nonce) is refused with `DuplicatePurchase`.
    pub fn purchase_product_with_sol(
        &mut self,
        customer: Pubkey,
        merchant: Pubkey,
        product_id_hash: [u8; 32],
        price_sol: u64,
        loyalty_points_reward: u64,
        nonce: u64,
        now: i64,
    ) -> (r: Result<Vec<Effect>, LoyaltyError>)
        requires
            old(self).wf(),
        ensures
            final(self).wf(),
            all_within_allowance(old(self).merchants()) ==> all_within_allowance(
                final(self).merchants(),
            ),
            match old(self).purchase_with_sol_error(
                customer@,
                merchant@,
                product_id_hash@,
                price_sol,
                loyalty_points_reward,
                nonce,
            ) {
                Some(e) => r == Err::<Vec<Effect>, LoyaltyError>(e) && *final(self) == *old(self),
                None => r matches Ok(effects) && {
                    &&& Platform::purchase_with_sol_post(
                        *old(self),
                        *final(self),
                        customer,
                        merchant,
                        product_id_hash,
                        price_sol,
                        loyalty_points_reward,
                        nonce,
                        now,
                    )
                    &&& effects@ == old(self).purchase_with_sol_effects(
                        customer,
                        merchant,
                        price_sol,
                        loyalty_points_reward,
                    )
                },
            },
    {
        if !self.state.is_active {
            return Err(LoyaltyError::PlatformInactive);
        }
        let mut record = match self.merchants.get(&merchant) {
            Some(m) => m,
            None => return Err(LoyaltyError::UnauthorizedMerchant),
        };
        if !record.is_authorized {
            return Err(LoyaltyError::UnauthorizedMerchant);
        }
        if self.purchases.get(&customer, &product_id_hash, nonce).is_some() {
            return Err(LoyaltyError::DuplicatePurchase);
        }
        if price_sol == 0 || loyalty_points_reward == 0 {
            return Err(LoyaltyError::InvalidAmount);
        }
        let fee = match compute_fee(
            self.state.base_mint_fee,
            self.state.fee_rate_per_thousand,
            loyalty_points_reward,
        ) {
            Ok(f) => f,
            Err(e) => return Err(e),
        };
        let mut next = self.state;
        if let Err(e) = next.apply_mint(loyalty_points_reward) {
            return Err(e);
        }
        if let Err(e) = next.accrue_fee(fee) {
            return Err(e);
        }
        if let Err(e) = record.record_fee(fee) {
            return Err(e);
        }
        let purchase = PurchaseRecord {
            customer,
            merchant,
            product_id_hash,
            nonce,
            payment_type: PaymentType::Currency,
            amount_paid: price_sol,
            points_earned: loyalty_points_reward,
            purchased_at: now,
        };
        proof {
            self.merchants.lemma_keyed_by_wallet(merchant@);
        }
        self.merchants.update(record);
        self.purchases.insert_new(purchase);
        self.state = next;
        let mut effects: Vec<Effect> = Vec::new();
        effects.push(Effect::TransferLamports { from: customer, to: merchant, amount: price_sol });
        if fee > 0 {
            effects.push(
                Effect::TransferLamports {
                    from: customer,
                    to: self.state.protocol_treasury,
                    amount: fee,
                },
            );
        }
        effects.push(Effect::MintPoints { to: customer, amount: loyalty_points_reward });
        proof {
            assert(effects@ =~= old(self).purchase_with_sol_effects(
                customer,
                merchant,
                price_sol,
                loyalty_points_reward,
            ));
        }
        Ok(effects)
    }

    /// The error, if any, that a purchase paid in points meets, in the order
    /// of the checks. `customer_balance` is the customer's point balance.
    pub open spec fn purchase_with_points_error(
        &self,
        customer: Seq<u8>,
        merchant: Seq<u8>,
        product_id_hash: Seq<u8>,
        points_amount: u64,
        nonce: u64,
        customer_balance: u64,
    ) -> Option<LoyaltyError> {
        let s = self.registry();
        let m = self.merchants()[merchant];
        if !s.is_active {
            Some(LoyaltyError::PlatformInactive)
        } else if !self.is_authorized_merchant(merchant) {
            Some(LoyaltyError::UnauthorizedMerchant)
        } else if self.purchases().contains_key((customer, product_id_hash, nonce)) {
            Some(LoyaltyError::DuplicatePurchase)
        } else if points_amount == 0 {
            Some(LoyaltyError::InvalidAmount)
        } else if customer_balance < points_amount {
            Some(LoyaltyError::InsufficientPointsBalance)
        } else if points_amount > s.current_supply || m.total_redeemed + points_amount > u64::MAX {
            Some(LoyaltyError::ArithmeticOverflow)
        } else {
            None
        }
    }

    /// What an accepted purchase paid in points changes: the burnt points
    /// leave the supply, count as redeemed at the merchant, and the purchase
    /// is recorded with no points earned.
    pub open spec fn purchase_with_points_post(
        pre: Platform,
        post: Platform,
        customer: Pubkey,
        merchant: Pubkey,
        product_id_hash: [u8; 32],
        points_amount: u64,
        nonce: u64,
        now: i64,
    ) -> bool {
        let m = pre.merchants()[merchant@];
        &&& post.registry() == (PlatformState {
            current_supply: (pre.registry().current_supply - points_amount) as u64,
            ..pre.registry()
        })
        &&& post.merchants() == pre.merchants().insert(
            merchant@,
            MerchantRecord { total_redeemed: (m.total_redeemed + points_amount) as u64, ..m },
        )
        &&& post.purchases() == pre.purchases().insert(
            (customer@, product_id_hash@, nonce),
            PurchaseRecord {
                customer,
                merchant,
                product_id_hash,
                nonce,
                payment_type: PaymentType::Points,
                amount_paid: points_amount,
                points_earned: 0,
                purchased_at: now,
            },
        )
    }

    /// A customer buys a product with `points_amount` points, which are
    /// burnt. No fee is due: nothing is minted. `customer_balance` is the
    /// customer's point balance as the host reads it.
    pub fn purchase_product_with_points(
        &mut self,
        customer: Pubkey,
        merchant: Pubkey,
        product_id_hash: [u8; 32],
        points_amount: u64,
        nonce: u64,
        customer_balance: u64,
        now: i64,
    ) -> (r: Result<Vec<Effect>, LoyaltyError>)
        requires
            old(self).wf(),
        ensures
            final(self).wf(),
            all_within_allowance(old(self).merchants()) ==> all_within_allowance(
                final(self).merchants(),
            ),
            match old(self).purchase_with_points_error(
                customer@,
                merchant@,
                product_id_hash@,
                points_amount,
                nonce,
                customer_balance,
            ) {
                Some(e) => r == Err::<Vec<Effect>, LoyaltyError>(e) && *final(self) == *old(self),
                None => r matches Ok(effects) && {
                    &&& Platform::purchase_with_points_post(
                        *old(self),
                        *final(self),
                        customer,
                        merchant,
                        product_id_hash,
                        points_amount,
                        nonce,
                        now,
                    )
                    &&& effects@ == seq![
                        Effect::BurnPoints { from: customer, amount: points_amount },
                    ]
                },
            },
    {
        if !self.state.is_active {
            return Err(LoyaltyError::PlatformInactive);
        }
        let mut record = match self.merchants.get(&merchant) {
            Some(m) => m,
            None => return Err(LoyaltyError::UnauthorizedMerchant),
        };
        if !record.is_authorized {
            return Err(LoyaltyError::UnauthorizedMerchant);
        }
        if self.purchases.get(&customer, &product_id_hash, nonce).is_some() {
            return Err(LoyaltyError::DuplicatePurchase);
        }
        if points_amount == 0 {
            return Err(LoyaltyError::InvalidAmount);
        }
        if customer_balance < points_amount {
            return Err(LoyaltyError::InsufficientPointsBalance);
        }
        let mut next = self.state;
        if let Err(e) = next.apply_burn(points_amount) {
            return Err(e);
        }
        if let Err(e) = record.record_redeem(points_amount) {
            return Err(e);
        }
        let purchase = PurchaseRecord {
            customer,
            merchant,
            product_id_hash,
            nonce,
            payment_type: PaymentType::Points,
            amount_paid: points_amount,
            points_earned: 0,
            purchased_at: now,
        };
        proof {
            self.merchants.lemma_keyed_by_wallet(merchant@);
        }
        self.merchants.update(record);
        self.purchases.insert_new(purchase);
        self.state = next;
        let mut effects: Vec<Effect> = Vec::new();
        effects.push(Effect::BurnPoints { from: customer, amount: points_amount });
        Ok(effects)
    }

    /// The error, if any, that a redemption meets, in the order of the
    /// checks. `consumer_balance` is the consumer's point balance.
    pub open spec fn redeem_error(
        &self,
        merchant: Seq<u8>,
        amount: u64,
        reward_id_len: nat,
        consumer_balance: u64,
    ) -> Option<LoyaltyError> {
        if !self.registry().is_active {
            Some(LoyaltyError::PlatformInactive)
        } else if !self.is_authorized_merchant(merchant) {
            Some(LoyaltyError::UnauthorizedMerchant)
        } else if amount == 0 {
            Some(LoyaltyError::InvalidAmount)
        } else if reward_id_len > MAX_REFERENCE_LEN {
            Some(LoyaltyError::ReferenceTooLong)
        } else if consumer_balance < amount {
            Some(LoyaltyError::InsufficientBalance)
        } else if self.merchants()[merchant].total_redeemed + amount > u64::MAX {
            Some(LoyaltyError::ArithmeticOverflow)
        } else {
            None
        }
    }

    /// A consumer redeems `amount` points at a merchant: the points move to
    /// the merchant's point account and stay in circulation, so the supply
    /// does not change. `consumer_balance` is the consumer's point balance
    /// as the host reads it.
    pub fn redeem_points(
        &mut self,
        consumer: Pubkey,
        merchant: Pubkey,
        amount: u64,
        reward_id: &str,
        consumer_balance: u64,
    ) -> (r: Result<Vec<Effect>, LoyaltyError>)
        requires
            old(self).wf(),
        ensures
            final(self).wf(),
            all_within_allowance(old(self).merchants()) ==> all_within_allowance(
                final(self).merchants(),
            ),
            match old(self).redeem_error(
                merchant@,
                amount,
                reward_id.len() as nat,
                consumer_balance,
            ) {
                Some(e) => r == Err::<Vec<Effect>, LoyaltyError>(e) && *final(self) == *old(self),
                None => r matches Ok(effects) && {
                    &&& final(self).registry() == old(self).registry()
                    &&& final(self).merchants() == old(self).merchants().insert(
                        merchant@,
                        MerchantRecord {
                            total_redeemed: (old(self).merchants()[merchant@].total_redeemed
                                + amount) as u64,
                            ..old(self).merchants()[merchant@]
                        },
                    )
                    &&& final(self).purchases() == old(self).purchases()
                    &&& effects@ == seq![
                        Effect::TransferPoints { from: consumer, to: merchant, amount },
                    ]
                },
            },
    {
        if !self.state.is_active {
            return Err(LoyaltyError::PlatformInactive);
        }
        let mut record = match self.merchants.get(&merchant) {
            Some(m) => m,
            None => return Err(LoyaltyError::UnauthorizedMerchant),
        };
        if !record.is_authorized {
            return Err(LoyaltyError::UnauthorizedMerchant);
        }
        if amount == 0 {
            return Err(LoyaltyError::InvalidAmount);
        }
        if reward_id.len() > MAX_REFERENCE_LEN {
            return Err(LoyaltyError::ReferenceTooLong);
        }
        if consumer_balance < amount {
            return Err(LoyaltyError::InsufficientBalance);
        }
        if let Err(e) = record.record_redeem(amount) {
            return Err(e);
        }
        proof {
            self.merchants.lemma_keyed_by_wallet(merchant@);
        }
        self.merchants.update(record);
        let mut effects: Vec<Effect> = Vec::new();
        effects.push(Effect::TransferPoints { from: consumer, to: merchant, amount });
        Ok(effects)
    }

    /// The call data that labels the point token with a display name, a
    /// symbol and a URI (admin only). The host sends it to the token-metadata
    /// program, signed by the platform as mint authority.
    pub fn set_token_metadata(&self, caller: &Pubkey, name: &str, symbol: &str, uri: &str) -> (r:
        Result<Vec<u8>, LoyaltyError>)
        requires
            name.spec_bytes().len() <= u32::MAX,
            symbol.spec_bytes().len() <= u32::MAX,
            uri.spec_bytes().len() <= u32::MAX,
        ensures
            caller@ != self.registry().admin@ ==> r == Err::<Vec<u8>, LoyaltyError>(
                LoyaltyError::UnauthorizedAdmin,
            ),
            caller@ == self.registry().admin@ ==> (r matches Ok(data) && data@
                == metadata_call_data(name.spec_bytes(), symbol.spec_bytes(), uri.spec_bytes())),
    {
        if *caller != self.state.admin {
            return Err(LoyaltyError::UnauthorizedAdmin);
        }
        Ok(metadata_instruction_data(name, symbol, uri))
    }

}

} // verus!
