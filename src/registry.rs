use vstd::prelude::*;

use crate::errors::LoyaltyError;
use crate::key::Pubkey;

verus! {

/// Largest number of decimals the point token may have.
pub const MAX_DECIMALS: u8 = 9;

/// The platform's one global record: who administers it, where fees go, the
/// supply cap, the fee schedule and the aggregate counters.
#[derive(Debug, Clone, Copy, PartialEq, Eq)]
pub struct PlatformState {
    pub admin: Pubkey,
    pub token_mint: Pubkey,
    pub protocol_treasury: Pubkey,
    pub max_supply: u64,
    pub current_supply: u64,
    pub token_decimals: u8,
    pub merchant_count: u32,
    pub is_active: bool,
    pub base_mint_fee: u64,
    pub fee_rate_per_thousand: u64,
    pub total_fees_collected: u64,
    pub sol_to_points_ratio: u64,
}

impl PlatformState {
    /// What every platform state satisfies: the supply never passes the cap,
    /// the decimals and the conversion ratio are valid.
    pub open spec fn wf(&self) -> bool {
        &&& self.current_supply <= self.max_supply
        &&& self.token_decimals <= MAX_DECIMALS
        &&& self.sol_to_points_ratio > 0
    }

    /// The error, if any, that setting up a platform with these settings
    /// meets: too many decimals first, then a zero conversion ratio.
    pub open spec fn initialize_error(token_decimals: u8, sol_to_points_ratio: u64) -> Option<
        LoyaltyError,
    > {
        if token_decimals > MAX_DECIMALS {
            Some(LoyaltyError::InvalidDecimals)
        } else if sol_to_points_ratio == 0 {
            Some(LoyaltyError::InvalidRatio)
        } else {
            None
        }
    }

    /// A fresh platform state: nothing minted, no merchants, no fees, active.
    pub open spec fn initial(
        admin: Pubkey,
        token_mint: Pubkey,
        protocol_treasury: Pubkey,
        token_decimals: u8,
        max_supply: u64,
        base_mint_fee: u64,
        fee_rate_per_thousand: u64,
        sol_to_points_ratio: u64,
    ) -> PlatformState {
        PlatformState {
            admin,
            token_mint,
            protocol_treasury,
            max_supply,
            current_supply: 0,
            token_decimals,
            merchant_count: 0,
            is_active: true,
            base_mint_fee,
            fee_rate_per_thousand,
            total_fees_collected: 0,
            sol_to_points_ratio,
        }
    }

    /// Sets up the platform's global record, refusing invalid settings.
    pub fn initialize(
        admin: Pubkey,
        token_mint: Pubkey,
        protocol_treasury: Pubkey,
        token_decimals: u8,
        max_supply: u64,
        base_mint_fee: u64,
        fee_rate_per_thousand: u64,
        sol_to_points_ratio: u64,
    ) -> (r: Result<PlatformState, LoyaltyError>)
        ensures
            match PlatformState::initialize_error(token_decimals, sol_to_points_ratio) {
                Some(e) => r == Err::<PlatformState, LoyaltyError>(e),
                None => r == Ok::<PlatformState, LoyaltyError>(
                    PlatformState::initial(
                        admin,
                        token_mint,
                        protocol_treasury,
                        token_decimals,
                        max_supply,
                        base_mint_fee,
                        fee_rate_per_thousand,
                        sol_to_points_ratio,
                    ),
                ),
            },
            r matches Ok(s) ==> s.wf(),
    {
        if token_decimals > MAX_DECIMALS {
            return Err(LoyaltyError::InvalidDecimals);
        }
        if sol_to_points_ratio == 0 {
            return Err(LoyaltyError::InvalidRatio);
        }
        Ok(
            PlatformState {
                admin,
                token_mint,
                protocol_treasury,
                max_supply,
                current_supply: 0,
                token_decimals,
                merchant_count: 0,
                is_active: true,
                base_mint_fee,
                fee_rate_per_thousand,
                total_fees_collected: 0,
                sol_to_points_ratio,
            },
        )
    }

    /// The error, if any, that minting `amount` more points meets.
    pub open spec fn mint_error(&self, amount: u64) -> Option<LoyaltyError> {
        if self.current_supply + amount > u64::MAX {
            Some(LoyaltyError::ArithmeticOverflow)
        } else if self.current_supply + amount > self.max_supply {
            Some(LoyaltyError::ExceedsMaxSupply)
        } else {
            None
        }
    }

    /// Adds `amount` to the supply, which must stay within the cap.
    pub fn apply_mint(&mut self, amount: u64) -> (r: Result<(), LoyaltyError>)
        ensures
            match old(self).mint_error(amount) {
                Some(e) => r == Err::<(), LoyaltyError>(e) && *final(self) == *old(self),
                None => r is Ok && *final(self) == (PlatformState {
                    current_supply: (old(self).current_supply + amount) as u64,
                    ..*old(self)
                }),
            },
    {
        let next = match self.current_supply.checked_add(amount) {
            Some(v) => v,
            None => return Err(LoyaltyError::ArithmeticOverflow),
        };
        if next > self.max_supply {
            return Err(LoyaltyError::ExceedsMaxSupply);
        }
        self.current_supply = next;
        Ok(())
    }

    /// Takes `amount` off the supply, failing with `ArithmeticOverflow` where
    /// fewer points are in circulation.
    pub fn apply_burn(&mut self, amount: u64) -> (r: Result<(), LoyaltyError>)
        ensures
            amount > old(self).current_supply ==> r == Err::<(), LoyaltyError>(
                LoyaltyError::ArithmeticOverflow,
            ) && *final(self) == *old(self),
            amount <= old(self).current_supply ==> r is Ok && *final(self) == (PlatformState {
                current_supply: (old(self).current_supply - amount) as u64,
                ..*old(self)
            }),
    {
        match self.current_supply.checked_sub(amount) {
            Some(v) => {
                self.current_supply = v;
                Ok(())
            },
            None => Err(LoyaltyError::ArithmeticOverflow),
        }
    }

    /// Adds a collected fee to the running total.
    pub fn accrue_fee(&mut self, amount: u64) -> (r: Result<(), LoyaltyError>)
        ensures
            old(self).total_fees_collected + amount > u64::MAX ==> r == Err::<(), LoyaltyError>(
                LoyaltyError::ArithmeticOverflow,
            ) && *final(self) == *old(self),
            old(self).total_fees_collected + amount <= u64::MAX ==> r is Ok && *final(self) == (
            PlatformState {
                total_fees_collected: (old(self).total_fees_collected + amount) as u64,
                ..*old(self)
            }),
    {
        match self.total_fees_collected.checked_add(amount) {
            Some(v) => {
                self.total_fees_collected = v;
                Ok(())
            },
            None => Err(LoyaltyError::ArithmeticOverflow),
        }
    }
}

} // verus!
