use vstd::prelude::*;

use crate::errors::LoyaltyError;
use crate::key::Pubkey;

verus! {

/// What the platform knows of one merchant. A record is never removed: a
/// revoked merchant keeps its record with `is_authorized` false.
#[derive(Debug, Clone, Copy, PartialEq, Eq)]
pub struct MerchantRecord {
    pub wallet: Pubkey,
    pub is_authorized: bool,
    /// Cap on the points this merchant may mint in all; zero means no cap
    /// beyond the platform's own.
    pub mint_allowance: u64,
    pub total_minted: u64,
    pub total_redeemed: u64,
    pub total_fees_paid: u64,
    pub registered_at: i64,
}

/// A merchant with a cap has not minted past it.
pub open spec fn within_allowance(m: MerchantRecord) -> bool {
    m.mint_allowance != 0 ==> m.total_minted <= m.mint_allowance
}

/// Minting `extra` more points keeps the merchant within its cap, if it has
/// one.
pub open spec fn fits_allowance(m: MerchantRecord, extra: int) -> bool {
    m.mint_allowance == 0 || m.total_minted + extra <= m.mint_allowance
}

impl MerchantRecord {
    /// A freshly registered, authorized merchant with all counters at zero.
    pub fn new(wallet: Pubkey, mint_allowance: u64, registered_at: i64) -> (r: MerchantRecord)
        ensures
            r == (MerchantRecord {
                wallet,
                is_authorized: true,
                mint_allowance,
                total_minted: 0,
                total_redeemed: 0,
                total_fees_paid: 0,
                registered_at,
            }),
            within_allowance(r),
    {
        MerchantRecord {
            wallet,
            is_authorized: true,
            mint_allowance,
            total_minted: 0,
            total_redeemed: 0,
            total_fees_paid: 0,
            registered_at,
        }
    }

    /// The error, if any, that a request to mint `requested` more points
    /// meets against this merchant's allowance.
    pub open spec fn allowance_error(&self, requested: u64) -> Option<LoyaltyError> {
        if self.mint_allowance == 0 {
            None
        } else if self.total_minted > self.mint_allowance {
            Some(LoyaltyError::ArithmeticOverflow)
        } else if requested > self.mint_allowance - self.total_minted {
            Some(LoyaltyError::ExceedsMintAllowance)
        } else {
            None
        }
    }

    /// Checks that `requested` more points fit in what is left of the
    /// allowance; a zero allowance leaves only the platform cap.
    pub fn check_allowance(&self, requested: u64) -> (r: Result<(), LoyaltyError>)
        ensures
            match self.allowance_error(requested) {
                Some(e) => r == Err::<(), LoyaltyError>(e),
                None => r is Ok,
            },
    {
        if self.mint_allowance == 0 {
            return Ok(());
        }
        let remaining = match self.mint_allowance.checked_sub(self.total_minted) {
            Some(v) => v,
            None => return Err(LoyaltyError::ArithmeticOverflow),
        };
        if requested > remaining {
            return Err(LoyaltyError::ExceedsMintAllowance);
        }
        Ok(())
    }

    /// Counts `amount` more minted points.
    pub fn record_mint(&mut self, amount: u64) -> (r: Result<(), LoyaltyError>)
        ensures
            old(self).total_minted + amount > u64::MAX ==> r == Err::<(), LoyaltyError>(
                LoyaltyError::ArithmeticOverflow,
            ) && *final(self) == *old(self),
            old(self).total_minted + amount <= u64::MAX ==> r is Ok && *final(self) == (
            MerchantRecord { total_minted: (old(self).total_minted + amount) as u64, ..*old(self) }),
    {
        match self.total_minted.checked_add(amount) {
            Some(v) => {
                self.total_minted = v;
                Ok(())
            },
            None => Err(LoyaltyError::ArithmeticOverflow),
        }
    }

    /// Counts `amount` more points redeemed at this merchant.
    pub fn record_redeem(&mut self, amount: u64) -> (r: Result<(), LoyaltyError>)
        ensures
            old(self).total_redeemed + amount > u64::MAX ==> r == Err::<(), LoyaltyError>(
                LoyaltyError::ArithmeticOverflow,
            ) && *final(self) == *old(self),
            old(self).total_redeemed + amount <= u64::MAX ==> r is Ok && *final(self) == (
            MerchantRecord {
                total_redeemed: (old(self).total_redeemed + amount) as u64,
                ..*old(self)
            }),
    {
        match self.total_redeemed.checked_add(amount) {
            Some(v) => {
                self.total_redeemed = v;
                Ok(())
            },
            None => Err(LoyaltyError::ArithmeticOverflow),
        }
    }

    /// Counts `amount` more in fees paid for this merchant's mints.
    pub fn record_fee(&mut self, amount: u64) -> (r: Result<(), LoyaltyError>)
        ensures
            old(self).total_fees_paid + amount > u64::MAX ==> r == Err::<(), LoyaltyError>(
                LoyaltyError::ArithmeticOverflow,
            ) && *final(self) == *old(self),
            old(self).total_fees_paid + amount <= u64::MAX ==> r is Ok && *final(self) == (
            MerchantRecord {
                total_fees_paid: (old(self).total_fees_paid + amount) as u64,
                ..*old(self)
            }),
    {
        match self.total_fees_paid.checked_add(amount) {
            Some(v) => {
                self.total_fees_paid = v;
                Ok(())
            },
            None => Err(LoyaltyError::ArithmeticOverflow),
        }
    }
}

} // verus!
