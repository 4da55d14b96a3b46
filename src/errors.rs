use vstd::prelude::*;

verus! {

/// Every way in which a platform operation can be refused.
///
/// A refused operation has no effect at all: no counter moves, no record is
/// created and no transfer, mint or burn is handed out.
#[derive(Debug, Clone, Copy, PartialEq, Eq, Structural)]
pub enum LoyaltyError {
    UnauthorizedAdmin,
    UnauthorizedMerchant,
    MerchantAlreadyRegistered,
    MerchantNotRegistered,
    InsufficientBalance,
    ExceedsMintAllowance,
    ExceedsMaxSupply,
    PlatformInactive,
    InvalidAmount,
    InvalidDecimals,
    ArithmeticOverflow,
    ReferenceTooLong,
    InvalidTreasury,
    InsufficientFeePayment,
    InvalidPaymentType,
    MissingProductId,
    InsufficientSolDeposit,
    DepositExceedsMaxSupply,
    InsufficientPointsBalance,
    InvalidRatio,
    DuplicatePurchase,
}

} // verus!
