use vstd::prelude::*;

use crate::errors::LoyaltyError;

verus! {

/// Native-currency base units in one whole coin.
pub const LAMPORTS_PER_SOL: u64 = 1_000_000_000;

/// Number of started thousands in `points`.
pub open spec fn thousands_rounded_up(points: int) -> int {
    (points + 999) / 1000
}

/// The protocol fee for minting `points`: a fixed part plus `rate` for each
/// started thousand of points.
pub open spec fn fee_for(base: int, rate: int, points: int) -> int {
    base + thousands_rounded_up(points) * rate
}

/// Whether every step of the fee computation stays within `u64`.
pub open spec fn fee_fits(base: u64, rate: u64, points: u64) -> bool {
    &&& points + 999 <= u64::MAX
    &&& thousands_rounded_up(points as int) * rate <= u64::MAX
    &&& fee_for(base as int, rate as int, points as int) <= u64::MAX
}

/// Computes the protocol fee `base + ceil(points / 1000) * rate`, failing with
/// `ArithmeticOverflow` where a step leaves `u64`.
pub fn compute_fee(base: u64, rate: u64, points: u64) -> (r: Result<u64, LoyaltyError>)
    ensures
        r is Ok <==> fee_fits(base, rate, points),
        r matches Ok(fee) ==> fee == fee_for(base as int, rate as int, points as int),
        r matches Err(e) ==> e == LoyaltyError::ArithmeticOverflow,
{
    let padded = match points.checked_add(999) {
        Some(v) => v,
        None => return Err(LoyaltyError::ArithmeticOverflow),
    };
    let thousands = padded / 1000;
    let variable = match thousands.checked_mul(rate) {
        Some(v) => v,
        None => return Err(LoyaltyError::ArithmeticOverflow),
    };
    match base.checked_add(variable) {
        Some(v) => Ok(v),
        None => Err(LoyaltyError::ArithmeticOverflow),
    }
}

/// More points never cost a smaller fee.
pub proof fn lemma_fee_monotonic(base: int, rate: int, fewer: int, more: int)
    requires
        0 <= rate,
        0 <= fewer <= more,
    ensures
        fee_for(base, rate, fewer) <= fee_for(base, rate, more),
{
    assert(thousands_rounded_up(fewer) <= thousands_rounded_up(more)) by (nonlinear_arith)
        requires fewer <= more;
    assert(thousands_rounded_up(fewer) * rate <= thousands_rounded_up(more) * rate)
        by (nonlinear_arith)
        requires
            thousands_rounded_up(fewer) <= thousands_rounded_up(more),
            0 <= rate;
}

/// Where the fee for `more` points can be computed, so can the fee for any
/// smaller amount, and it is no larger.
pub proof fn lemma_compute_fee_monotonic(base: u64, rate: u64, fewer: u64, more: u64)
    requires
        fewer <= more,
        fee_fits(base, rate, more),
    ensures
        fee_fits(base, rate, fewer),
        fee_for(base as int, rate as int, fewer as int) <= fee_for(base as int, rate as int, more as int),
{
    lemma_fee_monotonic(base as int, rate as int, fewer as int, more as int);
    assert(thousands_rounded_up(fewer as int) * rate <= thousands_rounded_up(more as int) * rate)
        by (nonlinear_arith)
        requires
            fewer <= more,
            0 <= rate;
}

/// A single point already costs one whole unit of the variable fee.
pub proof fn lemma_fee_of_one_point(base: int, rate: int)
    ensures
        fee_for(base, rate, 1) == base + rate,
{
    assert(thousands_rounded_up(1) == 1);
}

} // verus!
