use vstd::prelude::*;

use crate::errors::LoyaltyError;
use crate::fees::LAMPORTS_PER_SOL;

verus! {

/// Ten to the power `n`.
pub open spec fn pow10(n: nat) -> int
    decreases n,
{
    if n == 0 {
        1
    } else {
        10 * pow10((n - 1) as nat)
    }
}

/// Powers of ten grow with the exponent.
pub proof fn lemma_pow10_grows(a: nat, b: nat)
    requires
        a <= b,
    ensures
        1 <= pow10(a) <= pow10(b),
    decreases b,
{
    if a < b {
        lemma_pow10_grows(a, (b - 1) as nat);
    } else if a > 0 {
        lemma_pow10_grows((a - 1) as nat, (a - 1) as nat);
    }
}

/// The points bought by `amount` base units of currency: `ratio` whole points
/// per coin, scaled by the token's `decimals`, rounded down.
pub open spec fn points_for_deposit(amount: int, ratio: int, decimals: nat) -> int {
    amount * ratio * pow10(decimals) / (LAMPORTS_PER_SOL as int)
}

/// A deposit never buys a negative number of points.
pub proof fn lemma_points_nonnegative(amount: u64, ratio: u64, decimals: nat)
    ensures
        points_for_deposit(amount as int, ratio as int, decimals) >= 0,
{
    lemma_pow10_grows(0, decimals);
    let p = pow10(decimals);
    assert(amount * ratio * p >= 0) by (nonlinear_arith)
        requires
            p >= 1;
}

/// Whether every product in the conversion stays within `u64`.
pub open spec fn deposit_fits(amount: u64, ratio: u64, decimals: u8) -> bool {
    &&& pow10(decimals as nat) <= u64::MAX
    &&& amount * ratio <= u64::MAX
    &&& amount * ratio * pow10(decimals as nat) <= u64::MAX
}

/// Computes `10^decimals`, or `None` where it leaves `u64`.
pub fn decimals_multiplier(decimals: u8) -> (r: Option<u64>)
    ensures
        r is Some <==> pow10(decimals as nat) <= u64::MAX,
        r matches Some(m) ==> m == pow10(decimals as nat),
{
    let mut m: u64 = 1;
    let mut i: u8 = 0;
    while i < decimals
        invariant
            i <= decimals,
            m == pow10(i as nat),
        decreases decimals - i,
    {
        match m.checked_mul(10) {
            Some(next) => {
                m = next;
            },
            None => {
                proof {
                    lemma_pow10_grows((i + 1) as nat, decimals as nat);
                }
                return None;
            },
        }
        i = i + 1;
    }
    Some(m)
}

/// Converts a currency deposit into points:
/// `amount * ratio * 10^decimals / LAMPORTS_PER_SOL`, rounded down.
///
/// A zero deposit, and a deposit worth less than one point, are refused with
/// `InvalidAmount`; a product that leaves `u64` with `ArithmeticOverflow`.
pub fn deposit_to_points(amount: u64, ratio: u64, decimals: u8) -> (r: Result<u64, LoyaltyError>)
    ensures
        amount == 0 ==> r == Err::<u64, LoyaltyError>(LoyaltyError::InvalidAmount),
        amount > 0 && !deposit_fits(amount, ratio, decimals) ==> r == Err::<u64, LoyaltyError>(
            LoyaltyError::ArithmeticOverflow,
        ),
        amount > 0 && deposit_fits(amount, ratio, decimals) && points_for_deposit(
            amount as int,
            ratio as int,
            decimals as nat,
        ) == 0 ==> r == Err::<u64, LoyaltyError>(LoyaltyError::InvalidAmount),
        amount > 0 && deposit_fits(amount, ratio, decimals) && points_for_deposit(
            amount as int,
            ratio as int,
            decimals as nat,
        ) > 0 ==> r == Ok::<u64, LoyaltyError>(
            points_for_deposit(amount as int, ratio as int, decimals as nat) as u64,
        ),
{
    if amount == 0 {
        return Err(LoyaltyError::InvalidAmount);
    }
    let multiplier = match decimals_multiplier(decimals) {
        Some(m) => m,
        None => return Err(LoyaltyError::ArithmeticOverflow),
    };
    let scaled = match amount.checked_mul(ratio) {
        Some(v) => v,
        None => return Err(LoyaltyError::ArithmeticOverflow),
    };
    let total = match scaled.checked_mul(multiplier) {
        Some(v) => v,
        None => return Err(LoyaltyError::ArithmeticOverflow),
    };
    let points = total / LAMPORTS_PER_SOL;
    if points == 0 {
        return Err(LoyaltyError::InvalidAmount);
    }
    Ok(points)
}

} // verus!
