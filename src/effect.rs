use vstd::prelude::*;

use crate::key::Pubkey;

verus! {

/// A call into the host's currency or point-token primitives that an
/// operation asks for. An accepted operation hands back its calls in the
/// order in which they are to be made; the host makes all of them or, where
/// one fails, none, and then drops the operation's state changes too.
#[derive(Debug, Clone, Copy, PartialEq, Eq)]
pub enum Effect {
    /// Move `amount` base units of the native currency.
    TransferLamports { from: Pubkey, to: Pubkey, amount: u64 },
    /// Mint `amount` points into the point-token account of `to`, signed by
    /// the platform as mint authority.
    MintPoints { to: Pubkey, amount: u64 },
    /// Burn `amount` points from the point-token account of `from`.
    BurnPoints { from: Pubkey, amount: u64 },
    /// Move `amount` points between two point-token accounts.
    TransferPoints { from: Pubkey, to: Pubkey, amount: u64 },
}

} // verus!
