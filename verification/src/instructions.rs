//! The three operations of a pool, each over a plain snapshot of the
//! accounts it touches.
//!
//! An operation decides and computes; it performs no transfer itself. On
//! success it hands back the settlement: the ordered list of actions that
//! the custody and share-ledger services must carry out as one atomic unit.

pub mod deposit;
pub mod initialize;
pub mod withdraw;

use vstd::prelude::*;
use crate::error::AmmError;
use crate::state::{Config, Pubkey};

verus! {

/// What an operation reads of an asset or share mint.
#[derive(Clone, Copy, Debug, PartialEq, Eq)]
pub struct Mint {
    /// The identity of the mint.
    pub key: Pubkey,
    /// The number of units in circulation.
    pub supply: u64,
    /// The number of decimal places of a unit.
    pub decimals: u8,
}

/// What an operation reads of a token account.
#[derive(Clone, Copy, Debug, PartialEq, Eq, Structural)]
pub struct TokenAccount {
    /// The balance held.
    pub amount: u64,
}

/// One step of a settlement.
#[derive(Clone, Copy, Debug, PartialEq, Eq, Structural)]
pub enum Action {
    /// Move `amount` of asset X (`is_x`) or Y from the user into the
    /// pool's vault, authorized by the user.
    TransferIn { is_x: bool, amount: u64, decimals: u8 },
    /// Move `amount` of asset X (`is_x`) or Y from the pool's vault to the
    /// user, authorized by the pool.
    TransferOut { is_x: bool, amount: u64, decimals: u8 },
    /// Mint `amount` shares to the user, authorized by the pool.
    MintShares { amount: u64 },
    /// Burn `amount` shares of the user, authorized by the user.
    BurnShares { amount: u64, decimals: u8 },
}

/// Whether the mints handed in are the ones the pool is bound to: X is
/// looked at first, then Y.
pub open spec fn spec_check_assets(config: Config, mint_x: Mint, mint_y: Mint) -> Result<
    (),
    AmmError,
> {
    if mint_x.key != config.mint_x {
        Err(AmmError::InvalidMintX)
    } else if mint_y.key != config.mint_y {
        Err(AmmError::InvalidMintY)
    } else {
        Ok(())
    }
}

/// Checks the mints handed in against the pool record. Fails with
/// `InvalidMintX` when X differs, else with `InvalidMintY` when Y differs.
pub fn check_assets(config: &Config, mint_x: &Mint, mint_y: &Mint) -> (r: Result<(), AmmError>)
    ensures
        r == spec_check_assets(*config, *mint_x, *mint_y),
{
    if !mint_x.key.same(&config.mint_x) {
        Err(AmmError::InvalidMintX)
    } else if !mint_y.key.same(&config.mint_y) {
        Err(AmmError::InvalidMintY)
    } else {
        Ok(())
    }
}

} // verus!
