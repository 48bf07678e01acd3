//! The ways in which a pool operation is rejected.

use vstd::prelude::*;

verus! {

/// Why an operation was rejected. A rejected operation moves, mints and
/// burns nothing.
#[derive(Clone, Copy, Debug, PartialEq, Eq, Structural)]
pub enum AmmError {
    /// The X asset handed in is not the one the pool is bound to.
    InvalidMintX,
    /// The Y asset handed in is not the one the pool is bound to.
    InvalidMintY,
    /// The pool record is malformed: both sides name the same asset.
    InvalidConfig,
    /// A quantity is zero or cannot be redeemed against the share supply.
    InvalidAmount,
    /// The computed amounts lie outside the bounds the caller gave.
    SlippageExceeded,
    /// The pool is paused.
    PoolLocked,
    /// An intermediate or final quantity does not fit its integer width.
    MathOverflow,
}

impl AmmError {
    /// The text shown to a user for each kind of rejection.
    pub open spec fn spec_message(self) -> Seq<char> {
        match self {
            AmmError::InvalidMintX => "Invalid Mint X"@,
            AmmError::InvalidMintY => "Invalid Mint Y"@,
            AmmError::InvalidConfig => "Invalid Config"@,
            AmmError::InvalidAmount => "Invalid Amount"@,
            AmmError::SlippageExceeded => "Slippage Exceeded"@,
            AmmError::PoolLocked => "Pool Locked"@,
            AmmError::MathOverflow => "Math overflow"@,
        }
    }

    /// Returns the user-visible text of this rejection.
    pub fn message(&self) -> (text: &'static str)
        ensures
            text@ == self.spec_message(),
    {
        match self {
            AmmError::InvalidMintX => "Invalid Mint X",
            AmmError::InvalidMintY => "Invalid Mint Y",
            AmmError::InvalidConfig => "Invalid Config",
            AmmError::InvalidAmount => "Invalid Amount",
            AmmError::SlippageExceeded => "Slippage Exceeded",
            AmmError::PoolLocked => "Pool Locked",
            AmmError::MathOverflow => "Math overflow",
        }
    }
}

} // verus!
