//! The pool record and the decisions taken against it.

use vstd::prelude::*;
use crate::curve::{
    bootstrap_issue, deposit_amounts, spec_deposit_amounts, spec_withdraw_amounts,
    withdraw_amounts, XYAmounts,
};
use crate::error::AmmError;
use crate::math::floor_sqrt;

verus! {

/// The identity of an asset, an account or a signer: 32 opaque bytes.
#[derive(Clone, Copy, Debug, PartialEq, Eq)]
pub struct Pubkey {
    pub bytes: [u8; 32],
}

impl Pubkey {
    /// Whether two identities are the same, byte for byte.
    pub fn same(&self, other: &Pubkey) -> (r: bool)
        ensures
            r == (*self == *other),
    {
        let mut i: usize = 0;
        while i < 32
            invariant
                i <= 32,
                forall|j: int| 0 <= j < i ==> self.bytes[j] == other.bytes[j],
            decreases 32 - i,
        {
            if self.bytes[i] != other.bytes[i] {
                return false;
            }
            i = i + 1;
        }
        assert(self.bytes =~= other.bytes);
        true
    }
}

/// The pool record: the two assets it is bound to, its pause flag, and the
/// markers from which its vaults and share mint are derived.
#[derive(Clone, Copy, Debug, PartialEq, Eq)]
pub struct Config {
    /// The creator of the pool; `None` means no privileged administrator.
    pub authority: Option<Pubkey>,
    /// The identity of asset X, fixed at creation.
    pub mint_x: Pubkey,
    /// The identity of asset Y, fixed at creation.
    pub mint_y: Pubkey,
    /// While set, deposits and withdrawals are rejected.
    pub locked: bool,
    /// Derivation marker of the pool record itself.
    pub config_bump: u8,
    /// Derivation marker of the share mint.
    pub lp_bump: u8,
}

/// What a successful deposit settles: the shares to mint and the amounts of
/// each asset to move into the vaults.
#[derive(Clone, Copy, Debug, PartialEq, Eq, Structural)]
pub struct DepositReceipt {
    pub minted_shares: u64,
    pub spent_x: u64,
    pub spent_y: u64,
}

/// Whether a snapshot describes a pool that has never been provisioned.
pub open spec fn is_bootstrap(reserve_x: u64, reserve_y: u64, total_shares: u64) -> bool {
    total_shares == 0 && reserve_x == 0 && reserve_y == 0
}

/// A snapshot is consistent when shares are outstanding exactly while the
/// pool holds something: no shares against empty reserves, and no reserves
/// that nobody has a share of.
pub open spec fn is_consistent(reserve_x: int, reserve_y: int, total_shares: int) -> bool {
    total_shares == 0 <==> (reserve_x == 0 && reserve_y == 0)
}

/// The outcome of a deposit against a snapshot of the pool.
///
/// A paused pool rejects everything; then a request for zero shares is
/// rejected. On an empty pool the two bounds are the seed amounts, spent in
/// full, and the shares are the floor of their geometric mean, which must
/// not be zero. Otherwise the requested shares are minted for the
/// proportional amounts, which must not exceed the bounds.
pub open spec fn spec_deposit(
    locked: bool,
    reserve_x: u64,
    reserve_y: u64,
    total_shares: u64,
    requested_shares: u64,
    max_x: u64,
    max_y: u64,
) -> Result<DepositReceipt, AmmError> {
    if locked {
        Err(AmmError::PoolLocked)
    } else if requested_shares == 0 {
        Err(AmmError::InvalidAmount)
    } else if is_bootstrap(reserve_x, reserve_y, total_shares) {
        if floor_sqrt(max_x as nat * max_y as nat) == 0 {
            Err(AmmError::InvalidAmount)
        } else {
            Ok(
                DepositReceipt {
                    minted_shares: floor_sqrt(max_x as nat * max_y as nat) as u64,
                    spent_x: max_x,
                    spent_y: max_y,
                },
            )
        }
    } else {
        match spec_deposit_amounts(reserve_x, reserve_y, total_shares, requested_shares) {
            Err(e) => Err(e),
            Ok(need) => if need.x > max_x || need.y > max_y {
                Err(AmmError::SlippageExceeded)
            } else {
                Ok(
                    DepositReceipt {
                        minted_shares: requested_shares,
                        spent_x: need.x,
                        spent_y: need.y,
                    },
                )
            },
        }
    }
}

/// The outcome of a withdrawal against a snapshot of the pool.
///
/// A paused pool rejects everything; then a burn of zero shares, and a
/// request with no floor on either side, are rejected. Shares that cannot
/// be redeemed against the supply are rejected as an invalid amount. The
/// proportional amounts must reach both floors.
pub open spec fn spec_withdraw(
    locked: bool,
    reserve_x: u64,
    reserve_y: u64,
    total_shares: u64,
    burn_shares: u64,
    min_x: u64,
    min_y: u64,
) -> Result<XYAmounts, AmmError> {
    if locked {
        Err(AmmError::PoolLocked)
    } else if burn_shares == 0 {
        Err(AmmError::InvalidAmount)
    } else if min_x == 0 && min_y == 0 {
        Err(AmmError::InvalidAmount)
    } else {
        match spec_withdraw_amounts(reserve_x, reserve_y, total_shares, burn_shares) {
            Err(_) => Err(AmmError::InvalidAmount),
            Ok(out) => if out.x < min_x || out.y < min_y {
                Err(AmmError::SlippageExceeded)
            } else {
                Ok(out)
            },
        }
    }
}

impl Config {
    /// The invariant of a pool record: its two assets differ.
    pub open spec fn wf(&self) -> bool {
        self.mint_x != self.mint_y
    }

    /// Decides a deposit against a snapshot of the reserves and the share
    /// supply. Nothing is moved or minted here: the receipt says what to
    /// settle. A request for zero shares on an open pool is always
    /// rejected as an invalid amount, and a success always mints at least
    /// one share.
    pub fn deposit(
        &self,
        reserve_x: u64,
        reserve_y: u64,
        total_shares: u64,
        requested_shares: u64,
        max_x: u64,
        max_y: u64,
    ) -> (r: Result<DepositReceipt, AmmError>)
        ensures
            r == spec_deposit(
                self.locked,
                reserve_x,
                reserve_y,
                total_shares,
                requested_shares,
                max_x,
                max_y,
            ),
            self.locked ==> r == Err::<DepositReceipt, AmmError>(AmmError::PoolLocked),
            !self.locked && requested_shares == 0 ==> r == Err::<DepositReceipt, AmmError>(
                AmmError::InvalidAmount,
            ),
            r matches Ok(receipt) ==> receipt.minted_shares > 0 && receipt.spent_x <= max_x
                && receipt.spent_y <= max_y,
    {
        if self.locked {
            return Err(AmmError::PoolLocked);
        }
        if requested_shares == 0 {
            return Err(AmmError::InvalidAmount);
        }
        if total_shares == 0 && reserve_x == 0 && reserve_y == 0 {
            let minted: u64 = match bootstrap_issue(max_x, max_y) {
                Ok(shares) => shares,
                Err(e) => {
                    return Err(e);
                },
            };
            if minted == 0 {
                return Err(AmmError::InvalidAmount);
            }
            Ok(DepositReceipt { minted_shares: minted, spent_x: max_x, spent_y: max_y })
        } else {
            let need: XYAmounts = match deposit_amounts(
                reserve_x,
                reserve_y,
                total_shares,
                requested_shares,
            ) {
                Ok(amounts) => amounts,
                Err(e) => {
                    return Err(e);
                },
            };
            if need.x > max_x || need.y > max_y {
                return Err(AmmError::SlippageExceeded);
            }
            Ok(DepositReceipt { minted_shares: requested_shares, spent_x: need.x, spent_y: need.y })
        }
    }

    /// Decides a withdrawal against a snapshot of the reserves and the
    /// share supply. Nothing is burned or moved here: the amounts say what
    /// to settle. A burn of zero shares on an open pool is always rejected
    /// as an invalid amount, and a success never pays more than a reserve
    /// holds.
    pub fn withdraw(
        &self,
        reserve_x: u64,
        reserve_y: u64,
        total_shares: u64,
        burn_shares: u64,
        min_x: u64,
        min_y: u64,
    ) -> (r: Result<XYAmounts, AmmError>)
        ensures
            r == spec_withdraw(
                self.locked,
                reserve_x,
                reserve_y,
                total_shares,
                burn_shares,
                min_x,
                min_y,
            ),
            self.locked ==> r == Err::<XYAmounts, AmmError>(AmmError::PoolLocked),
            !self.locked && burn_shares == 0 ==> r == Err::<XYAmounts, AmmError>(
                AmmError::InvalidAmount,
            ),
            r matches Ok(out) ==> out.x <= reserve_x && out.y <= reserve_y && min_x <= out.x
                && min_y <= out.y,
    {
        if self.locked {
            return Err(AmmError::PoolLocked);
        }
        if burn_shares == 0 {
            return Err(AmmError::InvalidAmount);
        }
        if min_x == 0 && min_y == 0 {
            return Err(AmmError::InvalidAmount);
        }
        let out: XYAmounts = match withdraw_amounts(
            reserve_x,
            reserve_y,
            total_shares,
            burn_shares,
        ) {
            Ok(amounts) => amounts,
            Err(_) => {
                return Err(AmmError::InvalidAmount);
            },
        };
        if out.x < min_x || out.y < min_y {
            return Err(AmmError::SlippageExceeded);
        }
        Ok(out)
    }
}

} // verus!
