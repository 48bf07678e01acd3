//! The constant-product curve: share issuance at bootstrap, and the
//! proportional amounts owed on deposit and withdrawal.
//!
//! Every function here is pure and takes explicit snapshots of the reserves
//! and the share supply. Rounding always favors the pool: a deposit is
//! rounded up, a withdrawal is rounded down.

use vstd::prelude::*;
use crate::error::AmmError;
use crate::math::{
    ceil_div, checked_mul_wide, floor_sqrt, integer_sqrt, is_floor_sqrt, lemma_div_brackets,
    mul_div_ceil, mul_div_floor,
};

verus! {

/// The decimal exponent of the unit in which all amounts are counted: an
/// amount of one is 10^-6 of a whole token or share. Amounts are whole
/// units, so every rounding in this module is a rounding at this precision.
pub const PRECISION: u8 = 6;

/// A pair of amounts, one of each reserve asset.
#[derive(Clone, Copy, Debug, PartialEq, Eq, Structural)]
pub struct XYAmounts {
    pub x: u64,
    pub y: u64,
}

/// The amount of one asset needed to mint `shares` against `reserve` when
/// `total_shares` are outstanding: the proportional amount, rounded up.
pub open spec fn deposit_need(reserve: nat, total_shares: nat, shares: nat) -> nat {
    ceil_div(reserve * shares, total_shares)
}

/// The amount of one asset paid out for burning `shares` of
/// `total_shares` against `reserve`: the proportional amount, rounded down.
pub open spec fn withdraw_out(reserve: nat, total_shares: nat, shares: nat) -> nat {
    (reserve * shares) / total_shares
}

/// What `deposit_amounts` returns.
pub open spec fn spec_deposit_amounts(
    reserve_x: u64,
    reserve_y: u64,
    total_shares: u64,
    requested_shares: u64,
) -> Result<XYAmounts, AmmError> {
    let need_x = deposit_need(reserve_x as nat, total_shares as nat, requested_shares as nat);
    let need_y = deposit_need(reserve_y as nat, total_shares as nat, requested_shares as nat);
    if total_shares == 0 || need_x > u64::MAX || need_y > u64::MAX {
        Err(AmmError::MathOverflow)
    } else {
        Ok(XYAmounts { x: need_x as u64, y: need_y as u64 })
    }
}

/// What `withdraw_amounts` returns.
pub open spec fn spec_withdraw_amounts(
    reserve_x: u64,
    reserve_y: u64,
    total_shares: u64,
    burn_shares: u64,
) -> Result<XYAmounts, AmmError> {
    if burn_shares == 0 || burn_shares > total_shares {
        Err(AmmError::InvalidAmount)
    } else {
        Ok(
            XYAmounts {
                x: withdraw_out(reserve_x as nat, total_shares as nat, burn_shares as nat) as u64,
                y: withdraw_out(reserve_y as nat, total_shares as nat, burn_shares as nat) as u64,
            },
        )
    }
}

/// A deposit covers its shares: the amount required, measured against the
/// share supply, is at least the reserve measured against the new shares,
/// and exceeds it by less than one whole unit of the asset.
pub proof fn lemma_deposit_need_covers(reserve: nat, total_shares: nat, shares: nat)
    requires
        total_shares > 0,
    ensures
        reserve * shares <= deposit_need(reserve, total_shares, shares) * total_shares,
        deposit_need(reserve, total_shares, shares) * total_shares < reserve * shares
            + total_shares,
{
    lemma_div_brackets(reserve * shares, total_shares);
}

/// A withdrawal never pays more than the burned fraction of the reserve,
/// never more than the reserve, and pays the whole reserve when every
/// share is burned.
pub proof fn lemma_withdraw_out_bounded(reserve: nat, total_shares: nat, shares: nat)
    requires
        0 < total_shares,
        shares <= total_shares,
    ensures
        withdraw_out(reserve, total_shares, shares) * total_shares <= reserve * shares,
        withdraw_out(reserve, total_shares, shares) <= reserve,
        shares == total_shares ==> withdraw_out(reserve, total_shares, shares) == reserve,
{
    let out = withdraw_out(reserve, total_shares, shares);
    lemma_div_brackets(reserve * shares, total_shares);
    assert(out <= reserve) by (nonlinear_arith)
        requires
            out * total_shares <= reserve * shares,
            shares <= total_shares,
            0 < total_shares,
    ;
    if shares == total_shares {
        assert(out == reserve) by (nonlinear_arith)
            requires
                out * total_shares <= reserve * total_shares,
                reserve * total_shares < out * total_shares + total_shares,
                0 < total_shares,
        ;
    }
}

/// Depositing and then withdrawing the shares just minted returns no more
/// than was deposited: rounding costs the depositor, never the pool.
pub proof fn lemma_round_trip(reserve: nat, total_shares: nat, shares: nat)
    requires
        total_shares > 0,
    ensures
        withdraw_out(
            reserve + deposit_need(reserve, total_shares, shares),
            total_shares + shares,
            shares,
        ) <= deposit_need(reserve, total_shares, shares),
{
    let need = deposit_need(reserve, total_shares, shares);
    let out = withdraw_out(reserve + need, total_shares + shares, shares);
    lemma_deposit_need_covers(reserve, total_shares, shares);
    lemma_div_brackets((reserve + need) * shares, total_shares + shares);
    assert(out <= need) by (nonlinear_arith)
        requires
            reserve * shares <= need * total_shares,
            out * (total_shares + shares) <= (reserve + need) * shares,
            total_shares > 0,
    ;
}

/// A proportional deposit keeps the ratio of the reserves up to rounding:
/// the cross product of the amounts paid and the reserves is off by less
/// than one reserve, scaled by `(total_shares - 1) / total_shares`.
pub proof fn lemma_deposit_keeps_ratio(
    reserve_x: nat,
    reserve_y: nat,
    total_shares: nat,
    shares: nat,
)
    requires
        total_shares > 0,
    ensures
        ({
            let need_x = deposit_need(reserve_x, total_shares, shares);
            let need_y = deposit_need(reserve_y, total_shares, shares);
            &&& total_shares * (need_x * reserve_y - need_y * reserve_x) <= (total_shares - 1)
                * reserve_y
            &&& total_shares * (need_y * reserve_x - need_x * reserve_y) <= (total_shares - 1)
                * reserve_x
        }),
{
    let need_x = deposit_need(reserve_x, total_shares, shares);
    let need_y = deposit_need(reserve_y, total_shares, shares);
    lemma_deposit_need_covers(reserve_x, total_shares, shares);
    lemma_deposit_need_covers(reserve_y, total_shares, shares);
    let ex = need_x * total_shares - reserve_x * shares;
    let ey = need_y * total_shares - reserve_y * shares;
    assert(total_shares * (need_x * reserve_y - need_y * reserve_x) == ex * reserve_y - ey
        * reserve_x) by (nonlinear_arith)
        requires
            ex == need_x * total_shares - reserve_x * shares,
            ey == need_y * total_shares - reserve_y * shares,
    ;
    assert(total_shares * (need_y * reserve_x - need_x * reserve_y) == ey * reserve_x - ex
        * reserve_y) by (nonlinear_arith)
        requires
            ex == need_x * total_shares - reserve_x * shares,
            ey == need_y * total_shares - reserve_y * shares,
    ;
    assert(ex * reserve_y <= (total_shares - 1) * reserve_y && ey * reserve_x >= 0) by (nonlinear_arith)
        requires
            0 <= ex <= total_shares - 1,
            0 <= ey,
    ;
    assert(ey * reserve_x <= (total_shares - 1) * reserve_x && ex * reserve_y >= 0) by (nonlinear_arith)
        requires
            0 <= ey <= total_shares - 1,
            0 <= ex,
    ;
}

/// A run of withdrawals, each burning some of the shares still
/// outstanding, is redeemable.
pub open spec fn burns_redeemable(total_shares: nat, burns: Seq<nat>) -> bool
    decreases burns.len(),
{
    burns.len() == 0 || (0 < burns[0] <= total_shares && burns_redeemable(
        (total_shares - burns[0]) as nat,
        burns.drop_first(),
    ))
}

/// The sum of what a run of withdrawals pays out of one reserve, each
/// withdrawal taken against what the previous ones left.
pub open spec fn cumulative_out(reserve: nat, total_shares: nat, burns: Seq<nat>) -> nat
    decreases burns.len(),
{
    if burns.len() == 0 {
        0
    } else {
        let out = withdraw_out(reserve, total_shares, burns[0]);
        out + cumulative_out(
            (reserve - out) as nat,
            (total_shares - burns[0]) as nat,
            burns.drop_first(),
        )
    }
}

/// However the shares are burned, in one withdrawal or in many, the
/// withdrawals together never pay more than the reserve held at the start.
pub proof fn lemma_cumulative_out_bounded(reserve: nat, total_shares: nat, burns: Seq<nat>)
    requires
        burns_redeemable(total_shares, burns),
    ensures
        cumulative_out(reserve, total_shares, burns) <= reserve,
    decreases burns.len(),
{
    if burns.len() > 0 {
        let out = withdraw_out(reserve, total_shares, burns[0]);
        lemma_withdraw_out_bounded(reserve, total_shares, burns[0]);
        lemma_cumulative_out_bounded(
            (reserve - out) as nat,
            (total_shares - burns[0]) as nat,
            burns.drop_first(),
        );
    }
}

/// The shares issued for the first deposit into an empty pool: the floor
/// of the geometric mean of the two seed amounts. The result is zero
/// exactly when one of the seeds is zero.
pub fn bootstrap_issue(seed_x: u64, seed_y: u64) -> (r: Result<u64, AmmError>)
    ensures
        r == Ok::<u64, AmmError>(floor_sqrt(seed_x as nat * seed_y as nat) as u64),
        is_floor_sqrt(seed_x as nat * seed_y as nat, floor_sqrt(seed_x as nat * seed_y as nat)),
        floor_sqrt(seed_x as nat * seed_y as nat) <= u64::MAX,
{
    match checked_mul_wide(seed_x, seed_y) {
        Ok(product) => Ok(integer_sqrt(product)),
        Err(e) => Err(e),
    }
}

/// The amounts of X and Y required to mint exactly `requested_shares`
/// against the given reserves and share supply, each rounded up to a whole
/// unit. Fails with `MathOverflow` when no share is outstanding or a
/// required amount exceeds 64 bits.
pub fn deposit_amounts(
    reserve_x: u64,
    reserve_y: u64,
    total_shares: u64,
    requested_shares: u64,
) -> (r: Result<XYAmounts, AmmError>)
    ensures
        r == spec_deposit_amounts(reserve_x, reserve_y, total_shares, requested_shares),
{
    let need_x: u64 = match mul_div_ceil(reserve_x, requested_shares, total_shares) {
        Ok(v) => v,
        Err(e) => {
            return Err(e);
        },
    };
    let need_y: u64 = match mul_div_ceil(reserve_y, requested_shares, total_shares) {
        Ok(v) => v,
        Err(e) => {
            return Err(e);
        },
    };
    Ok(XYAmounts { x: need_x, y: need_y })
}

/// The amounts of X and Y paid out for burning `burn_shares`, each rounded
/// down to a whole unit. Fails with `InvalidAmount` unless
/// `0 < burn_shares <= total_shares`.
pub fn withdraw_amounts(
    reserve_x: u64,
    reserve_y: u64,
    total_shares: u64,
    burn_shares: u64,
) -> (r: Result<XYAmounts, AmmError>)
    ensures
        r == spec_withdraw_amounts(reserve_x, reserve_y, total_shares, burn_shares),
        r matches Ok(out) ==> out.x <= reserve_x && out.y <= reserve_y,
{
    if burn_shares == 0 || burn_shares > total_shares {
        return Err(AmmError::InvalidAmount);
    }
    proof {
        lemma_withdraw_out_bounded(reserve_x as nat, total_shares as nat, burn_shares as nat);
        lemma_withdraw_out_bounded(reserve_y as nat, total_shares as nat, burn_shares as nat);
    }
    let out_x: u64 = match mul_div_floor(reserve_x, burn_shares, total_shares) {
        Ok(v) => v,
        Err(_) => {
            return Err(AmmError::InvalidAmount);
        },
    };
    let out_y: u64 = match mul_div_floor(reserve_y, burn_shares, total_shares) {
        Ok(v) => v,
        Err(_) => {
            return Err(AmmError::InvalidAmount);
        },
    };
    Ok(XYAmounts { x: out_x, y: out_y })
}

} // verus!
