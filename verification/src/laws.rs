//! What holds of every deposit and every withdrawal.
//!
//! Each law is stated over the outcome functions of the pool, `spec_deposit`
//! and `spec_withdraw`, for every snapshot and every request.

use vstd::prelude::*;
use crate::curve::{
    lemma_deposit_keeps_ratio, lemma_deposit_need_covers, lemma_round_trip,
    lemma_withdraw_out_bounded, spec_withdraw_amounts, XYAmounts,
};
use crate::error::AmmError;
use crate::math::lemma_floor_sqrt_of_product;
use crate::state::{is_bootstrap, is_consistent, spec_deposit, spec_withdraw, DepositReceipt};

verus! {

/// A successful deposit leaves the ratio of the reserves as it was, up to
/// the rounding of the two amounts to whole units: the cross product of the
/// new and the old reserves differs from zero by less than one old reserve.
pub proof fn law_deposit_keeps_ratio(
    locked: bool,
    reserve_x: u64,
    reserve_y: u64,
    total_shares: u64,
    requested_shares: u64,
    max_x: u64,
    max_y: u64,
)
    requires
        spec_deposit(locked, reserve_x, reserve_y, total_shares, requested_shares, max_x, max_y)
            is Ok,
    ensures
        ({
            let receipt = spec_deposit(
                locked,
                reserve_x,
                reserve_y,
                total_shares,
                requested_shares,
                max_x,
                max_y,
            )->Ok_0;
            let new_x = reserve_x + receipt.spent_x;
            let new_y = reserve_y + receipt.spent_y;
            &&& new_x * reserve_y - reserve_x * new_y <= reserve_y
            &&& reserve_x * new_y - new_x * reserve_y <= reserve_x
            &&& reserve_y > 0 ==> new_x * reserve_y - reserve_x * new_y < reserve_y
            &&& reserve_x > 0 ==> reserve_x * new_y - new_x * reserve_y < reserve_x
        }),
{
    let receipt = spec_deposit(
        locked,
        reserve_x,
        reserve_y,
        total_shares,
        requested_shares,
        max_x,
        max_y,
    )->Ok_0;
    let x = reserve_x as int;
    let y = reserve_y as int;
    let sx = receipt.spent_x as int;
    let sy = receipt.spent_y as int;
    assert((x + sx) * y - x * (y + sy) == sx * y - sy * x) by (nonlinear_arith);
    assert(x * (y + sy) - (x + sx) * y == sy * x - sx * y) by (nonlinear_arith);
    if is_bootstrap(reserve_x, reserve_y, total_shares) {
        assert(sx * y - sy * x == 0) by (nonlinear_arith)
            requires
                x == 0,
                y == 0,
        ;
    } else {
        let l = total_shares as int;
        lemma_deposit_keeps_ratio(
            reserve_x as nat,
            reserve_y as nat,
            total_shares as nat,
            requested_shares as nat,
        );
        let d = sx * y - sy * x;
        assert(d <= y && (y > 0 ==> d < y)) by (nonlinear_arith)
            requires
                l > 0,
                y >= 0,
                l * d <= (l - 1) * y,
        ;
        assert(-d <= x && (x > 0 ==> -d < x)) by (nonlinear_arith)
            requires
                l > 0,
                x >= 0,
                l * (-d) <= (l - 1) * x,
        ;
    }
}

/// A successful deposit mints at least one share.
pub proof fn law_deposit_mints(
    locked: bool,
    reserve_x: u64,
    reserve_y: u64,
    total_shares: u64,
    requested_shares: u64,
    max_x: u64,
    max_y: u64,
)
    requires
        spec_deposit(locked, reserve_x, reserve_y, total_shares, requested_shares, max_x, max_y)
            is Ok,
    ensures
        spec_deposit(
            locked,
            reserve_x,
            reserve_y,
            total_shares,
            requested_shares,
            max_x,
            max_y,
        )->Ok_0.minted_shares > 0,
{
    lemma_floor_sqrt_of_product(max_x, max_y);
}

/// A depositor's part of the pool is never more than what they paid is
/// worth at the ratio before the deposit: on each side, the shares minted
/// measured against the reserve are at most the amount paid measured
/// against the share supply.
pub proof fn law_deposit_no_dilution(
    locked: bool,
    reserve_x: u64,
    reserve_y: u64,
    total_shares: u64,
    requested_shares: u64,
    max_x: u64,
    max_y: u64,
)
    requires
        spec_deposit(locked, reserve_x, reserve_y, total_shares, requested_shares, max_x, max_y)
            is Ok,
    ensures
        ({
            let receipt = spec_deposit(
                locked,
                reserve_x,
                reserve_y,
                total_shares,
                requested_shares,
                max_x,
                max_y,
            )->Ok_0;
            &&& receipt.minted_shares * reserve_x <= receipt.spent_x * total_shares
            &&& receipt.minted_shares * reserve_y <= receipt.spent_y * total_shares
        }),
{
    let receipt = spec_deposit(
        locked,
        reserve_x,
        reserve_y,
        total_shares,
        requested_shares,
        max_x,
        max_y,
    )->Ok_0;
    if is_bootstrap(reserve_x, reserve_y, total_shares) {
        assert(receipt.minted_shares * reserve_x == 0 && receipt.spent_x * total_shares == 0
            && receipt.minted_shares * reserve_y == 0 && receipt.spent_y * total_shares == 0)
            by (nonlinear_arith)
            requires
                reserve_x == 0,
                reserve_y == 0,
                total_shares == 0,
        ;
    } else {
        lemma_deposit_need_covers(reserve_x as nat, total_shares as nat, requested_shares as nat);
        lemma_deposit_need_covers(reserve_y as nat, total_shares as nat, requested_shares as nat);
        assert(requested_shares * reserve_x == reserve_x * requested_shares) by (nonlinear_arith);
        assert(requested_shares * reserve_y == reserve_y * requested_shares) by (nonlinear_arith);
    }
}

/// A successful withdrawal pays no more of either asset than the pool
/// holds, and no more than the burned fraction of it; burning every
/// outstanding share pays exactly the reserves.
pub proof fn law_withdraw_no_extraction(
    locked: bool,
    reserve_x: u64,
    reserve_y: u64,
    total_shares: u64,
    burn_shares: u64,
    min_x: u64,
    min_y: u64,
)
    requires
        spec_withdraw(locked, reserve_x, reserve_y, total_shares, burn_shares, min_x, min_y)
            is Ok,
    ensures
        ({
            let out = spec_withdraw(
                locked,
                reserve_x,
                reserve_y,
                total_shares,
                burn_shares,
                min_x,
                min_y,
            )->Ok_0;
            &&& out.x <= reserve_x
            &&& out.y <= reserve_y
            &&& out.x * total_shares <= reserve_x * burn_shares
            &&& out.y * total_shares <= reserve_y * burn_shares
            &&& burn_shares == total_shares ==> out.x == reserve_x && out.y == reserve_y
        }),
{
    lemma_withdraw_out_bounded(reserve_x as nat, total_shares as nat, burn_shares as nat);
    lemma_withdraw_out_bounded(reserve_y as nat, total_shares as nat, burn_shares as nat);
}

/// Depositing and at once withdrawing the shares received pays back no
/// more than was deposited, on either side. The withdrawal is taken against
/// the reserves and the share supply as the deposit left them, which the
/// ledger holds in 64 bits.
pub proof fn law_round_trip(
    locked: bool,
    reserve_x: u64,
    reserve_y: u64,
    total_shares: u64,
    requested_shares: u64,
    max_x: u64,
    max_y: u64,
)
    requires
        spec_deposit(locked, reserve_x, reserve_y, total_shares, requested_shares, max_x, max_y)
            matches Ok(receipt) && reserve_x + receipt.spent_x <= u64::MAX && reserve_y
            + receipt.spent_y <= u64::MAX && total_shares + receipt.minted_shares <= u64::MAX,
    ensures
        ({
            let receipt = spec_deposit(
                locked,
                reserve_x,
                reserve_y,
                total_shares,
                requested_shares,
                max_x,
                max_y,
            )->Ok_0;
            spec_withdraw_amounts(
                (reserve_x + receipt.spent_x) as u64,
                (reserve_y + receipt.spent_y) as u64,
                (total_shares + receipt.minted_shares) as u64,
                receipt.minted_shares,
            ) matches Ok(out) && out.x <= receipt.spent_x && out.y <= receipt.spent_y
        }),
{
    let receipt = spec_deposit(
        locked,
        reserve_x,
        reserve_y,
        total_shares,
        requested_shares,
        max_x,
        max_y,
    )->Ok_0;
    law_deposit_mints(locked, reserve_x, reserve_y, total_shares, requested_shares, max_x, max_y);
    if is_bootstrap(reserve_x, reserve_y, total_shares) {
        lemma_withdraw_out_bounded(
            receipt.spent_x as nat,
            receipt.minted_shares as nat,
            receipt.minted_shares as nat,
        );
        lemma_withdraw_out_bounded(
            receipt.spent_y as nat,
            receipt.minted_shares as nat,
            receipt.minted_shares as nat,
        );
    } else {
        lemma_round_trip(reserve_x as nat, total_shares as nat, requested_shares as nat);
        lemma_round_trip(reserve_y as nat, total_shares as nat, requested_shares as nat);
    }
}

/// A successful deposit into a consistent pool leaves a consistent pool:
/// afterwards shares are outstanding and the reserves are not both empty.
pub proof fn law_deposit_keeps_consistency(
    locked: bool,
    reserve_x: u64,
    reserve_y: u64,
    total_shares: u64,
    requested_shares: u64,
    max_x: u64,
    max_y: u64,
)
    requires
        is_consistent(reserve_x as int, reserve_y as int, total_shares as int),
        spec_deposit(locked, reserve_x, reserve_y, total_shares, requested_shares, max_x, max_y)
            is Ok,
    ensures
        ({
            let receipt = spec_deposit(
                locked,
                reserve_x,
                reserve_y,
                total_shares,
                requested_shares,
                max_x,
                max_y,
            )->Ok_0;
            &&& total_shares + receipt.minted_shares > 0
            &&& is_consistent(
                reserve_x + receipt.spent_x,
                reserve_y + receipt.spent_y,
                total_shares + receipt.minted_shares,
            )
        }),
{
    lemma_floor_sqrt_of_product(max_x, max_y);
}

/// A successful withdrawal from a consistent pool leaves a consistent
/// pool: the reserves are emptied exactly when the last share is burned.
pub proof fn law_withdraw_keeps_consistency(
    locked: bool,
    reserve_x: u64,
    reserve_y: u64,
    total_shares: u64,
    burn_shares: u64,
    min_x: u64,
    min_y: u64,
)
    requires
        is_consistent(reserve_x as int, reserve_y as int, total_shares as int),
        spec_withdraw(locked, reserve_x, reserve_y, total_shares, burn_shares, min_x, min_y)
            is Ok,
    ensures
        ({
            let out = spec_withdraw(
                locked,
                reserve_x,
                reserve_y,
                total_shares,
                burn_shares,
                min_x,
                min_y,
            )->Ok_0;
            is_consistent(reserve_x - out.x, reserve_y - out.y, total_shares - burn_shares)
        }),
{
    let out = spec_withdraw(
        locked,
        reserve_x,
        reserve_y,
        total_shares,
        burn_shares,
        min_x,
        min_y,
    )->Ok_0;
    lemma_withdraw_out_bounded(reserve_x as nat, total_shares as nat, burn_shares as nat);
    lemma_withdraw_out_bounded(reserve_y as nat, total_shares as nat, burn_shares as nat);
    if burn_shares < total_shares {
        let (l, a) = (total_shares as int, burn_shares as int);
        let (x, ox) = (reserve_x as int, out.x as int);
        let (y, oy) = (reserve_y as int, out.y as int);
        assert(x > 0 ==> ox < x) by (nonlinear_arith)
            requires
                ox * l <= x * a,
                0 <= a < l,
                0 <= ox,
        ;
        assert(y > 0 ==> oy < y) by (nonlinear_arith)
            requires
                oy * l <= y * a,
                0 <= a < l,
                0 <= oy,
        ;
    }
}

/// On an open pool a request for zero shares, to mint or to burn, is
/// rejected as an invalid amount, whatever the snapshot and the bounds.
pub proof fn law_zero_is_rejected(
    reserve_x: u64,
    reserve_y: u64,
    total_shares: u64,
    bound_x: u64,
    bound_y: u64,
)
    ensures
        spec_deposit(false, reserve_x, reserve_y, total_shares, 0, bound_x, bound_y) == Err::<
            DepositReceipt,
            AmmError,
        >(AmmError::InvalidAmount),
        spec_withdraw(false, reserve_x, reserve_y, total_shares, 0, bound_x, bound_y) == Err::<
            XYAmounts,
            AmmError,
        >(AmmError::InvalidAmount),
{
}

/// A paused pool rejects every deposit and every withdrawal as locked,
/// whatever the amounts.
pub proof fn law_locked_rejects(
    reserve_x: u64,
    reserve_y: u64,
    total_shares: u64,
    shares: u64,
    bound_x: u64,
    bound_y: u64,
)
    ensures
        spec_deposit(true, reserve_x, reserve_y, total_shares, shares, bound_x, bound_y) == Err::<
            DepositReceipt,
            AmmError,
        >(AmmError::PoolLocked),
        spec_withdraw(true, reserve_x, reserve_y, total_shares, shares, bound_x, bound_y) == Err::<
            XYAmounts,
            AmmError,
        >(AmmError::PoolLocked),
{
}

} // verus!
