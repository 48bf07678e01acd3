//! Accounting core of a two-asset constant-product liquidity pool.
//!
//! The pool holds reserves of two assets and issues shares against them.
//! This crate computes, in checked integer arithmetic, what a deposit must
//! pay and what a withdrawal receives, and decides whether an operation is
//! accepted. Custody of the assets and the ledger of shares are services
//! outside it: an accepted operation yields the list of actions for them
//! to carry out.

pub mod error;
pub mod math;
pub mod curve;
pub mod state;
pub mod instructions;
pub mod laws;

use vstd::prelude::*;
use crate::error::AmmError;
use crate::instructions::deposit::{Deposit, DepositArgs};
use crate::instructions::initialize::{Initialize, InitializeBumps};
use crate::instructions::withdraw::{Withdraw, WithdrawArgs};
use crate::instructions::{check_assets, spec_check_assets, Action};

verus! {

/// Creates a pool: fills in the record of `ctx` for its two mints. Fails
/// with `InvalidConfig`, changing nothing, when the two mints are the same.
pub fn initialize(ctx: &mut Initialize, bumps: InitializeBumps) -> (r: Result<(), AmmError>)
    ensures
        old(ctx).mint_x.key == old(ctx).mint_y.key ==> r == Err::<(), AmmError>(
            AmmError::InvalidConfig,
        ) && *final(ctx) == *old(ctx),
        old(ctx).mint_x.key != old(ctx).mint_y.key ==> r == Ok::<(), AmmError>(()) && *final(ctx)
            == (Initialize { config: old(ctx).new_config(bumps), ..*old(ctx) })
            && final(ctx).config.wf(),
{
    ctx.intialize(bumps)
}

/// Adds liquidity. The mints handed in are checked against the pool
/// record first; then the deposit is decided on the vault balances and the
/// share supply, and its settlement returned.
///
/// With matching mints, a paused pool rejects every call with
/// `PoolLocked`, and an open pool rejects a request for zero shares with
/// `InvalidAmount`.
pub fn deposit(ctx: &Deposit, args: DepositArgs) -> (r: Result<Vec<Action>, AmmError>)
    ensures
        match spec_check_assets(ctx.config, ctx.mint_x, ctx.mint_y) {
            Err(e) => r == Err::<Vec<Action>, AmmError>(e),
            Ok(_) => match ctx.outcome(args) {
                Ok(receipt) => r is Ok && r->Ok_0@ == ctx.settlement(receipt),
                Err(e) => r == Err::<Vec<Action>, AmmError>(e),
            },
        },
        spec_check_assets(ctx.config, ctx.mint_x, ctx.mint_y) is Ok && ctx.config.locked ==> r
            == Err::<Vec<Action>, AmmError>(AmmError::PoolLocked),
        spec_check_assets(ctx.config, ctx.mint_x, ctx.mint_y) is Ok && !ctx.config.locked
            && args.amount == 0 ==> r == Err::<Vec<Action>, AmmError>(AmmError::InvalidAmount),
{
    match check_assets(&ctx.config, &ctx.mint_x, &ctx.mint_y) {
        Ok(_) => ctx.deposit(args),
        Err(e) => Err(e),
    }
}

/// Removes liquidity. The mints handed in are checked against the pool
/// record first; then the withdrawal is decided on the vault balances and
/// the share supply, and its settlement returned.
///
/// With matching mints, a paused pool rejects every call with
/// `PoolLocked`, and an open pool rejects a burn of zero shares with
/// `InvalidAmount`.
pub fn withdraw(ctx: &Withdraw, args: WithdrawArgs) -> (r: Result<Vec<Action>, AmmError>)
    ensures
        match spec_check_assets(ctx.config, ctx.mint_x, ctx.mint_y) {
            Err(e) => r == Err::<Vec<Action>, AmmError>(e),
            Ok(_) => match ctx.outcome(args) {
                Ok(out) => r is Ok && r->Ok_0@ == ctx.settlement(args.amount, out),
                Err(e) => r == Err::<Vec<Action>, AmmError>(e),
            },
        },
        spec_check_assets(ctx.config, ctx.mint_x, ctx.mint_y) is Ok && ctx.config.locked ==> r
            == Err::<Vec<Action>, AmmError>(AmmError::PoolLocked),
        spec_check_assets(ctx.config, ctx.mint_x, ctx.mint_y) is Ok && !ctx.config.locked
            && args.amount == 0 ==> r == Err::<Vec<Action>, AmmError>(AmmError::InvalidAmount),
{
    match check_assets(&ctx.config, &ctx.mint_x, &ctx.mint_y) {
        Ok(_) => ctx.withdraw(args),
        Err(e) => Err(e),
    }
}

} // verus!
