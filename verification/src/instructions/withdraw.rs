//! Removing liquidity.

use vstd::prelude::*;
use crate::curve::XYAmounts;
use crate::error::AmmError;
use crate::instructions::{Action, Mint, TokenAccount};
use crate::state::{spec_withdraw, Config};

verus! {

/// The accounts a withdrawal reads.
#[derive(Clone, Copy, Debug, PartialEq, Eq)]
pub struct Withdraw {
    /// The mint of asset X handed in.
    pub mint_x: Mint,
    /// The mint of asset Y handed in.
    pub mint_y: Mint,
    /// The pool's vault of asset X; its balance is the X reserve.
    pub vault_x: TokenAccount,
    /// The pool's vault of asset Y; its balance is the Y reserve.
    pub vault_y: TokenAccount,
    /// The share mint; its supply is the total of outstanding shares.
    pub mint_lp_token: Mint,
    /// The pool record.
    pub config: Config,
}

/// What the caller of a withdrawal asks for.
#[derive(Clone, Copy, Debug, PartialEq, Eq, Structural)]
pub struct WithdrawArgs {
    /// The shares to burn.
    pub amount: u64,
    /// The least of asset X the caller will accept.
    pub min_x: u64,
    /// The least of asset Y the caller will accept.
    pub min_y: u64,
}

impl Withdraw {
    /// The transfer of `amount` of X (`is_x`) or Y out of its vault.
    pub open spec fn spec_withdraw_tokens(&self, is_x: bool, amount: u64) -> Action {
        Action::TransferOut {
            is_x,
            amount,
            decimals: if is_x {
                self.mint_x.decimals
            } else {
                self.mint_y.decimals
            },
        }
    }

    /// The settlement of a decided withdrawal: the shares are burned
    /// first, then X and Y are paid out.
    pub open spec fn settlement(&self, burn_shares: u64, out: XYAmounts) -> Seq<Action> {
        seq![
            Action::BurnShares { amount: burn_shares, decimals: self.mint_lp_token.decimals },
            self.spec_withdraw_tokens(true, out.x),
            self.spec_withdraw_tokens(false, out.y),
        ]
    }

    /// The outcome of a withdrawal over these accounts: the decision taken
    /// on the vault balances and the share supply.
    pub open spec fn outcome(&self, args: WithdrawArgs) -> Result<XYAmounts, AmmError> {
        spec_withdraw(
            self.config.locked,
            self.vault_x.amount,
            self.vault_y.amount,
            self.mint_lp_token.supply,
            args.amount,
            args.min_x,
            args.min_y,
        )
    }

    /// Decides a withdrawal of liquidity and returns its settlement.
    ///
    /// The caller names the shares to burn and the least of each asset to
    /// accept for them. The amounts come from the vault balances and the
    /// share supply as they stand. On rejection nothing is to be settled.
    pub fn withdraw(&self, args: WithdrawArgs) -> (r: Result<Vec<Action>, AmmError>)
        ensures
            match self.outcome(args) {
                Ok(out) => r is Ok && r->Ok_0@ == self.settlement(args.amount, out),
                Err(e) => r == Err::<Vec<Action>, AmmError>(e),
            },
    {
        let out: XYAmounts = match self.config.withdraw(
            self.vault_x.amount,
            self.vault_y.amount,
            self.mint_lp_token.supply,
            args.amount,
            args.min_x,
            args.min_y,
        ) {
            Ok(out) => out,
            Err(e) => {
                return Err(e);
            },
        };
        let mut actions: Vec<Action> = Vec::new();
        actions.push(self.burn_lp_tokens(args.amount));
        actions.push(self.withdraw_tokens(true, out.x));
        actions.push(self.withdraw_tokens(false, out.y));
        assert(actions@ =~= self.settlement(args.amount, out));
        Ok(actions)
    }

    /// The transfer of `amount` of one asset from the pool's vault of that
    /// asset to the user, with the decimals of that asset's mint.
    pub fn withdraw_tokens(&self, is_x: bool, amount: u64) -> (r: Action)
        ensures
            r == self.spec_withdraw_tokens(is_x, amount),
    {
        let decimals: u8 = if is_x {
            self.mint_x.decimals
        } else {
            self.mint_y.decimals
        };
        Action::TransferOut { is_x, amount, decimals }
    }

    /// The burning of `amount` shares of the user, with the decimals of
    /// the share mint.
    pub fn burn_lp_tokens(&self, amount: u64) -> (r: Action)
        ensures
            r == (Action::BurnShares { amount, decimals: self.mint_lp_token.decimals }),
    {
        Action::BurnShares { amount, decimals: self.mint_lp_token.decimals }
    }
}

} // verus!
