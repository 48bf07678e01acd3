//! Adding liquidity.

use vstd::prelude::*;
use crate::error::AmmError;
use crate::instructions::{Action, Mint, TokenAccount};
use crate::state::{spec_deposit, Config, DepositReceipt};

verus! {

/// The accounts a deposit reads.
#[derive(Clone, Copy, Debug, PartialEq, Eq)]
pub struct Deposit {
    /// The mint of asset X handed in.
    pub mint_x: Mint,
    /// The mint of asset Y handed in.
    pub mint_y: Mint,
    /// The pool's vault of asset X; its balance is the X reserve.
    pub vault_x: TokenAccount,
    /// The pool's vault of asset Y; its balance is the Y reserve.
    pub vault_y: TokenAccount,
    /// The share mint; its supply is the total of outstanding shares.
    pub mint_lp_token: Mint,
    /// The pool record.
    pub config: Config,
}

/// What the caller of a deposit asks for.
#[derive(Clone, Copy, Debug, PartialEq, Eq, Structural)]
pub struct DepositArgs {
    /// The shares wanted. Ignored on the first deposit into an empty pool.
    pub amount: u64,
    /// The most of asset X the caller will pay; on the first deposit, the
    /// seed amount of X.
    pub max_x: u64,
    /// The most of asset Y the caller will pay; on the first deposit, the
    /// seed amount of Y.
    pub max_y: u64,
}

impl Deposit {
    /// The transfer of `amount` of X (`is_x`) or Y into its vault.
    pub open spec fn spec_deposit_tokens(&self, is_x: bool, amount: u64) -> Action {
        Action::TransferIn {
            is_x,
            amount,
            decimals: if is_x {
                self.mint_x.decimals
            } else {
                self.mint_y.decimals
            },
        }
    }

    /// The settlement of a decided deposit: X in, Y in, then the shares.
    pub open spec fn settlement(&self, receipt: DepositReceipt) -> Seq<Action> {
        seq![
            self.spec_deposit_tokens(true, receipt.spent_x),
            self.spec_deposit_tokens(false, receipt.spent_y),
            Action::MintShares { amount: receipt.minted_shares },
        ]
    }

    /// The outcome of a deposit over these accounts: the decision taken on
    /// the vault balances and the share supply.
    pub open spec fn outcome(&self, args: DepositArgs) -> Result<DepositReceipt, AmmError> {
        spec_deposit(
            self.config.locked,
            self.vault_x.amount,
            self.vault_y.amount,
            self.mint_lp_token.supply,
            args.amount,
            args.max_x,
            args.max_y,
        )
    }

    /// Decides a deposit of liquidity and returns its settlement.
    ///
    /// The caller names the shares wanted and the most of each asset to
    /// pay for them. The amounts come from the vault balances and the
    /// share supply as they stand. On rejection nothing is to be settled.
    pub fn deposit(&self, args: DepositArgs) -> (r: Result<Vec<Action>, AmmError>)
        ensures
            match self.outcome(args) {
                Ok(receipt) => r is Ok && r->Ok_0@ == self.settlement(receipt),
                Err(e) => r == Err::<Vec<Action>, AmmError>(e),
            },
    {
        let receipt: DepositReceipt = match self.config.deposit(
            self.vault_x.amount,
            self.vault_y.amount,
            self.mint_lp_token.supply,
            args.amount,
            args.max_x,
            args.max_y,
        ) {
            Ok(receipt) => receipt,
            Err(e) => {
                return Err(e);
            },
        };
        let mut actions: Vec<Action> = Vec::new();
        actions.push(self.deposit_tokens(true, receipt.spent_x));
        actions.push(self.deposit_tokens(false, receipt.spent_y));
        actions.push(self.mint_lp_tokens(receipt.minted_shares));
        assert(actions@ =~= self.settlement(receipt));
        Ok(actions)
    }

    /// The transfer of `amount` of one asset from the user into the pool's
    /// vault of that asset, with the decimals of that asset's mint.
    pub fn deposit_tokens(&self, is_x: bool, amount: u64) -> (r: Action)
        ensures
            r == self.spec_deposit_tokens(is_x, amount),
    {
        let decimals: u8 = if is_x {
            self.mint_x.decimals
        } else {
            self.mint_y.decimals
        };
        Action::TransferIn { is_x, amount, decimals }
    }

    /// The minting of `amount` shares to the user.
    pub fn mint_lp_tokens(&self, amount: u64) -> (r: Action)
        ensures
            r == (Action::MintShares { amount }),
    {
        Action::MintShares { amount }
    }
}

} // verus!
