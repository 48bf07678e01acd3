//! Creating a pool.

use vstd::prelude::*;
use crate::error::AmmError;
use crate::instructions::Mint;
use crate::state::{Config, Pubkey};

verus! {

/// The accounts the creation of a pool reads and writes.
#[derive(Clone, Copy, Debug, PartialEq, Eq)]
pub struct Initialize {
    /// Who creates the pool.
    pub signer: Pubkey,
    /// The mint of asset X.
    pub mint_x: Mint,
    /// The mint of asset Y.
    pub mint_y: Mint,
    /// The pool record to fill in.
    pub config: Config,
}

/// The derivation markers found for the pool's derived accounts.
#[derive(Clone, Copy, Debug, PartialEq, Eq, Structural)]
pub struct InitializeBumps {
    /// The marker of the pool record.
    pub config: u8,
    /// The marker of the share mint.
    pub mint_lp_token: u8,
}

impl Initialize {
    /// The record that creation writes: open, bound to the two mints
    /// handed in, administered by the signer.
    pub open spec fn new_config(&self, bumps: InitializeBumps) -> Config {
        Config {
            authority: Some(self.signer),
            mint_x: self.mint_x.key,
            mint_y: self.mint_y.key,
            locked: false,
            config_bump: bumps.config,
            lp_bump: bumps.mint_lp_token,
        }
    }

    /// Fills in the pool record. Fails with `InvalidConfig`, leaving
    /// everything as it was, when both sides name the same asset. On
    /// success the record is well formed and only the record has changed.
    pub fn intialize(&mut self, bumps: InitializeBumps) -> (r: Result<(), AmmError>)
        ensures
            old(self).mint_x.key == old(self).mint_y.key ==> r == Err::<(), AmmError>(
                AmmError::InvalidConfig,
            ) && *final(self) == *old(self),
            old(self).mint_x.key != old(self).mint_y.key ==> r == Ok::<(), AmmError>(())
                && *final(self) == (Initialize {
                config: old(self).new_config(bumps),
                ..*old(self)
            }) && final(self).config.wf(),
    {
        if self.mint_x.key.same(&self.mint_y.key) {
            return Err(AmmError::InvalidConfig);
        }
        self.config = Config {
            authority: Some(self.signer),
            mint_x: self.mint_x.key,
            mint_y: self.mint_y.key,
            locked: false,
            config_bump: bumps.config,
            lp_bump: bumps.mint_lp_token,
        };
        Ok(())
    }
}

} // verus!
