//! Creating a pool for an ordered pair of mints under an AMM.

use vstd::prelude::*;

use crate::error::ErrorCode;
use crate::key::{key_lt, Pubkey};
use crate::state::{AmmConfig, PoolConfig};

verus! {

/// The bumps found for the new pool's configuration and LP mint addresses.
#[derive(Clone, Copy, Debug)]
pub struct InitializePoolBumps {
    pub pool_config: u8,
    pub lp_mint: u8,
}

/// Creating a pool: the AMM (its address and configuration), the two mints,
/// and the pool configuration being filled in.
#[derive(Clone, Copy, Debug)]
pub struct InitializePool {
    pub amm_config_key: Pubkey,
    pub amm_config: AmmConfig,
    pub mint_a: Pubkey,
    pub mint_b: Pubkey,
    pub pool_config: PoolConfig,
}

/// Whether a pool for these mints may be created under this AMM.
pub open spec fn initialize_pool_result(ctx: InitializePool) -> Result<(), ErrorCode> {
    if ctx.mint_a@ == ctx.mint_b@ {
        Err(ErrorCode::InvalidMintPair)
    } else if ctx.amm_config.paused != 0 {
        Err(ErrorCode::InvalidAmmState)
    } else if !key_lt(ctx.mint_a@, ctx.mint_b@) {
        Err(ErrorCode::InvalidMintPair)
    } else {
        Ok(())
    }
}

impl InitializePool {
    /// Fills in the configuration of a new pool. Rejects identical mints,
    /// a paused AMM, and mints out of order; a rejected call changes nothing.
    pub fn handler(&mut self, bumps: &InitializePoolBumps) -> (res: Result<(), ErrorCode>)
        ensures
            res == initialize_pool_result(*old(self)),
            res is Ok ==> {
                &&& final(self).pool_config == (PoolConfig {
                    amm_config: old(self).amm_config_key,
                    mint_a: old(self).mint_a,
                    mint_b: old(self).mint_b,
                    bump: bumps.pool_config,
                    lp_bump: bumps.lp_mint,
                })
                &&& final(self).pool_config.valid()
                &&& final(self).amm_config_key == old(self).amm_config_key
                &&& final(self).amm_config == old(self).amm_config
                &&& final(self).mint_a == old(self).mint_a
                &&& final(self).mint_b == old(self).mint_b
            },
            res is Err ==> *final(self) == *old(self),
    {
        if self.mint_a.equals(&self.mint_b) {
            return Err(ErrorCode::InvalidMintPair);
        }
        if !(self.amm_config.paused == 0) {
            return Err(ErrorCode::InvalidAmmState);
        }
        if !self.mint_a.less_than(&self.mint_b) {
            return Err(ErrorCode::InvalidMintPair);
        }
        self.pool_config = PoolConfig {
            mint_a: self.mint_a,
            mint_b: self.mint_b,
            amm_config: self.amm_config_key,
            bump: bumps.pool_config,
            lp_bump: bumps.lp_mint,
        };
        Ok(())
    }
}

} // verus!
