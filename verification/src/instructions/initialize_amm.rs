//! Creating an AMM's configuration.

use vstd::prelude::*;

use crate::error::ErrorCode;
use crate::key::Pubkey;
use crate::state::AmmConfig;

verus! {

/// The bump found for the new configuration's address.
#[derive(Clone, Copy, Debug)]
pub struct InitializeAmmBumps {
    pub amm_config: u8,
}

/// Creating an AMM: its maker, its first admin, and the configuration
/// account being filled in.
#[derive(Clone, Copy, Debug)]
pub struct InitializeAmm {
    pub maker: Pubkey,
    pub admin: Pubkey,
    pub amm_config: AmmConfig,
}

/// Whether a new AMM with this fee and pause flag is accepted.
pub open spec fn initialize_amm_result(fee: u16, paused: u8) -> Result<(), ErrorCode> {
    if fee >= 10_000 {
        Err(ErrorCode::InvalidFee)
    } else if paused > 1 {
        Err(ErrorCode::InvalidPaused)
    } else {
        Ok(())
    }
}

impl InitializeAmm {
    /// Fills in the configuration of a new AMM. Rejects a fee of 10,000
    /// basis points or more and a pause flag other than 0 or 1; a rejected
    /// call changes nothing.
    pub fn handler(&mut self, id: u64, fee: u16, paused: u8, bumps: &InitializeAmmBumps) -> (res:
        Result<(), ErrorCode>)
        ensures
            res == initialize_amm_result(fee, paused),
            res is Ok ==> {
                &&& final(self).amm_config == (AmmConfig {
                    maker: old(self).maker,
                    admin: old(self).admin,
                    id,
                    fee,
                    paused,
                    bump: bumps.amm_config,
                })
                &&& final(self).amm_config.valid()
                &&& final(self).maker == old(self).maker
                &&& final(self).admin == old(self).admin
            },
            res is Err ==> *final(self) == *old(self),
    {
        if !(fee < 10_000) {
            return Err(ErrorCode::InvalidFee);
        }
        if !(paused <= 1) {
            return Err(ErrorCode::InvalidPaused);
        }
        self.amm_config = AmmConfig {
            maker: self.maker,
            admin: self.admin,
            id,
            fee,
            paused,
            bump: bumps.amm_config,
        };
        Ok(())
    }
}

} // verus!
