//! Pausing and resuming an AMM.

use vstd::prelude::*;

use crate::error::ErrorCode;
use crate::key::Pubkey;
use crate::state::AmmConfig;

verus! {

/// Setting an AMM's pause flag: the admin who signs and the configuration.
#[derive(Clone, Copy, Debug)]
pub struct SetPaused {
    pub admin: Pubkey,
    pub amm_config: AmmConfig,
}

impl SetPaused {
    /// Sets the AMM pause flag, which must be 0 or 1; nothing else changes,
    /// and a rejected call changes nothing. Withdrawals remain available
    /// while paused.
    pub fn handler(&mut self, paused: u8) -> (res: Result<(), ErrorCode>)
        ensures
            paused <= 1 <==> res is Ok,
            paused > 1 ==> res == Err::<(), ErrorCode>(ErrorCode::InvalidPaused),
            res is Ok ==> final(self).amm_config == old(self).amm_config.with_paused(paused),
            res is Ok ==> final(self).admin == old(self).admin,
            res is Err ==> *final(self) == *old(self),
            res is Ok && old(self).amm_config.valid() ==> final(self).amm_config.valid(),
    {
        if !(paused <= 1) {
            return Err(ErrorCode::InvalidPaused);
        }
        self.amm_config.paused = paused;
        Ok(())
    }
}

} // verus!
