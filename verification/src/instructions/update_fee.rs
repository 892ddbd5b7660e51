//! Changing an AMM's swap fee.

use vstd::prelude::*;

use crate::error::ErrorCode;
use crate::key::Pubkey;
use crate::state::AmmConfig;

verus! {

/// Setting an AMM's fee: the admin who signs and the configuration.
#[derive(Clone, Copy, Debug)]
pub struct UpdateFee {
    pub admin: Pubkey,
    pub amm_config: AmmConfig,
}

impl UpdateFee {
    /// Updates the swap fee in basis points for every pool under the AMM.
    /// The fee must be below 10,000; nothing else changes, and a rejected
    /// call changes nothing. Allowed while paused.
    pub fn handler(&mut self, fee: u16) -> (res: Result<(), ErrorCode>)
        ensures
            fee < 10_000 <==> res is Ok,
            fee >= 10_000 ==> res == Err::<(), ErrorCode>(ErrorCode::InvalidFee),
            res is Ok ==> final(self).amm_config == old(self).amm_config.with_fee(fee),
            res is Ok ==> final(self).admin == old(self).admin,
            res is Err ==> *final(self) == *old(self),
            res is Ok && old(self).amm_config.valid() ==> final(self).amm_config.valid(),
    {
        if !(fee < 10_000) {
            return Err(ErrorCode::InvalidFee);
        }
        self.amm_config.fee = fee;
        Ok(())
    }
}

} // verus!
