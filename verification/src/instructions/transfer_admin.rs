//! Handing an AMM's administration to another account.

use vstd::prelude::*;

use crate::error::ErrorCode;
use crate::key::Pubkey;
use crate::state::AmmConfig;

verus! {

/// Handing administration on: the current admin and the new one, who both
/// sign, and the configuration.
#[derive(Clone, Copy, Debug)]
pub struct TransferAdmin {
    pub admin: Pubkey,
    pub new_admin: Pubkey,
    pub amm_config: AmmConfig,
}

impl TransferAdmin {
    /// Transfers AMM administration with approval from both admins. Only the
    /// admin changes; it is allowed while paused, and naming the current
    /// admin again changes nothing.
    pub fn handler(&mut self) -> (res: Result<(), ErrorCode>)
        ensures
            res is Ok,
            final(self).amm_config == old(self).amm_config.with_admin(old(self).new_admin),
            final(self).admin == old(self).admin,
            final(self).new_admin == old(self).new_admin,
            old(self).amm_config.valid() ==> final(self).amm_config.valid(),
    {
        self.amm_config.admin = self.new_admin;
        Ok(())
    }
}

} // verus!
