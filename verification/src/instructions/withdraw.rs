//! Removing liquidity from a pool.

use vstd::prelude::*;

use crate::error::ErrorCode;
use crate::key::{key_lt, Pubkey};
use crate::quote::{withdraw_quote_result, WithdrawQuote};
use crate::state::AmmConfig;

verus! {

/// A withdrawal: the pool's mints, the AMM's configuration, the LP supply
/// and the balances of the pool's two vaults.
#[derive(Clone, Copy, Debug)]
pub struct Withdraw {
    pub mint_a: Pubkey,
    pub mint_b: Pubkey,
    pub amm_config: AmmConfig,
    pub lp_supply: u64,
    pub vault_a_amount: u64,
    pub vault_b_amount: u64,
}

/// The outcome of burning `lp_to_burn` LP tokens for at least `min_a` and
/// `min_b`: the amounts to pay out of the vaults, or why it is refused.
/// The AMM's pause flag plays no part.
pub open spec fn withdraw_result(ctx: Withdraw, lp_to_burn: u64, min_a: u64, min_b: u64) -> Result<
    WithdrawQuote,
    ErrorCode,
> {
    if !key_lt(ctx.mint_a@, ctx.mint_b@) {
        Err(ErrorCode::InvalidMintPair)
    } else {
        withdraw_quote_result(
            lp_to_burn,
            min_a,
            min_b,
            ctx.vault_a_amount,
            ctx.vault_b_amount,
            ctx.lp_supply,
        )
    }
}

impl Withdraw {
    /// Decides a withdrawal. Refused when the mints are out of order or the
    /// quote fails; allowed while the AMM is paused. On success the caller
    /// burns `lp_to_burn` from the user and pays `amount_a` and `amount_b`
    /// out of the vaults.
    pub fn handler(&self, lp_to_burn: u64, min_a: u64, min_b: u64) -> (res: Result<
        WithdrawQuote,
        ErrorCode,
    >)
        ensures
            res == withdraw_result(*self, lp_to_burn, min_a, min_b),
    {
        if !self.mint_a.less_than(&self.mint_b) {
            return Err(ErrorCode::InvalidMintPair);
        }
        WithdrawQuote::quote_withdraw(
            lp_to_burn,
            min_a,
            min_b,
            self.vault_a_amount,
            self.vault_b_amount,
            self.lp_supply,
        )
    }
}

} // verus!
