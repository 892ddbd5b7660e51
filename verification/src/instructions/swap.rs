//! Exchanging one of a pool's tokens for the other.

use vstd::prelude::*;

use crate::error::ErrorCode;
use crate::key::{key_lt, Pubkey};
use crate::quote::{swap_quote_result, SwapQuote};
use crate::state::AmmConfig;

verus! {

/// A swap: the pool's mints, the AMM's configuration (for its fee and pause
/// flag) and the balances of the pool's two vaults.
#[derive(Clone, Copy, Debug)]
pub struct Swap {
    pub mint_a: Pubkey,
    pub mint_b: Pubkey,
    pub amm_config: AmmConfig,
    pub vault_a_amount: u64,
    pub vault_b_amount: u64,
}

/// The outcome of swapping exactly `amount_in` for at least `min_out`, A to
/// B when `a_to_b` and B to A otherwise: the input to take and the output
/// to pay, or why it is refused.
pub open spec fn swap_result(ctx: Swap, a_to_b: bool, amount_in: u64, min_out: u64) -> Result<
    SwapQuote,
    ErrorCode,
> {
    if !key_lt(ctx.mint_a@, ctx.mint_b@) {
        Err(ErrorCode::InvalidMintPair)
    } else if ctx.amm_config.paused != 0 {
        Err(ErrorCode::InvalidAmmState)
    } else if a_to_b {
        swap_quote_result(
            amount_in,
            min_out,
            ctx.vault_a_amount,
            ctx.vault_b_amount,
            ctx.amm_config.fee,
        )
    } else {
        swap_quote_result(
            amount_in,
            min_out,
            ctx.vault_b_amount,
            ctx.vault_a_amount,
            ctx.amm_config.fee,
        )
    }
}

impl Swap {
    /// Decides an exact-input swap; true selects A to B, false selects B to
    /// A. Refused when the mints are out of order, the AMM is paused, or
    /// the quote fails. On success the caller takes `amount_in` of the input
    /// token into its vault (the fee stays in the pool) and pays
    /// `amount_out` of the output token to the user.
    pub fn handler(&self, a_to_b: bool, amount_in: u64, min_out: u64) -> (res: Result<
        SwapQuote,
        ErrorCode,
    >)
        ensures
            res == swap_result(*self, a_to_b, amount_in, min_out),
    {
        if !self.mint_a.less_than(&self.mint_b) {
            return Err(ErrorCode::InvalidMintPair);
        }
        if !(self.amm_config.paused == 0) {
            return Err(ErrorCode::InvalidAmmState);
        }
        let (reserve_in, reserve_out) = if a_to_b {
            (self.vault_a_amount, self.vault_b_amount)
        } else {
            (self.vault_b_amount, self.vault_a_amount)
        };
        SwapQuote::quote_swap_exact_in(amount_in, min_out, reserve_in, reserve_out, self.amm_config.fee)
    }
}

} // verus!
