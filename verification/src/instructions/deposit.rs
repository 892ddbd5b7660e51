//! Adding liquidity to a pool.

use vstd::prelude::*;

use crate::error::ErrorCode;
use crate::key::{key_lt, Pubkey};
use crate::quote::{deposit_quote_result, initial_liquidity_result, DepositQuote};
use crate::state::AmmConfig;

verus! {

/// A deposit: the pool's mints, the AMM's configuration, the LP supply and
/// the balances of the pool's two vaults.
#[derive(Clone, Copy, Debug)]
pub struct Deposit {
    pub mint_a: Pubkey,
    pub mint_b: Pubkey,
    pub amm_config: AmmConfig,
    pub lp_supply: u64,
    pub vault_a_amount: u64,
    pub vault_b_amount: u64,
}

/// The outcome of a deposit of at most `max_a` and `max_b` that must mint
/// at least `min_lp_out` LP tokens: the amounts to move into the vaults and
/// the LP tokens to mint to the user, or why it is refused.
pub open spec fn deposit_result(ctx: Deposit, max_a: u64, max_b: u64, min_lp_out: u64) -> Result<
    DepositQuote,
    ErrorCode,
> {
    let quote = if ctx.lp_supply == 0 {
        initial_liquidity_result(max_a, max_b)
    } else {
        deposit_quote_result(max_a, max_b, ctx.vault_a_amount, ctx.vault_b_amount, ctx.lp_supply)
    };
    if !key_lt(ctx.mint_a@, ctx.mint_b@) {
        Err(ErrorCode::InvalidMintPair)
    } else if ctx.amm_config.paused != 0 {
        Err(ErrorCode::InvalidAmmState)
    } else {
        match quote {
            Err(e) => Err(e),
            Ok(q) => if q.lp_out < min_lp_out {
                Err(ErrorCode::SlippageExceeded)
            } else {
                Ok(q)
            },
        }
    }
}

impl Deposit {
    /// Decides a deposit: into an empty pool (no LP supply) both maximums
    /// are taken whole, otherwise amounts in the pool's ratio; refused when
    /// the mints are out of order, the AMM is paused, the quote fails, or
    /// fewer than `min_lp_out` LP tokens would be minted. On success the
    /// caller moves `amount_a` and `amount_b` into the vaults and mints
    /// `lp_out` to the user.
    pub fn handler(&self, max_a: u64, max_b: u64, min_lp_out: u64) -> (res: Result<
        DepositQuote,
        ErrorCode,
    >)
        ensures
            res == deposit_result(*self, max_a, max_b, min_lp_out),
    {
        if !self.mint_a.less_than(&self.mint_b) {
            return Err(ErrorCode::InvalidMintPair);
        }
        if !(self.amm_config.paused == 0) {
            return Err(ErrorCode::InvalidAmmState);
        }
        let quote = if self.lp_supply == 0 {
            DepositQuote::initial_liquidity(max_a, max_b)
        } else {
            DepositQuote::quote_deposit(
                max_a,
                max_b,
                self.vault_a_amount,
                self.vault_b_amount,
                self.lp_supply,
            )
        };
        let quote = match quote {
            Ok(q) => q,
            Err(e) => {
                return Err(e);
            },
        };
        if !(quote.lp_out >= min_lp_out) {
            return Err(ErrorCode::SlippageExceeded);
        }
        Ok(quote)
    }
}

} // verus!
