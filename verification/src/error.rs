//! The errors the program reports.

use vstd::prelude::*;

verus! {

/// Why an instruction was refused.
#[derive(Clone, Copy, Debug, PartialEq, Eq, Structural)]
pub enum ErrorCode {
    /// Fee must be less than 10,000 basis points.
    InvalidFee,
    /// Paused must be 0 or 1.
    InvalidPaused,
    /// Provided mints must be ordered correctly, and not be identical.
    InvalidMintPair,
    /// Cannot initialize pool with a paused AMM Config.
    InvalidAmmState,
    /// Deposit amounts must be greater than zero.
    InvalidDepositAmount,
    /// Expected nonzero reserves and LP supply.
    InvalidLiquidityState,
    /// Deposit is too small to mint LP tokens.
    InsufficientLiquidityMinted,
    /// Arithmetic result exceeds the supported range.
    ArithmeticOverflow,
    /// LP amount must be positive and cannot exceed total supply.
    InvalidWithdrawAmount,
    /// Withdrawal must return at least one raw unit of each token.
    InsufficientWithdrawOutput,
    /// Swap input amount must be greater than zero.
    InvalidSwapAmount,
    /// Swap output rounds to zero.
    InsufficientSwapOutput,
    /// Swap output must be less than the output reserve.
    InsufficientSwapLiquidity,
    /// Output amount is below the user's minimum.
    SlippageExceeded,
}

} // verus!
