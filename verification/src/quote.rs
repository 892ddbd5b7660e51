//! Pricing of the pool's three operations: how much goes in, how much comes
//! out, and how many LP tokens are minted. Every division rounds down.

use vstd::prelude::*;

use crate::error::ErrorCode;
use crate::math::{
    floor_sqrt, is_floor_sqrt, isqrt, lemma_floor_div_bounds, lemma_floor_div_lt,
};

verus! {

/// Basis points in one whole: fees are expressed in ten-thousandths.
pub const BPS_DENOMINATOR: u16 = 10_000;

/// The smaller of two integers.
pub open spec fn min_int(a: int, b: int) -> int {
    if a <= b {
        a
    } else {
        b
    }
}

// ---------------------------------------------------------------------------
// Deposits
// ---------------------------------------------------------------------------

/// What a deposit moves: the two token amounts and the LP tokens minted.
#[derive(Clone, Copy, Debug, PartialEq, Eq, Structural)]
pub struct DepositQuote {
    pub amount_a: u64,
    pub amount_b: u64,
    pub lp_out: u64,
}

/// The B amount that matches `max_a` of A at reserves `x` : `y`.
pub open spec fn b_for_a(max_a: int, x: int, y: int) -> int {
    (max_a * y) / x
}

/// The amounts a deposit takes within the user's maximums: all of `max_a`
/// when the matching B fits under `max_b`, else all of `max_b` and the A
/// that matches it.
pub open spec fn deposit_amounts(max_a: int, max_b: int, x: int, y: int) -> (int, int) {
    if b_for_a(max_a, x, y) <= max_b {
        (max_a, b_for_a(max_a, x, y))
    } else {
        ((max_b * x) / y, max_b)
    }
}

/// LP tokens earned by adding `amount` to a reserve of `reserve` backing a
/// supply of `supply`.
pub open spec fn lp_share(amount: int, reserve: int, supply: int) -> int {
    (amount * supply) / reserve
}

/// LP tokens minted for a deposit of `a` and `b`: the smaller of the two
/// shares, so neither side is over-credited.
pub open spec fn deposit_lp(a: int, b: int, x: int, y: int, l: int) -> int {
    min_int(lp_share(a, x, l), lp_share(b, y, l))
}

/// What quoting a deposit into an existing pool gives, for the user's
/// maximums `max_a`, `max_b`, reserves `x`, `y` and LP supply `l`.
pub open spec fn deposit_quote_result(max_a: u64, max_b: u64, x: u64, y: u64, l: u64) -> Result<
    DepositQuote,
    ErrorCode,
> {
    let (a, b) = deposit_amounts(max_a as int, max_b as int, x as int, y as int);
    let lp = deposit_lp(a, b, x as int, y as int, l as int);
    if max_a == 0 || max_b == 0 {
        Err(ErrorCode::InvalidDepositAmount)
    } else if x == 0 || y == 0 || l == 0 {
        Err(ErrorCode::InvalidLiquidityState)
    } else if a == 0 || b == 0 {
        Err(ErrorCode::InvalidDepositAmount)
    } else if lp > u64::MAX {
        Err(ErrorCode::ArithmeticOverflow)
    } else if lp == 0 {
        Err(ErrorCode::InsufficientLiquidityMinted)
    } else if l + lp > u64::MAX || x + a > u64::MAX || y + b > u64::MAX {
        Err(ErrorCode::ArithmeticOverflow)
    } else {
        Ok(DepositQuote { amount_a: a as u64, amount_b: b as u64, lp_out: lp as u64 })
    }
}

/// `a * b` of two 64-bit values fits in 128 bits.
proof fn lemma_u64_product_fits(a: u64, b: u64)
    ensures
        0 <= a * b <= u64::MAX * u64::MAX,
        u64::MAX * u64::MAX <= u128::MAX,
{
    assert(0 <= a * b <= u64::MAX * u64::MAX) by (nonlinear_arith)
        requires
            a <= u64::MAX,
            b <= u64::MAX,
    ;
}

/// What quoting the first deposit into an empty pool gives.
pub open spec fn initial_liquidity_result(x: u64, y: u64) -> Result<DepositQuote, ErrorCode> {
    if x > 0 && y > 0 {
        Ok(DepositQuote { amount_a: x, amount_b: y, lp_out: floor_sqrt(x * y) as u64 })
    } else {
        Err(ErrorCode::InvalidDepositAmount)
    }
}

impl DepositQuote {
    /// Quotes the first deposit into an empty pool: both amounts are taken
    /// whole and the LP tokens minted are floor(sqrt(x * y)). Rejects a zero
    /// amount. Existing vault balances are not considered, and no liquidity
    /// is locked.
    pub fn initial_liquidity(x: u64, y: u64) -> (res: Result<Self, ErrorCode>)
        ensures
            res == initial_liquidity_result(x, y),
            res matches Ok(q) ==> {
                &&& q.amount_a == x
                &&& q.amount_b == y
                &&& is_floor_sqrt(x * y, q.lp_out as int)
            },
    {
        if !(x > 0 && y > 0) {
            return Err(ErrorCode::InvalidDepositAmount);
        }
        proof {
            lemma_u64_product_fits(x, y);
        }
        let k: u128 = x as u128 * y as u128;
        Ok(DepositQuote { amount_a: x, amount_b: y, lp_out: isqrt(k) })
    }

    /// Quotes a deposit into a pool with reserves `x`, `y` and LP supply
    /// `l`: the amounts taken within the maximums `max_a`, `max_b`, in the
    /// pool's ratio, and the LP tokens minted for them. Rejects zero
    /// maximums, an empty pool, amounts that round to zero, a deposit too
    /// small to mint LP tokens, and totals that leave 64 bits.
    pub fn quote_deposit(max_a: u64, max_b: u64, x: u64, y: u64, l: u64) -> (res: Result<
        Self,
        ErrorCode,
    >)
        ensures
            res == deposit_quote_result(max_a, max_b, x, y, l),
    {
        if !(max_a > 0 && max_b > 0) {
            return Err(ErrorCode::InvalidDepositAmount);
        }
        if !(x > 0 && y > 0 && l > 0) {
            return Err(ErrorCode::InvalidLiquidityState);
        }
        proof {
            lemma_u64_product_fits(max_a, y);
            lemma_u64_product_fits(max_b, x);
        }
        let ghost amounts = deposit_amounts(max_a as int, max_b as int, x as int, y as int);

        // How much B accompanies the user's maximum A.
        let b_for_max_a: u128 = (max_a as u128 * y as u128) / x as u128;

        let amount_a: u64;
        let amount_b: u64;
        if b_for_max_a <= max_b as u128 {
            // B fits within its limit, so A limits this deposit.
            amount_a = max_a;
            amount_b = b_for_max_a as u64;
        } else {
            // B limits this deposit; take the A that matches it.
            let a_for_max_b: u128 = (max_b as u128 * x as u128) / y as u128;
            proof {
                lemma_floor_div_bounds(max_a * y, x as int);
                assert((max_b + 1) * x <= max_a * y) by (nonlinear_arith)
                    requires
                        b_for_max_a >= max_b + 1,
                        b_for_max_a * x <= max_a * y,
                        x > 0,
                ;
                assert(max_b * x < max_a * y) by (nonlinear_arith)
                    requires
                        (max_b + 1) * x <= max_a * y,
                        x > 0,
                ;
                lemma_floor_div_lt(max_a as int, max_b * x, y as int);
            }
            if a_for_max_b > u64::MAX as u128 {
                return Err(ErrorCode::ArithmeticOverflow);
            }
            amount_a = a_for_max_b as u64;
            amount_b = max_b;
        }
        assert(amount_a == amounts.0 && amount_b == amounts.1);

        // Integer division can round a matching amount down to zero.
        if !(amount_a > 0 && amount_b > 0) {
            return Err(ErrorCode::InvalidDepositAmount);
        }

        proof {
            lemma_u64_product_fits(amount_a, l);
            lemma_u64_product_fits(amount_b, l);
        }
        let lp_from_a: u128 = (amount_a as u128 * l as u128) / x as u128;
        let lp_from_b: u128 = (amount_b as u128 * l as u128) / y as u128;
        let lp: u128 = if lp_from_a <= lp_from_b {
            lp_from_a
        } else {
            lp_from_b
        };
        if lp > u64::MAX as u128 {
            return Err(ErrorCode::ArithmeticOverflow);
        }
        let lp_out = lp as u64;

        if lp_out == 0 {
            return Err(ErrorCode::InsufficientLiquidityMinted);
        }

        // The resulting LP supply and both vault balances must fit in 64 bits.
        if l.checked_add(lp_out).is_none() {
            return Err(ErrorCode::ArithmeticOverflow);
        }
        if x.checked_add(amount_a).is_none() {
            return Err(ErrorCode::ArithmeticOverflow);
        }
        if y.checked_add(amount_b).is_none() {
            return Err(ErrorCode::ArithmeticOverflow);
        }

        Ok(DepositQuote { amount_a, amount_b, lp_out })
    }
}

// ---------------------------------------------------------------------------
// Withdrawals
// ---------------------------------------------------------------------------

/// What a withdrawal pays out of the two vaults.
#[derive(Clone, Copy, Debug, PartialEq, Eq, Structural)]
pub struct WithdrawQuote {
    pub amount_a: u64,
    pub amount_b: u64,
}

/// What quoting the burn of `lp_to_burn` LP tokens gives, for the user's
/// minimums `min_a`, `min_b`, reserves `x`, `y` and LP supply `l`.
pub open spec fn withdraw_quote_result(
    lp_to_burn: u64,
    min_a: u64,
    min_b: u64,
    x: u64,
    y: u64,
    l: u64,
) -> Result<WithdrawQuote, ErrorCode> {
    let a = lp_share(lp_to_burn as int, l as int, x as int);
    let b = lp_share(lp_to_burn as int, l as int, y as int);
    if lp_to_burn == 0 {
        Err(ErrorCode::InvalidWithdrawAmount)
    } else if l == 0 {
        Err(ErrorCode::InvalidLiquidityState)
    } else if lp_to_burn > l {
        Err(ErrorCode::InvalidWithdrawAmount)
    } else if a == 0 || b == 0 {
        Err(ErrorCode::InsufficientWithdrawOutput)
    } else if a < min_a || b < min_b {
        Err(ErrorCode::SlippageExceeded)
    } else {
        Ok(WithdrawQuote { amount_a: a as u64, amount_b: b as u64 })
    }
}

/// The share `lp * r / l` of a reserve `r` is at most `r` when `lp <= l`.
pub proof fn lemma_share_at_most_reserve(lp: u64, l: u64, r: u64)
    requires
        0 < l,
        lp <= l,
    ensures
        0 <= lp_share(lp as int, l as int, r as int) <= r,
{
    assert(0 <= lp * r <= r * l) by (nonlinear_arith)
        requires
            lp <= l,
            0 <= r,
            0 <= lp,
    ;
    vstd::arithmetic::div_mod::lemma_div_pos_is_pos(lp * r, l as int);
    assert(lp * r < (r + 1) * l) by (nonlinear_arith)
        requires
            lp * r <= r * l,
            l > 0,
    ;
    lemma_floor_div_lt(r + 1, lp * r, l as int);
    assert(lp * r == r * lp) by (nonlinear_arith);
}

impl WithdrawQuote {
    /// Quotes the token amounts paid for burning `lp_to_burn` LP tokens
    /// against reserves `x`, `y` and LP supply `l`, rounding down. Rejects a
    /// zero or excessive burn, an empty supply, an output of zero, and
    /// outputs below the user's minimums.
    pub fn quote_withdraw(lp_to_burn: u64, min_a: u64, min_b: u64, x: u64, y: u64, l: u64) -> (res:
        Result<Self, ErrorCode>)
        ensures
            res == withdraw_quote_result(lp_to_burn, min_a, min_b, x, y, l),
    {
        if !(lp_to_burn > 0) {
            return Err(ErrorCode::InvalidWithdrawAmount);
        }
        if !(l > 0) {
            return Err(ErrorCode::InvalidLiquidityState);
        }
        if !(lp_to_burn <= l) {
            return Err(ErrorCode::InvalidWithdrawAmount);
        }
        proof {
            lemma_u64_product_fits(x, lp_to_burn);
            lemma_u64_product_fits(y, lp_to_burn);
            lemma_share_at_most_reserve(lp_to_burn, l, x);
            lemma_share_at_most_reserve(lp_to_burn, l, y);
            assert(x * lp_to_burn == lp_to_burn * x) by (nonlinear_arith);
            assert(y * lp_to_burn == lp_to_burn * y) by (nonlinear_arith);
        }
        let amount_a = ((x as u128 * lp_to_burn as u128) / l as u128) as u64;
        let amount_b = ((y as u128 * lp_to_burn as u128) / l as u128) as u64;

        if !(amount_a > 0 && amount_b > 0) {
            return Err(ErrorCode::InsufficientWithdrawOutput);
        }
        if !(amount_a >= min_a && amount_b >= min_b) {
            return Err(ErrorCode::SlippageExceeded);
        }
        Ok(WithdrawQuote { amount_a, amount_b })
    }
}

// ---------------------------------------------------------------------------
// Swaps
// ---------------------------------------------------------------------------

/// What an exact-input swap moves: the input taken and the output paid.
#[derive(Clone, Copy, Debug, PartialEq, Eq, Structural)]
pub struct SwapQuote {
    pub amount_in: u64,
    pub amount_out: u64,
}

/// The input after the fee, scaled by the basis-point denominator.
pub open spec fn swap_adjusted_input(amount_in: int, fee_bps: int) -> int {
    amount_in * (10_000 - fee_bps)
}

/// The constant-product output for `amount_in` against reserves
/// `reserve_in`, `reserve_out` at a fee of `fee_bps`, rounded down:
/// floor(t * reserve_out / (reserve_in * 10000 + t)) with t the input after
/// the fee.
pub open spec fn swap_output(amount_in: int, reserve_in: int, reserve_out: int, fee_bps: int) -> int {
    let t = swap_adjusted_input(amount_in, fee_bps);
    (t * reserve_out) / (reserve_in * 10_000 + t)
}

/// What quoting an exact-input swap gives.
pub open spec fn swap_quote_result(
    amount_in: u64,
    min_out: u64,
    reserve_in: u64,
    reserve_out: u64,
    fee_bps: u16,
) -> Result<SwapQuote, ErrorCode> {
    let t = swap_adjusted_input(amount_in as int, fee_bps as int);
    let out = swap_output(amount_in as int, reserve_in as int, reserve_out as int, fee_bps as int);
    if !(amount_in > 0 && reserve_in > 0 && reserve_out > 0) {
        Err(ErrorCode::InvalidSwapAmount)
    } else if fee_bps >= 10_000 {
        Err(ErrorCode::InvalidFee)
    } else if t * reserve_out > u128::MAX {
        Err(ErrorCode::ArithmeticOverflow)
    } else if reserve_in + amount_in > u64::MAX {
        Err(ErrorCode::ArithmeticOverflow)
    } else if out == 0 {
        Err(ErrorCode::InsufficientSwapOutput)
    } else if out >= reserve_out {
        Err(ErrorCode::InsufficientSwapLiquidity)
    } else if out < min_out {
        Err(ErrorCode::SlippageExceeded)
    } else {
        Ok(SwapQuote { amount_in, amount_out: out as u64 })
    }
}

/// With a positive input reserve the output stays below the output reserve.
pub proof fn lemma_swap_output_below_reserve(
    amount_in: int,
    reserve_in: int,
    reserve_out: int,
    fee_bps: int,
)
    requires
        0 <= amount_in,
        0 < reserve_in,
        0 < reserve_out,
        0 <= fee_bps < 10_000,
    ensures
        0 <= swap_output(amount_in, reserve_in, reserve_out, fee_bps) < reserve_out,
{
    let t = swap_adjusted_input(amount_in, fee_bps);
    let d = reserve_in * 10_000 + t;
    assert(0 <= t) by (nonlinear_arith)
        requires
            0 <= amount_in,
            fee_bps < 10_000,
            t == amount_in * (10_000 - fee_bps),
    ;
    assert(t * reserve_out < reserve_out * d) by (nonlinear_arith)
        requires
            d == reserve_in * 10_000 + t,
            0 < reserve_in,
            0 < reserve_out,
            0 <= t,
    ;
    assert(0 <= t * reserve_out) by (nonlinear_arith)
        requires
            0 <= t,
            0 < reserve_out,
    ;
    lemma_floor_div_lt(reserve_out, t * reserve_out, d);
    vstd::arithmetic::div_mod::lemma_div_pos_is_pos(t * reserve_out, d);
}

impl SwapQuote {
    /// Quotes the output of an exact-input swap, rounding down. The reserves
    /// are the pre-swap balances of the input and output tokens; the fee
    /// stays in the pool. Rejects a zero input or reserve, a fee of 10,000
    /// basis points or more, intermediate products beyond 128 bits, an input
    /// reserve that would leave 64 bits, an output of zero or not below the
    /// output reserve, and an output below `min_out`.
    pub fn quote_swap_exact_in(
        amount_in: u64,
        min_out: u64,
        reserve_in: u64,
        reserve_out: u64,
        fee_bps: u16,
    ) -> (res: Result<Self, ErrorCode>)
        ensures
            res == swap_quote_result(amount_in, min_out, reserve_in, reserve_out, fee_bps),
    {
        if !(amount_in > 0 && reserve_in > 0 && reserve_out > 0) {
            return Err(ErrorCode::InvalidSwapAmount);
        }
        if !(fee_bps < BPS_DENOMINATOR) {
            return Err(ErrorCode::InvalidFee);
        }
        let denominator_bps: u128 = 10_000;
        let ghost t = swap_adjusted_input(amount_in as int, fee_bps as int);
        assert(0 <= t <= u64::MAX * 10_000) by (nonlinear_arith)
            requires
                t == amount_in * (10_000 - fee_bps),
                0 < amount_in <= u64::MAX,
                0 <= fee_bps < 10_000,
        ;
        let adjusted_input: u128 = amount_in as u128 * (denominator_bps - fee_bps as u128);
        assert(adjusted_input == t);

        let numerator: u128 = match adjusted_input.checked_mul(reserve_out as u128) {
            Some(n) => n,
            None => {
                return Err(ErrorCode::ArithmeticOverflow);
            },
        };

        let denominator: u128 = reserve_in as u128 * denominator_bps + adjusted_input;
        proof {
            lemma_swap_output_below_reserve(
                amount_in as int,
                reserve_in as int,
                reserve_out as int,
                fee_bps as int,
            );
        }
        let quotient: u128 = numerator / denominator;
        assert(quotient == swap_output(
            amount_in as int,
            reserve_in as int,
            reserve_out as int,
            fee_bps as int,
        ));
        if quotient > u64::MAX as u128 {
            return Err(ErrorCode::ArithmeticOverflow);
        }
        let amount_out = quotient as u64;

        // The input vault's balance must still fit in 64 bits.
        if reserve_in.checked_add(amount_in).is_none() {
            return Err(ErrorCode::ArithmeticOverflow);
        }

        if !(amount_out > 0) {
            return Err(ErrorCode::InsufficientSwapOutput);
        }
        if !(amount_out < reserve_out) {
            return Err(ErrorCode::InsufficientSwapLiquidity);
        }
        if !(amount_out >= min_out) {
            return Err(ErrorCode::SlippageExceeded);
        }

        Ok(SwapQuote { amount_in, amount_out })
    }
}

} // verus!
