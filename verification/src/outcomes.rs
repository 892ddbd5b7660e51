//! What each operation returns, written out from its inputs: when it is
//! accepted, what it then moves, and which error each refusal gives.

use vstd::prelude::*;

use crate::error::ErrorCode;
use crate::instructions::deposit::{deposit_result, Deposit};
use crate::instructions::initialize_amm::initialize_amm_result;
use crate::instructions::initialize_pool::{initialize_pool_result, InitializePool};
use crate::instructions::swap::{swap_result, Swap};
use crate::instructions::withdraw::{withdraw_result, Withdraw};
use crate::key::{key_lt, lemma_key_lt_irreflexive, Pubkey};
use crate::state::AmmConfig;
use crate::math::{is_floor_sqrt, lemma_floor_sqrt, lemma_floor_sqrt_unique};
use crate::quote::{
    deposit_quote_result, initial_liquidity_result, lemma_swap_output_below_reserve, swap_quote_result,
    withdraw_quote_result, DepositQuote, SwapQuote, WithdrawQuote,
};

verus! {

// ---------------------------------------------------------------------------
// Swaps
// ---------------------------------------------------------------------------

/// An exact-input swap pays the constant-product output less the fee,
/// `out = floor(t * reserve_out / (reserve_in * 10000 + t))` with
/// `t = amount_in * (10000 - fee_bps)`, computed in 128 bits. It is accepted
/// exactly when the input and both reserves are positive, the fee is below
/// 10,000, `t * reserve_out` fits in 128 bits, the input reserve stays within
/// 64 bits, and `out` is positive and at least `min_out`; the output is then
/// always below the output reserve.
pub proof fn lemma_swap_quote_outcome(
    amount_in: u64,
    min_out: u64,
    reserve_in: u64,
    reserve_out: u64,
    fee_bps: u16,
)
    ensures
        ({
            let res = swap_quote_result(amount_in, min_out, reserve_in, reserve_out, fee_bps);
            let positive = amount_in > 0 && reserve_in > 0 && reserve_out > 0;
            let t = amount_in * (10_000 - fee_bps);
            let out = (t * reserve_out) / (reserve_in * 10_000 + t);
            let fits = t * reserve_out <= u128::MAX && reserve_in + amount_in <= u64::MAX;
            &&& !positive ==> res == Err::<SwapQuote, ErrorCode>(ErrorCode::InvalidSwapAmount)
            &&& positive && fee_bps >= 10_000 ==> res == Err::<SwapQuote, ErrorCode>(
                ErrorCode::InvalidFee,
            )
            &&& positive && fee_bps < 10_000 && !fits ==> res == Err::<SwapQuote, ErrorCode>(
                ErrorCode::ArithmeticOverflow,
            )
            &&& positive && fee_bps < 10_000 ==> 0 <= out < reserve_out
            &&& positive && fee_bps < 10_000 && fits && out == 0 ==> res == Err::<
                SwapQuote,
                ErrorCode,
            >(ErrorCode::InsufficientSwapOutput)
            &&& positive && fee_bps < 10_000 && fits && 0 < out < min_out ==> res == Err::<
                SwapQuote,
                ErrorCode,
            >(ErrorCode::SlippageExceeded)
            &&& positive && fee_bps < 10_000 && fits && 0 < out && min_out <= out ==> res == Ok::<
                SwapQuote,
                ErrorCode,
            >(SwapQuote { amount_in, amount_out: out as u64 })
        }),
{
    if amount_in > 0 && reserve_in > 0 && reserve_out > 0 && fee_bps < 10_000 {
        lemma_swap_output_below_reserve(
            amount_in as int,
            reserve_in as int,
            reserve_out as int,
            fee_bps as int,
        );
    }
}

/// A swap on a pool with ordered mints under an unpaused AMM is the quote
/// of its input against the vault of the input token and the vault of the
/// output token (A's vault first when `a_to_b`), at the AMM's fee;
/// otherwise it is refused for the mints, then for the pause.
pub proof fn lemma_swap_handler_outcome(ctx: Swap, a_to_b: bool, amount_in: u64, min_out: u64)
    ensures
        !key_lt(ctx.mint_a@, ctx.mint_b@) ==> swap_result(ctx, a_to_b, amount_in, min_out)
            == Err::<SwapQuote, ErrorCode>(ErrorCode::InvalidMintPair),
        key_lt(ctx.mint_a@, ctx.mint_b@) && ctx.amm_config.paused != 0 ==> swap_result(
            ctx,
            a_to_b,
            amount_in,
            min_out,
        ) == Err::<SwapQuote, ErrorCode>(ErrorCode::InvalidAmmState),
        key_lt(ctx.mint_a@, ctx.mint_b@) && ctx.amm_config.paused == 0 && a_to_b ==> swap_result(
            ctx,
            a_to_b,
            amount_in,
            min_out,
        ) == swap_quote_result(
            amount_in,
            min_out,
            ctx.vault_a_amount,
            ctx.vault_b_amount,
            ctx.amm_config.fee,
        ),
        key_lt(ctx.mint_a@, ctx.mint_b@) && ctx.amm_config.paused == 0 && !a_to_b ==> swap_result(
            ctx,
            a_to_b,
            amount_in,
            min_out,
        ) == swap_quote_result(
            amount_in,
            min_out,
            ctx.vault_b_amount,
            ctx.vault_a_amount,
            ctx.amm_config.fee,
        ),
{
}

// ---------------------------------------------------------------------------
// Deposits
// ---------------------------------------------------------------------------

/// A deposit into a pool with reserves `x`, `y` and LP supply `l` takes all
/// of `max_a` with `floor(max_a * y / x)` of B when that is within `max_b`,
/// else all of `max_b` with `floor(max_b * x / y)` of A, and mints the
/// smaller of `floor(a * l / x)` and `floor(b * l / y)`. It is accepted
/// exactly when the maximums and the pool are nonzero, both amounts and the
/// LP minted are positive, and the new supply and vault balances fit in 64
/// bits.
pub proof fn lemma_deposit_quote_outcome(max_a: u64, max_b: u64, x: u64, y: u64, l: u64)
    ensures
        ({
            let res = deposit_quote_result(max_a, max_b, x, y, l);
            let a_whole = (max_a * y) / (x as int) <= max_b;
            let a = if a_whole {
                max_a as int
            } else {
                (max_b * x) / (y as int)
            };
            let b = if a_whole {
                (max_a * y) / (x as int)
            } else {
                max_b as int
            };
            let lp = if (a * l) / (x as int) <= (b * l) / (y as int) {
                (a * l) / (x as int)
            } else {
                (b * l) / (y as int)
            };
            let open = max_a > 0 && max_b > 0 && x > 0 && y > 0 && l > 0;
            &&& (max_a == 0 || max_b == 0) ==> res == Err::<DepositQuote, ErrorCode>(
                ErrorCode::InvalidDepositAmount,
            )
            &&& max_a > 0 && max_b > 0 && (x == 0 || y == 0 || l == 0) ==> res == Err::<
                DepositQuote,
                ErrorCode,
            >(ErrorCode::InvalidLiquidityState)
            &&& open ==> 0 <= a <= max_a && 0 <= b <= max_b
            &&& open && (a == 0 || b == 0) ==> res == Err::<DepositQuote, ErrorCode>(
                ErrorCode::InvalidDepositAmount,
            )
            &&& open && a > 0 && b > 0 && lp == 0 ==> res == Err::<DepositQuote, ErrorCode>(
                ErrorCode::InsufficientLiquidityMinted,
            )
            &&& open && a > 0 && b > 0 && lp > 0 && (l + lp > u64::MAX || x + a > u64::MAX || y
                + b > u64::MAX) ==> res == Err::<DepositQuote, ErrorCode>(
                ErrorCode::ArithmeticOverflow,
            )
            &&& open && a > 0 && b > 0 && lp > 0 && l + lp <= u64::MAX && x + a <= u64::MAX && y
                + b <= u64::MAX ==> res == Ok::<DepositQuote, ErrorCode>(
                DepositQuote { amount_a: a as u64, amount_b: b as u64, lp_out: lp as u64 },
            )
        }),
{
    if max_a > 0 && max_b > 0 && x > 0 && y > 0 && l > 0 {
        crate::laws::lemma_deposit_amounts_bounded(max_a, max_b, x, y);
    }
}

/// A deposit into a pool with ordered mints under an unpaused AMM: into an
/// empty pool (no LP supply) it takes both maximums whole and mints the floor
/// of the square root of their product, refused only for a zero maximum or
/// when that is below `min_lp_out`; into a pool with LP supply it is the
/// deposit quote, refused when the quote is refused or mints fewer than
/// `min_lp_out`. Otherwise it is refused for the mints, then for the pause.
pub proof fn lemma_deposit_handler_outcome(
    ctx: Deposit,
    max_a: u64,
    max_b: u64,
    min_lp_out: u64,
)
    ensures
        !key_lt(ctx.mint_a@, ctx.mint_b@) ==> deposit_result(ctx, max_a, max_b, min_lp_out)
            == Err::<DepositQuote, ErrorCode>(ErrorCode::InvalidMintPair),
        key_lt(ctx.mint_a@, ctx.mint_b@) && ctx.amm_config.paused != 0 ==> deposit_result(
            ctx,
            max_a,
            max_b,
            min_lp_out,
        ) == Err::<DepositQuote, ErrorCode>(ErrorCode::InvalidAmmState),
        key_lt(ctx.mint_a@, ctx.mint_b@) && ctx.amm_config.paused == 0 && ctx.lp_supply == 0 && (
        max_a == 0 || max_b == 0) ==> deposit_result(ctx, max_a, max_b, min_lp_out) == Err::<
            DepositQuote,
            ErrorCode,
        >(ErrorCode::InvalidDepositAmount),
        key_lt(ctx.mint_a@, ctx.mint_b@) && ctx.amm_config.paused == 0 && ctx.lp_supply == 0
            && max_a > 0 && max_b > 0 ==> forall|r: int|
            #[trigger] is_floor_sqrt(max_a * max_b, r) ==> {
                &&& r <= u64::MAX
                &&& min_lp_out <= r ==> deposit_result(ctx, max_a, max_b, min_lp_out) == Ok::<
                    DepositQuote,
                    ErrorCode,
                >(DepositQuote { amount_a: max_a, amount_b: max_b, lp_out: r as u64 })
                &&& r < min_lp_out ==> deposit_result(ctx, max_a, max_b, min_lp_out) == Err::<
                    DepositQuote,
                    ErrorCode,
                >(ErrorCode::SlippageExceeded)
            },
        key_lt(ctx.mint_a@, ctx.mint_b@) && ctx.amm_config.paused == 0 && ctx.lp_supply > 0
            ==> deposit_result(ctx, max_a, max_b, min_lp_out) == match deposit_quote_result(
            max_a,
            max_b,
            ctx.vault_a_amount,
            ctx.vault_b_amount,
            ctx.lp_supply,
        ) {
            Ok(q) => if min_lp_out <= q.lp_out {
                Ok::<DepositQuote, ErrorCode>(q)
            } else {
                Err::<DepositQuote, ErrorCode>(ErrorCode::SlippageExceeded)
            },
            Err(e) => Err::<DepositQuote, ErrorCode>(e),
        },
{
    let n = max_a * max_b;
    if max_a > 0 && max_b > 0 {
        assert(0 <= n <= u64::MAX * u64::MAX) by (nonlinear_arith)
            requires
                n == max_a * max_b,
                max_a <= u64::MAX,
                max_b <= u64::MAX,
        ;
        lemma_floor_sqrt(n);
        assert forall|r: int| #[trigger] is_floor_sqrt(n, r) implies r == crate::math::floor_sqrt(
            n,
        ) && r <= u64::MAX by {
            lemma_floor_sqrt_unique(n, r, crate::math::floor_sqrt(n));
        }
    }
}

/// The first deposit into an empty pool takes both amounts whole and mints
/// the floor of the square root of their product; it is refused exactly
/// when an amount is zero.
pub proof fn lemma_initial_liquidity_outcome(x: u64, y: u64)
    ensures
        initial_liquidity_result(x, y) is Ok <==> (x > 0 && y > 0),
        !(x > 0 && y > 0) ==> initial_liquidity_result(x, y) == Err::<DepositQuote, ErrorCode>(
            ErrorCode::InvalidDepositAmount,
        ),
        initial_liquidity_result(x, y) matches Ok(q) ==> {
            &&& q.amount_a == x
            &&& q.amount_b == y
            &&& is_floor_sqrt(x * y, q.lp_out as int)
        },
{
    if x > 0 && y > 0 {
        assert(0 <= x * y <= u64::MAX * u64::MAX) by (nonlinear_arith)
            requires
                x <= u64::MAX,
                y <= u64::MAX,
        ;
        lemma_floor_sqrt(x * y);
    }
}

// ---------------------------------------------------------------------------
// Withdrawals
// ---------------------------------------------------------------------------

/// Burning `lp_to_burn` of an LP supply `l` pays the pro-rata share of each
/// vault, `floor(x * lp_to_burn / l)` and `floor(y * lp_to_burn / l)`,
/// never more than the vault. It is accepted exactly when
/// `0 < lp_to_burn <= l`, both shares are positive, and each is at least
/// the user's minimum.
pub proof fn lemma_withdraw_quote_outcome(
    lp_to_burn: u64,
    min_a: u64,
    min_b: u64,
    x: u64,
    y: u64,
    l: u64,
)
    ensures
        ({
            let res = withdraw_quote_result(lp_to_burn, min_a, min_b, x, y, l);
            let a = (x * lp_to_burn) / (l as int);
            let b = (y * lp_to_burn) / (l as int);
            let burnable = 0 < lp_to_burn <= l;
            &&& lp_to_burn == 0 ==> res == Err::<WithdrawQuote, ErrorCode>(
                ErrorCode::InvalidWithdrawAmount,
            )
            &&& lp_to_burn > 0 && l == 0 ==> res == Err::<WithdrawQuote, ErrorCode>(
                ErrorCode::InvalidLiquidityState,
            )
            &&& l > 0 && lp_to_burn > l ==> res == Err::<WithdrawQuote, ErrorCode>(
                ErrorCode::InvalidWithdrawAmount,
            )
            &&& burnable ==> 0 <= a <= x && 0 <= b <= y
            &&& burnable && (a == 0 || b == 0) ==> res == Err::<WithdrawQuote, ErrorCode>(
                ErrorCode::InsufficientWithdrawOutput,
            )
            &&& burnable && a > 0 && b > 0 && (a < min_a || b < min_b) ==> res == Err::<
                WithdrawQuote,
                ErrorCode,
            >(ErrorCode::SlippageExceeded)
            &&& burnable && a > 0 && b > 0 && min_a <= a && min_b <= b ==> res == Ok::<
                WithdrawQuote,
                ErrorCode,
            >(WithdrawQuote { amount_a: a as u64, amount_b: b as u64 })
        }),
{
    assert(x * lp_to_burn == lp_to_burn * x) by (nonlinear_arith);
    assert(y * lp_to_burn == lp_to_burn * y) by (nonlinear_arith);
    if 0 < lp_to_burn <= l {
        crate::quote::lemma_share_at_most_reserve(lp_to_burn, l, x);
        crate::quote::lemma_share_at_most_reserve(lp_to_burn, l, y);
    }
}

/// A withdrawal from a pool with ordered mints pays each vault's pro-rata
/// share `floor(vault * lp_to_burn / lp_supply)`, accepted exactly when the
/// burn is positive and within the supply and both shares are positive and
/// meet the minimums; the AMM's configuration plays no part. With mints out
/// of order it is refused.
pub proof fn lemma_withdraw_handler_outcome(
    ctx: Withdraw,
    lp_to_burn: u64,
    min_a: u64,
    min_b: u64,
)
    ensures
        !key_lt(ctx.mint_a@, ctx.mint_b@) ==> withdraw_result(ctx, lp_to_burn, min_a, min_b)
            == Err::<WithdrawQuote, ErrorCode>(ErrorCode::InvalidMintPair),
        ({
            let res = withdraw_result(ctx, lp_to_burn, min_a, min_b);
            let l = ctx.lp_supply;
            let a = (ctx.vault_a_amount * lp_to_burn) / (l as int);
            let b = (ctx.vault_b_amount * lp_to_burn) / (l as int);
            key_lt(ctx.mint_a@, ctx.mint_b@) ==> {
                &&& res is Ok <==> (0 < lp_to_burn <= l && 0 < a && 0 < b && min_a <= a && min_b
                    <= b)
                &&& res is Ok ==> res == Ok::<WithdrawQuote, ErrorCode>(
                    WithdrawQuote { amount_a: a as u64, amount_b: b as u64 },
                )
            }
        }),
{
    lemma_withdraw_quote_outcome(
        lp_to_burn,
        min_a,
        min_b,
        ctx.vault_a_amount,
        ctx.vault_b_amount,
        ctx.lp_supply,
    );
}

// ---------------------------------------------------------------------------
// Configuration
// ---------------------------------------------------------------------------

/// A pool is created exactly when its mints are in order (hence distinct)
/// and the AMM is not paused; identical mints are refused first, then a
/// paused AMM, then mints out of order. No other property of the AMM, its
/// fee included, plays a part.
pub proof fn lemma_initialize_pool_outcome(ctx: InitializePool)
    ensures
        initialize_pool_result(ctx) is Ok <==> (key_lt(ctx.mint_a@, ctx.mint_b@)
            && ctx.amm_config.paused == 0),
        ctx.mint_a@ == ctx.mint_b@ ==> initialize_pool_result(ctx) == Err::<(), ErrorCode>(
            ErrorCode::InvalidMintPair,
        ),
        ctx.mint_a@ != ctx.mint_b@ && ctx.amm_config.paused != 0 ==> initialize_pool_result(ctx)
            == Err::<(), ErrorCode>(ErrorCode::InvalidAmmState),
        ctx.amm_config.paused == 0 && !key_lt(ctx.mint_a@, ctx.mint_b@) ==> initialize_pool_result(
            ctx,
        ) == Err::<(), ErrorCode>(ErrorCode::InvalidMintPair),
{
    lemma_key_lt_irreflexive(ctx.mint_a@);
}

/// An AMM is created exactly when its fee is below 10,000 basis points and
/// its pause flag is 0 or 1; the fee is checked first.
pub proof fn lemma_initialize_amm_outcome(fee: u16, paused: u8)
    ensures
        initialize_amm_result(fee, paused) is Ok <==> (fee < 10_000 && paused <= 1),
        fee >= 10_000 ==> initialize_amm_result(fee, paused) == Err::<(), ErrorCode>(
            ErrorCode::InvalidFee,
        ),
        fee < 10_000 && paused > 1 ==> initialize_amm_result(fee, paused) == Err::<(), ErrorCode>(
            ErrorCode::InvalidPaused,
        ),
{
}

/// Setting the pause flag, the fee or the admin changes that field and
/// leaves every other field of the configuration as it was.
pub proof fn lemma_config_setters_change_one_field(
    c: AmmConfig,
    paused: u8,
    fee: u16,
    admin: Pubkey,
)
    ensures
        ({
            let p = c.with_paused(paused);
            p.paused == paused && p.fee == c.fee && p.admin == c.admin && p.maker == c.maker
                && p.id == c.id && p.bump == c.bump
        }),
        ({
            let f = c.with_fee(fee);
            f.fee == fee && f.paused == c.paused && f.admin == c.admin && f.maker == c.maker
                && f.id == c.id && f.bump == c.bump
        }),
        ({
            let a = c.with_admin(admin);
            a.admin == admin && a.fee == c.fee && a.paused == c.paused && a.maker == c.maker
                && a.id == c.id && a.bump == c.bump
        }),
{
}

} // verus!
