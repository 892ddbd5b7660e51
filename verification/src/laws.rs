//! What holds of the pool's operations across inputs and across calls.

use vstd::prelude::*;

use crate::error::ErrorCode;
use crate::instructions::deposit::{deposit_result, Deposit};
use crate::instructions::initialize_pool::{initialize_pool_result, InitializePool};
use crate::instructions::swap::{swap_result, Swap};
use crate::instructions::withdraw::{withdraw_result, Withdraw};
use crate::key::{key_lt, lemma_key_lt_asymmetric, Pubkey};
use crate::math::{lemma_floor_div_bounds, lemma_floor_div_cross, lemma_floor_div_lt};
use crate::quote::{
    b_for_a, deposit_amounts, deposit_lp, deposit_quote_result, lp_share,
    swap_adjusted_input, swap_output, swap_quote_result, withdraw_quote_result,
};
use crate::state::AmmConfig;

verus! {

// ---------------------------------------------------------------------------
// Swaps
// ---------------------------------------------------------------------------

/// The output never exceeds what keeps the reserves' product: with the input
/// `dx` after a fee of `fee_bps` added to `x`, the output `floor(...)` taken
/// from `y` leaves `(x + dx) * (y - out) >= x * y`.
proof fn lemma_swap_output_keeps_product(dx: int, x: int, y: int, fee_bps: int)
    requires
        0 <= dx,
        0 < x,
        0 <= y,
        0 <= fee_bps < 10_000,
    ensures
        swap_output(dx, x, y, fee_bps) * (x + dx) <= dx * y,
{
    let g = 10_000 - fee_bps;
    let t = swap_adjusted_input(dx, fee_bps);
    let d = x * 10_000 + t;
    let out = swap_output(dx, x, y, fee_bps);
    assert(0 <= t && t == dx * g) by (nonlinear_arith)
        requires
            t == dx * (10_000 - fee_bps),
            g == 10_000 - fee_bps,
            0 <= dx,
            g > 0,
    ;
    assert(0 <= t * y) by (nonlinear_arith)
        requires
            0 <= t,
            0 <= y,
    ;
    assert(d > 0);
    lemma_floor_div_bounds(t * y, d);
    assert(out * d <= t * y);
    assert(out * (x + dx) * g <= out * d) by (nonlinear_arith)
        requires
            out >= 0,
            0 < g <= 10_000,
            0 < x,
            d == x * 10_000 + t,
            t == dx * g,
    ;
    assert(out * (x + dx) * g <= dx * y * g) by (nonlinear_arith)
        requires
            out * (x + dx) * g <= out * d,
            out * d <= t * y,
            t == dx * g,
    ;
    assert(out * (x + dx) <= dx * y) by (nonlinear_arith)
        requires
            out * (x + dx) * g <= dx * y * g,
            g > 0,
    ;
}

/// A swap never lowers the product of the reserves: with the input added to
/// one reserve and the output taken from the other, the product is at least
/// what it was. The fee stays in the pool.
pub proof fn lemma_swap_keeps_constant_product(
    amount_in: u64,
    min_out: u64,
    reserve_in: u64,
    reserve_out: u64,
    fee_bps: u16,
)
    requires
        swap_quote_result(amount_in, min_out, reserve_in, reserve_out, fee_bps) is Ok,
    ensures
        ({
            let q = swap_quote_result(amount_in, min_out, reserve_in, reserve_out, fee_bps)->Ok_0;
            &&& q.amount_in == amount_in
            &&& 0 < q.amount_out < reserve_out
            &&& min_out <= q.amount_out
            &&& (reserve_in + amount_in) * (reserve_out - q.amount_out) >= reserve_in
                * reserve_out
        }),
{
    let out = swap_output(amount_in as int, reserve_in as int, reserve_out as int, fee_bps as int);
    lemma_swap_output_keeps_product(
        amount_in as int,
        reserve_in as int,
        reserve_out as int,
        fee_bps as int,
    );
    assert((reserve_in + amount_in) * (reserve_out - out) >= reserve_in * reserve_out)
        by (nonlinear_arith)
        requires
            out * (reserve_in + amount_in) <= amount_in * reserve_out,
    ;
}

/// The output of a swap is at most what the same swap pays at a lower fee.
pub proof fn lemma_swap_output_fee_monotonic(
    amount_in: int,
    reserve_in: int,
    reserve_out: int,
    low_fee: int,
    high_fee: int,
)
    requires
        0 <= amount_in,
        0 < reserve_in,
        0 <= reserve_out,
        0 <= low_fee <= high_fee < 10_000,
    ensures
        swap_output(amount_in, reserve_in, reserve_out, high_fee) <= swap_output(
            amount_in,
            reserve_in,
            reserve_out,
            low_fee,
        ),
{
    let t_low = swap_adjusted_input(amount_in, low_fee);
    let t_high = swap_adjusted_input(amount_in, high_fee);
    let c = reserve_in * 10_000;
    assert(0 <= t_high <= t_low) by (nonlinear_arith)
        requires
            t_low == amount_in * (10_000 - low_fee),
            t_high == amount_in * (10_000 - high_fee),
            0 <= amount_in,
            low_fee <= high_fee < 10_000,
    ;
    assert(t_high * reserve_out * (c + t_low) <= t_low * reserve_out * (c + t_high))
        by (nonlinear_arith)
        requires
            0 <= t_high <= t_low,
            0 < c,
            0 <= reserve_out,
    ;
    assert(0 <= t_high * reserve_out && 0 <= t_low * reserve_out) by (nonlinear_arith)
        requires
            0 <= t_high <= t_low,
            0 <= reserve_out,
    ;
    lemma_floor_div_cross(t_high * reserve_out, c + t_high, t_low * reserve_out, c + t_low);
}

/// Raising the fee never raises what a swap pays: where the same swap is
/// accepted at two fees, the higher fee pays at most what the lower pays.
pub proof fn lemma_higher_fee_pays_no_more(
    amount_in: u64,
    min_out_low: u64,
    min_out_high: u64,
    reserve_in: u64,
    reserve_out: u64,
    low_fee: u16,
    high_fee: u16,
)
    requires
        low_fee <= high_fee,
        swap_quote_result(amount_in, min_out_low, reserve_in, reserve_out, low_fee) is Ok,
        swap_quote_result(amount_in, min_out_high, reserve_in, reserve_out, high_fee) is Ok,
    ensures
        swap_quote_result(amount_in, min_out_high, reserve_in, reserve_out, high_fee)->Ok_0.amount_out
            <= swap_quote_result(
            amount_in,
            min_out_low,
            reserve_in,
            reserve_out,
            low_fee,
        )->Ok_0.amount_out,
{
    lemma_swap_output_fee_monotonic(
        amount_in as int,
        reserve_in as int,
        reserve_out as int,
        low_fee as int,
        high_fee as int,
    );
}

/// Swapping back what a swap paid never returns more than was put in: a
/// swap of `amount_in` for `out`, followed at the same fee by a swap of
/// `out` the other way against the reserves the first one left, pays at
/// most `amount_in`.
pub proof fn lemma_swap_round_trip_no_profit(
    amount_in: u64,
    min_out: u64,
    reserve_in: u64,
    reserve_out: u64,
    fee_bps: u16,
    min_back: u64,
)
    requires
        swap_quote_result(amount_in, min_out, reserve_in, reserve_out, fee_bps) is Ok,
        ({
            let q = swap_quote_result(amount_in, min_out, reserve_in, reserve_out, fee_bps)->Ok_0;
            swap_quote_result(
                q.amount_out,
                min_back,
                (reserve_out - q.amount_out) as u64,
                (reserve_in + amount_in) as u64,
                fee_bps,
            ) is Ok
        }),
    ensures
        ({
            let q = swap_quote_result(amount_in, min_out, reserve_in, reserve_out, fee_bps)->Ok_0;
            swap_quote_result(
                q.amount_out,
                min_back,
                (reserve_out - q.amount_out) as u64,
                (reserve_in + amount_in) as u64,
                fee_bps,
            )->Ok_0.amount_out <= amount_in
        }),
{
    let x = reserve_in as int;
    let y = reserve_out as int;
    let dx = amount_in as int;
    let f = fee_bps as int;
    let dy = swap_output(dx, x, y, f);
    lemma_swap_output_keeps_product(dx, x, y, f);
    // dy * (x + dx) <= dx * y gives dy * x <= dx * (y - dy).
    let g = 10_000 - f;
    let t = swap_adjusted_input(dy, f);
    let d = (y - dy) * 10_000 + t;
    assert(0 <= t && t == dy * g) by (nonlinear_arith)
        requires
            t == dy * (10_000 - f),
            g == 10_000 - f,
            0 <= dy,
            0 < g,
    ;
    assert(t * (x + dx) <= dx * d) by (nonlinear_arith)
        requires
            dy * (x + dx) <= dx * y,
            t == dy * g,
            0 < g <= 10_000,
            d == (y - dy) * 10_000 + t,
            0 <= dy,
            0 <= x,
            0 <= dx,
    ;
    assert(0 <= t * (x + dx)) by (nonlinear_arith)
        requires
            0 <= t,
            0 <= x + dx,
    ;
    assert(t * (x + dx) < (dx + 1) * d) by (nonlinear_arith)
        requires
            t * (x + dx) <= dx * d,
            d > 0,
    ;
    lemma_floor_div_lt(dx + 1, t * (x + dx), d);
}

// ---------------------------------------------------------------------------
// Deposits
// ---------------------------------------------------------------------------

/// `q * d <= n` for `q = n / d`, written over the product form the shares use.
proof fn lemma_share_times_reserve(amount: int, reserve: int, supply: int)
    requires
        0 <= amount,
        0 < reserve,
        0 <= supply,
    ensures
        lp_share(amount, reserve, supply) * reserve <= amount * supply,
        0 <= lp_share(amount, reserve, supply),
{
    assert(0 <= amount * supply) by (nonlinear_arith)
        requires
            0 <= amount,
            0 <= supply,
    ;
    lemma_floor_div_bounds(amount * supply, reserve);
}

/// The amounts a deposit would take are within the maximums, whichever
/// side limits it.
pub proof fn lemma_deposit_amounts_bounded(max_a: u64, max_b: u64, x: u64, y: u64)
    requires
        x > 0,
        y > 0,
    ensures
        0 <= deposit_amounts(max_a as int, max_b as int, x as int, y as int).0 <= max_a,
        0 <= deposit_amounts(max_a as int, max_b as int, x as int, y as int).1 <= max_b,
{
    assert(0 <= max_a * y && 0 <= max_b * x) by (nonlinear_arith)
        requires
            0 <= max_a,
            0 <= max_b,
            0 < x,
            0 < y,
    ;
    vstd::arithmetic::div_mod::lemma_div_pos_is_pos(max_a * y, x as int);
    vstd::arithmetic::div_mod::lemma_div_pos_is_pos(max_b * x, y as int);
    if b_for_a(max_a as int, x as int, y as int) > max_b {
        lemma_floor_div_bounds(max_a * y, x as int);
        let q = b_for_a(max_a as int, x as int, y as int);
        assert(max_b * x < max_a * y) by (nonlinear_arith)
            requires
                q >= max_b + 1,
                q * x <= max_a * y,
                x > 0,
        ;
        lemma_floor_div_lt(max_a as int, max_b * x, y as int);
    }
}

/// A deposit never takes more than the user's maximum of either token.
pub proof fn lemma_deposit_within_maximums(max_a: u64, max_b: u64, x: u64, y: u64, l: u64)
    requires
        deposit_quote_result(max_a, max_b, x, y, l) is Ok,
    ensures
        deposit_quote_result(max_a, max_b, x, y, l)->Ok_0.amount_a <= max_a,
        deposit_quote_result(max_a, max_b, x, y, l)->Ok_0.amount_b <= max_b,
{
    if b_for_a(max_a as int, x as int, y as int) > max_b {
        lemma_floor_div_bounds(max_a * y, x as int);
        let q = b_for_a(max_a as int, x as int, y as int);
        assert(max_b * x < max_a * y) by (nonlinear_arith)
            requires
                q >= max_b + 1,
                q * x <= max_a * y,
                x > 0,
        ;
        lemma_floor_div_lt(max_a as int, max_b * x, y as int);
    }
}

/// A deposit takes the pool's ratio, rounded down on the side that is not
/// taken whole: either all of `max_a` with `floor(max_a * y / x)` of B, or
/// all of `max_b` with `floor(max_b * x / y)` of A.
pub proof fn lemma_deposit_in_pool_ratio(max_a: u64, max_b: u64, x: u64, y: u64, l: u64)
    requires
        deposit_quote_result(max_a, max_b, x, y, l) is Ok,
    ensures
        ({
            let q = deposit_quote_result(max_a, max_b, x, y, l)->Ok_0;
            ||| (q.amount_a == max_a && q.amount_b * x <= q.amount_a * y < (q.amount_b + 1) * x)
            ||| (q.amount_b == max_b && q.amount_a * y <= q.amount_b * x < (q.amount_a + 1) * y)
        }),
{
    let q = deposit_quote_result(max_a, max_b, x, y, l)->Ok_0;
    if b_for_a(max_a as int, x as int, y as int) <= max_b {
        lemma_floor_div_bounds(max_a * y, x as int);
    } else {
        lemma_floor_div_bounds(max_b * x, y as int);
    }
}

/// A deposit never dilutes the LP tokens already out: the reserves behind
/// each LP token do not fall, on either side,
/// `(x + a) * l >= x * (l + lp)` and `(y + b) * l >= y * (l + lp)`.
pub proof fn lemma_deposit_does_not_dilute(max_a: u64, max_b: u64, x: u64, y: u64, l: u64)
    requires
        deposit_quote_result(max_a, max_b, x, y, l) is Ok,
    ensures
        ({
            let q = deposit_quote_result(max_a, max_b, x, y, l)->Ok_0;
            &&& q.lp_out * x <= q.amount_a * l
            &&& q.lp_out * y <= q.amount_b * l
            &&& (x + q.amount_a) * l >= x * (l + q.lp_out)
            &&& (y + q.amount_b) * l >= y * (l + q.lp_out)
        }),
{
    let (a, b) = deposit_amounts(max_a as int, max_b as int, x as int, y as int);
    lemma_deposit_within_maximums(max_a, max_b, x, y, l);
    lemma_share_times_reserve(a, x as int, l as int);
    lemma_share_times_reserve(b, y as int, l as int);
    let lp = deposit_lp(a, b, x as int, y as int, l as int);
    let sa = lp_share(a, x as int, l as int);
    let sb = lp_share(b, y as int, l as int);
    assert(lp * x <= a * l) by (nonlinear_arith)
        requires
            lp <= sa,
            sa * x <= a * l,
            x > 0,
    ;
    assert(lp * y <= b * l) by (nonlinear_arith)
        requires
            lp <= sb,
            sb * y <= b * l,
            y > 0,
    ;
    assert((x + a) * l >= x * (l + lp)) by (nonlinear_arith)
        requires
            lp * x <= a * l,
    ;
    assert((y + b) * l >= y * (l + lp)) by (nonlinear_arith)
        requires
            lp * y <= b * l,
    ;
}

// ---------------------------------------------------------------------------
// Withdrawals
// ---------------------------------------------------------------------------

/// A withdrawal never pays more than the vaults hold, and never dilutes the
/// LP tokens left: `a * l <= x * lp` and `b * l <= y * lp`, so the reserves
/// behind each remaining LP token do not fall.
pub proof fn lemma_withdraw_within_reserves(
    lp_to_burn: u64,
    min_a: u64,
    min_b: u64,
    x: u64,
    y: u64,
    l: u64,
)
    requires
        withdraw_quote_result(lp_to_burn, min_a, min_b, x, y, l) is Ok,
    ensures
        ({
            let w = withdraw_quote_result(lp_to_burn, min_a, min_b, x, y, l)->Ok_0;
            &&& min_a <= w.amount_a <= x
            &&& min_b <= w.amount_b <= y
            &&& w.amount_a * l <= x * lp_to_burn
            &&& w.amount_b * l <= y * lp_to_burn
        }),
{
    lemma_share_times_reserve(lp_to_burn as int, l as int, x as int);
    lemma_share_times_reserve(lp_to_burn as int, l as int, y as int);
    let sa = lp_share(lp_to_burn as int, l as int, x as int);
    let sb = lp_share(lp_to_burn as int, l as int, y as int);
    assert(lp_to_burn * x == x * lp_to_burn) by (nonlinear_arith);
    assert(lp_to_burn * y == y * lp_to_burn) by (nonlinear_arith);
    assert(sa <= x) by (nonlinear_arith)
        requires
            sa * l <= lp_to_burn * x,
            lp_to_burn <= l,
            0 < l,
            0 <= x,
    ;
    assert(sb <= y) by (nonlinear_arith)
        requires
            sb * l <= lp_to_burn * y,
            lp_to_burn <= l,
            0 < l,
            0 <= y,
    ;
}

/// Burning the whole LP supply pays out exactly the two vaults.
pub proof fn lemma_full_withdrawal_returns_reserves(min_a: u64, min_b: u64, x: u64, y: u64, l: u64)
    requires
        0 < l,
        0 < min_a <= x,
        0 < min_b <= y,
    ensures
        withdraw_quote_result(l, min_a, min_b, x, y, l) == Ok::<
            crate::quote::WithdrawQuote,
            ErrorCode,
        >(crate::quote::WithdrawQuote { amount_a: x, amount_b: y }),
{
    assert(l * x == x * l) by (nonlinear_arith);
    assert(l * y == y * l) by (nonlinear_arith);
    vstd::arithmetic::div_mod::lemma_div_multiples_vanish(x as int, l as int);
    vstd::arithmetic::div_mod::lemma_div_multiples_vanish(y as int, l as int);
}

/// Depositing and then withdrawing the LP tokens just minted never returns
/// more of either token than the deposit took.
pub proof fn lemma_deposit_then_withdraw_no_profit(
    max_a: u64,
    max_b: u64,
    x: u64,
    y: u64,
    l: u64,
    min_a: u64,
    min_b: u64,
)
    requires
        deposit_quote_result(max_a, max_b, x, y, l) is Ok,
        ({
            let q = deposit_quote_result(max_a, max_b, x, y, l)->Ok_0;
            withdraw_quote_result(
                q.lp_out,
                min_a,
                min_b,
                (x + q.amount_a) as u64,
                (y + q.amount_b) as u64,
                (l + q.lp_out) as u64,
            ) is Ok
        }),
    ensures
        ({
            let q = deposit_quote_result(max_a, max_b, x, y, l)->Ok_0;
            let w = withdraw_quote_result(
                q.lp_out,
                min_a,
                min_b,
                (x + q.amount_a) as u64,
                (y + q.amount_b) as u64,
                (l + q.lp_out) as u64,
            )->Ok_0;
            w.amount_a <= q.amount_a && w.amount_b <= q.amount_b
        }),
{
    let q = deposit_quote_result(max_a, max_b, x, y, l)->Ok_0;
    lemma_deposit_does_not_dilute(max_a, max_b, x, y, l);
    let a = q.amount_a as int;
    let b = q.amount_b as int;
    let lp = q.lp_out as int;
    let l2 = l + lp;
    // lp * (x + a) <= a * (l + lp), so the share of x + a is at most a.
    assert(lp * (x + a) < (a + 1) * l2) by (nonlinear_arith)
        requires
            lp * x <= a * l,
            l2 == l + lp,
            l2 > 0,
    ;
    assert(lp * (y + b) < (b + 1) * l2) by (nonlinear_arith)
        requires
            lp * y <= b * l,
            l2 == l + lp,
            l2 > 0,
    ;
    assert(0 <= lp * (x + a) && 0 <= lp * (y + b)) by (nonlinear_arith)
        requires
            0 <= lp,
            0 <= a,
            0 <= b,
            0 <= x,
            0 <= y,
    ;
    lemma_floor_div_lt(a + 1, lp * (x + a), l2);
    lemma_floor_div_lt(b + 1, lp * (y + b), l2);
}

// ---------------------------------------------------------------------------
// Pools, pausing and administration
// ---------------------------------------------------------------------------

/// A pair of mints and the same pair reversed are never both accepted: at
/// most one order creates a pool.
pub proof fn lemma_reversed_mints_rejected(ctx: InitializePool)
    requires
        initialize_pool_result(ctx) is Ok,
    ensures
        initialize_pool_result(InitializePool { mint_a: ctx.mint_b, mint_b: ctx.mint_a, ..ctx })
            == Err::<(), ErrorCode>(ErrorCode::InvalidMintPair),
{
    lemma_key_lt_asymmetric(ctx.mint_a@, ctx.mint_b@);
}

/// While an AMM is paused, no pool can be created under it and no pool of
/// it takes deposits or swaps: each is refused with `InvalidAmmState`
/// (unless its mints were refused first).
pub proof fn lemma_pause_blocks_trading(
    pool: InitializePool,
    deposit: Deposit,
    swap: Swap,
    a_to_b: bool,
    amount_in: u64,
    min_out: u64,
    max_a: u64,
    max_b: u64,
    min_lp_out: u64,
)
    requires
        pool.amm_config.paused != 0,
        key_lt(pool.mint_a@, pool.mint_b@),
        deposit.amm_config.paused != 0,
        key_lt(deposit.mint_a@, deposit.mint_b@),
        swap.amm_config.paused != 0,
        key_lt(swap.mint_a@, swap.mint_b@),
    ensures
        initialize_pool_result(pool) == Err::<(), ErrorCode>(ErrorCode::InvalidAmmState),
        deposit_result(deposit, max_a, max_b, min_lp_out) == Err::<
            crate::quote::DepositQuote,
            ErrorCode,
        >(ErrorCode::InvalidAmmState),
        swap_result(swap, a_to_b, amount_in, min_out) == Err::<crate::quote::SwapQuote, ErrorCode>(
            ErrorCode::InvalidAmmState,
        ),
{
    crate::key::lemma_key_lt_irreflexive(pool.mint_a@);
}

/// Withdrawals stay available while an AMM is paused: the outcome of a
/// withdrawal does not depend on the AMM's configuration at all.
pub proof fn lemma_withdraw_ignores_pause(
    ctx: Withdraw,
    other_config: AmmConfig,
    lp_to_burn: u64,
    min_a: u64,
    min_b: u64,
)
    ensures
        withdraw_result(Withdraw { amm_config: other_config, ..ctx }, lp_to_burn, min_a, min_b)
            == withdraw_result(ctx, lp_to_burn, min_a, min_b),
{
}

/// After administration is handed from `old_admin` to `new_admin`, the new
/// admin is the one the privileged instructions accept, and the old one no
/// longer is (unless the two are the same account).
pub proof fn lemma_transfer_moves_control(config: AmmConfig, new_admin: Pubkey, old_admin: Pubkey)
    requires
        config.admin@ == old_admin@,
    ensures
        config.with_admin(new_admin).admin@ == new_admin@,
        old_admin@ != new_admin@ ==> config.with_admin(new_admin).admin@ != old_admin@,
{
}

} // verus!
