use anchor_amm::{AmmConfig, Deposit, ErrorCode, Pubkey, Swap, SwapQuote};

fn key(b: u8) -> Pubkey {
    Pubkey::new_from_array([b; 32])
}

#[derive(Clone, Copy, PartialEq, Debug)]
struct Fixture {
    fee: u16,
    paused: u8,
    vault_a: u64,
    vault_b: u64,
    supply: u64,
    user_a: u64,
    user_b: u64,
    user_lp: u64,
}

fn config(fee: u16, paused: u8) -> AmmConfig {
    AmmConfig { maker: key(7), admin: key(9), id: 65_537, fee, paused, bump: 250 }
}

/// A pool with 1,000 A and 4,000 B from a user who held 10,000 of each.
fn setup_swap() -> Fixture {
    let ctx = Deposit {
        mint_a: key(1),
        mint_b: key(2),
        amm_config: config(30, 0),
        lp_supply: 0,
        vault_a_amount: 0,
        vault_b_amount: 0,
    };
    let q = ctx.handler(1_000, 4_000, 2_000).unwrap();
    Fixture {
        fee: 30,
        paused: 0,
        vault_a: q.amount_a,
        vault_b: q.amount_b,
        supply: q.lp_out,
        user_a: 10_000 - q.amount_a,
        user_b: 10_000 - q.amount_b,
        user_lp: q.lp_out,
    }
}

fn swap(f: &mut Fixture, a_to_b: bool, amount_in: u64, min_out: u64) -> Result<SwapQuote, ErrorCode> {
    let ctx = Swap {
        mint_a: key(1),
        mint_b: key(2),
        amm_config: config(f.fee, f.paused),
        vault_a_amount: f.vault_a,
        vault_b_amount: f.vault_b,
    };
    let q = ctx.handler(a_to_b, amount_in, min_out)?;
    if a_to_b {
        f.user_a -= q.amount_in;
        f.vault_a += q.amount_in;
        f.vault_b -= q.amount_out;
        f.user_b += q.amount_out;
    } else {
        f.user_b -= q.amount_in;
        f.vault_b += q.amount_in;
        f.vault_a -= q.amount_out;
        f.user_a += q.amount_out;
    }
    Ok(q)
}

#[test]
fn swaps_a_to_b_at_exact_minimum_and_retains_fee() {
    let mut f = setup_swap();
    // At 30 bps: floor(100 * 9970 * 4000 / (1000 * 10000 + 100 * 9970)) = 362.
    swap(&mut f, true, 100, 362).unwrap();
    assert_eq!(f.user_a, 8_900);
    assert_eq!(f.user_b, 6_362);
    assert_eq!(f.vault_a, 1_100);
    assert_eq!(f.vault_b, 3_638);
    assert_eq!(f.user_lp, 2_000);
    assert_eq!(f.supply, 2_000);
    assert!(1_100_u128 * 3_638 > 1_000_u128 * 4_000);
}

#[test]
fn swaps_b_to_a_at_exact_minimum() {
    let mut f = setup_swap();
    // A 400 B input at 30 bps returns floor(90.661...) = 90 A.
    swap(&mut f, false, 400, 90).unwrap();
    assert_eq!(f.user_a, 9_090);
    assert_eq!(f.user_b, 5_600);
    assert_eq!(f.vault_a, 910);
    assert_eq!(f.vault_b, 4_400);
    assert_eq!(f.user_lp, 2_000);
    assert_eq!(f.supply, 2_000);
}

#[test]
fn rejects_slippage_in_both_directions() {
    for (direction, amount, min) in [(true, 100, 363), (false, 400, 91)] {
        let mut f = setup_swap();
        let before = f;
        assert_eq!(swap(&mut f, direction, amount, min).unwrap_err(), ErrorCode::SlippageExceeded);
        assert_eq!(before, f);
    }
}

#[test]
fn test_swap_rejects_paused_amm() {
    let mut f = setup_swap();
    f.paused = 1;
    let before = f;
    assert_eq!(swap(&mut f, true, 100, 0).unwrap_err(), ErrorCode::InvalidAmmState);
    assert_eq!(before, f);
}

#[test]
fn rejects_zero_input() {
    let mut f = setup_swap();
    let before = f;
    assert_eq!(swap(&mut f, true, 0, 0).unwrap_err(), ErrorCode::InvalidSwapAmount);
    assert_eq!(before, f);
}

#[test]
fn fee_updates_apply_to_existing_pool_in_both_directions() {
    // Independent expected outputs for reserves 1000 A / 4000 B.
    for (fee, direction, amount, out) in [
        (0, true, 100, 363),
        (100, true, 100, 360),
        (0, false, 400, 90),
        (100, false, 400, 90),
    ] {
        let mut f = setup_swap();
        let before = f;
        f.fee = fee;
        assert_eq!((before.vault_a, before.vault_b, before.supply), (f.vault_a, f.vault_b, f.supply));
        swap(&mut f, direction, amount, out).unwrap();
        if direction {
            assert_eq!(f.user_b, 6_000 + out);
            assert_eq!(f.vault_a, 1_100);
        } else {
            assert_eq!(f.user_a, 9_000 + out);
            assert_eq!(f.vault_b, 4_400);
        }
        assert_eq!(f.supply, 2_000);
    }
}

#[test]
fn quote_swap_errors() {
    assert_eq!(SwapQuote::quote_swap_exact_in(1, 0, 0, 10, 30), Err(ErrorCode::InvalidSwapAmount));
    assert_eq!(SwapQuote::quote_swap_exact_in(1, 0, 10, 0, 30), Err(ErrorCode::InvalidSwapAmount));
    assert_eq!(SwapQuote::quote_swap_exact_in(1, 0, 10, 10, 10_000), Err(ErrorCode::InvalidFee));
    // (2^64 - 1) * 10000 * (2^64 - 1) does not fit in 128 bits.
    assert_eq!(
        SwapQuote::quote_swap_exact_in(u64::MAX, 0, 1, u64::MAX, 0),
        Err(ErrorCode::ArithmeticOverflow)
    );
    // The input vault would leave 64 bits.
    assert_eq!(
        SwapQuote::quote_swap_exact_in(10, 0, u64::MAX - 5, 1_000, 0),
        Err(ErrorCode::ArithmeticOverflow)
    );
    // 1 in against reserves 1000 : 10 rounds to nothing.
    assert_eq!(SwapQuote::quote_swap_exact_in(1, 0, 1_000, 10, 0), Err(ErrorCode::InsufficientSwapOutput));
    assert_eq!(
        SwapQuote::quote_swap_exact_in(100, 0, 1_000, 4_000, 30),
        Ok(SwapQuote { amount_in: 100, amount_out: 362 })
    );
}

#[test]
fn swapping_back_returns_no_more_than_was_put_in() {
    let mut f = setup_swap();
    let q = swap(&mut f, true, 100, 0).unwrap();
    let back = swap(&mut f, false, q.amount_out, 0).unwrap();
    assert!(back.amount_out <= 100);
    assert_eq!(back.amount_out, 99);
    assert!((f.vault_a as u128) * (f.vault_b as u128) >= 1_000 * 4_000);
}

#[test]
fn higher_fee_pays_no_more() {
    let mut last = u64::MAX;
    for fee in [0u16, 1, 30, 100, 1_000, 5_000] {
        let out = SwapQuote::quote_swap_exact_in(1_000, 0, 10_000, 10_000, fee).unwrap().amount_out;
        assert!(out <= last);
        last = out;
    }
}
