use anchor_amm::{AmmConfig, Deposit, ErrorCode, Pubkey, Withdraw, WithdrawQuote};

fn key(b: u8) -> Pubkey {
    Pubkey::new_from_array([b; 32])
}

#[derive(Clone, Copy, PartialEq, Debug)]
struct Fixture {
    paused: u8,
    vault_a: u64,
    vault_b: u64,
    supply: u64,
    user_a: u64,
    user_b: u64,
    user_lp: u64,
}

fn config(paused: u8) -> AmmConfig {
    AmmConfig { maker: key(7), admin: key(9), id: 65_537, fee: 30, paused, bump: 250 }
}

/// A pool after a first deposit of 1,000 A and 4,000 B by a user who held
/// 10,000 of each.
fn setup_withdraw() -> Fixture {
    let ctx = Deposit {
        mint_a: key(1),
        mint_b: key(2),
        amm_config: config(0),
        lp_supply: 0,
        vault_a_amount: 0,
        vault_b_amount: 0,
    };
    let q = ctx.handler(1_000, 4_000, 2_000).unwrap();
    Fixture {
        paused: 0,
        vault_a: q.amount_a,
        vault_b: q.amount_b,
        supply: q.lp_out,
        user_a: 10_000 - q.amount_a,
        user_b: 10_000 - q.amount_b,
        user_lp: q.lp_out,
    }
}

impl Fixture {
    fn withdraw(&mut self, lp: u64, min_a: u64, min_b: u64) -> Result<WithdrawQuote, ErrorCode> {
        let ctx = Withdraw {
            mint_a: key(1),
            mint_b: key(2),
            amm_config: config(self.paused),
            lp_supply: self.supply,
            vault_a_amount: self.vault_a,
            vault_b_amount: self.vault_b,
        };
        let q = ctx.handler(lp, min_a, min_b)?;
        self.user_lp -= lp;
        self.supply -= lp;
        self.vault_a -= q.amount_a;
        self.user_a += q.amount_a;
        self.vault_b -= q.amount_b;
        self.user_b += q.amount_b;
        Ok(q)
    }
}

#[test]
fn partial_withdrawal_accepts_exact_minimums() {
    let mut f = setup_withdraw();
    f.withdraw(500, 250, 1_000).unwrap();
    assert_eq!(f.user_lp, 1_500);
    assert_eq!(f.supply, 1_500);
    assert_eq!(f.user_a, 9_250);
    assert_eq!(f.user_b, 7_000);
    assert_eq!(f.vault_a, 750);
    assert_eq!(f.vault_b, 3_000);
}

#[test]
fn full_withdrawal_returns_reserves_and_burns_all_lp() {
    let mut f = setup_withdraw();
    f.withdraw(2_000, 1_000, 4_000).unwrap();
    assert_eq!(f.user_lp, 0);
    assert_eq!(f.supply, 0);
    assert_eq!(f.user_a, 10_000);
    assert_eq!(f.user_b, 10_000);
    assert_eq!(f.vault_a, 0);
    assert_eq!(f.vault_b, 0);
}

#[test]
fn rejects_either_output_below_its_minimum() {
    for (min_a, min_b) in [(251, 1_000), (250, 1_001)] {
        let mut f = setup_withdraw();
        let before = f;
        assert_eq!(f.withdraw(500, min_a, min_b).unwrap_err(), ErrorCode::SlippageExceeded);
        assert_eq!(before, f);
    }
}

#[test]
fn rejects_zero_and_excessive_burn_amounts() {
    for lp in [0, 2_001] {
        let mut f = setup_withdraw();
        let before = f;
        assert_eq!(f.withdraw(lp, 0, 0).unwrap_err(), ErrorCode::InvalidWithdrawAmount);
        assert_eq!(before, f);
    }
}

#[test]
fn allows_withdrawal_while_amm_is_paused() {
    let mut f = setup_withdraw();
    f.paused = 1;
    f.withdraw(500, 250, 1_000).unwrap();
    assert_eq!(f.supply, 1_500);
    assert_eq!(f.user_a, 9_250);
    assert_eq!(f.user_b, 7_000);
}

#[test]
fn quote_withdraw_errors() {
    assert_eq!(WithdrawQuote::quote_withdraw(1, 0, 0, 10, 10, 0), Err(ErrorCode::InvalidLiquidityState));
    // 1 of 1000 LP tokens against 10 A rounds down to nothing.
    assert_eq!(
        WithdrawQuote::quote_withdraw(1, 0, 0, 10, 10_000, 1_000),
        Err(ErrorCode::InsufficientWithdrawOutput)
    );
    assert_eq!(
        WithdrawQuote::quote_withdraw(3, 0, 0, 10, 10, 7),
        Ok(WithdrawQuote { amount_a: 4, amount_b: 4 })
    );
    assert_eq!(
        WithdrawQuote::quote_withdraw(u64::MAX, 0, 0, u64::MAX, 1, u64::MAX),
        Ok(WithdrawQuote { amount_a: u64::MAX, amount_b: 1 })
    );
}

#[test]
fn withdraw_refuses_unordered_mints() {
    let ctx = Withdraw {
        mint_a: key(2),
        mint_b: key(1),
        amm_config: config(0),
        lp_supply: 10,
        vault_a_amount: 10,
        vault_b_amount: 10,
    };
    assert_eq!(ctx.handler(1, 0, 0), Err(ErrorCode::InvalidMintPair));
}

#[test]
fn withdrawal_never_dilutes_remaining_lp() {
    // 7 A and 11 B behind 3 LP tokens; burning 2 pays floor(14/3) = 4 A
    // and floor(22/3) = 7 B.
    let w = WithdrawQuote::quote_withdraw(2, 0, 0, 7, 11, 3).unwrap();
    assert_eq!(w, WithdrawQuote { amount_a: 4, amount_b: 7 });
    assert!(w.amount_a as u128 * 3 <= 7 * 2);
    assert!(w.amount_b as u128 * 3 <= 11 * 2);
    // What is left backs the last LP token with at least its share.
    assert!((7 - w.amount_a) * 3 >= 7 * (3 - 2));
    assert!((11 - w.amount_b) * 3 >= 11 * (3 - 2));
}
