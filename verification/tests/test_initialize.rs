use anchor_amm::{AmmConfig, ErrorCode, InitializeAmm, InitializeAmmBumps, Pubkey};

fn key(b: u8) -> Pubkey {
    Pubkey::new_from_array([b; 32])
}

fn empty_config() -> AmmConfig {
    AmmConfig { maker: key(0), admin: key(0), id: 0, fee: 0, paused: 0, bump: 0 }
}

fn context() -> InitializeAmm {
    InitializeAmm { maker: key(7), admin: key(9), amm_config: empty_config() }
}

#[test]
fn initialize_amm_creates_config() {
    let mut ctx = context();
    let id = 65_537;
    let fee = 30;
    let paused = 1;
    let bumps = InitializeAmmBumps { amm_config: 254 };
    ctx.handler(id, fee, paused, &bumps).expect("AMM initialization should succeed");
    let config = ctx.amm_config;
    assert_eq!(config.maker.to_bytes(), key(7).to_bytes());
    assert_eq!(config.admin.to_bytes(), key(9).to_bytes());
    assert_eq!(config.id, id);
    assert_eq!(config.fee, fee);
    assert_eq!(config.paused, paused);
    assert_eq!(config.bump, 254);
}

#[test]
fn rejects_invalid_fee() {
    let mut ctx = context();
    let bumps = InitializeAmmBumps { amm_config: 254 };
    let failure = ctx.handler(65_537, 10_001, 0, &bumps).expect_err("fee above 10,000 must fail");
    assert_eq!(failure, ErrorCode::InvalidFee);
    assert_eq!(ctx.amm_config.id, 0);
    assert_eq!(ctx.amm_config.bump, 0);
}

#[test]
fn rejects_invalid_paused() {
    let mut ctx = context();
    let bumps = InitializeAmmBumps { amm_config: 254 };
    let failure = ctx.handler(65_537, 30, 2, &bumps).expect_err("paused other than 0 or 1 must fail");
    assert_eq!(failure, ErrorCode::InvalidPaused);
    assert_eq!(ctx.amm_config.id, 0);
    assert_eq!(ctx.amm_config.fee, 0);
}

#[test]
fn fee_is_checked_before_the_pause_flag() {
    let mut ctx = context();
    let bumps = InitializeAmmBumps { amm_config: 1 };
    assert_eq!(ctx.handler(1, 10_000, 7, &bumps), Err(ErrorCode::InvalidFee));
    assert_eq!(ctx.handler(1, 9_999, 7, &bumps), Err(ErrorCode::InvalidPaused));
    assert_eq!(ctx.handler(1, 9_999, 0, &bumps), Ok(()));
    assert_eq!(ctx.amm_config.fee, 9_999);
}
