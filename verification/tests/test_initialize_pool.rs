use anchor_amm::{
    AmmConfig, ErrorCode, InitializePool, InitializePoolBumps, PoolConfig, Pubkey,
};

fn key(b: u8) -> Pubkey {
    Pubkey::new_from_array([b; 32])
}

fn config(paused: u8) -> AmmConfig {
    AmmConfig { maker: key(7), admin: key(9), id: 65_537, fee: 30, paused, bump: 250 }
}

fn empty_pool() -> PoolConfig {
    PoolConfig { amm_config: key(0), mint_a: key(0), mint_b: key(0), bump: 0, lp_bump: 0 }
}

const AMM_KEY: u8 = 5;

fn pool_ctx(paused: u8, mint_a: Pubkey, mint_b: Pubkey) -> InitializePool {
    InitializePool {
        amm_config_key: key(AMM_KEY),
        amm_config: config(paused),
        mint_a,
        mint_b,
        pool_config: empty_pool(),
    }
}

fn unchanged(p: &PoolConfig) -> bool {
    p.amm_config.to_bytes() == [0; 32] && p.mint_a.to_bytes() == [0; 32] && p.bump == 0
}

#[test]
fn creates_pool_vaults_and_lp_mint() {
    let mut ctx = pool_ctx(0, key(1), key(2));
    let bumps = InitializePoolBumps { pool_config: 253, lp_mint: 251 };
    ctx.handler(&bumps).expect("pool initialization should succeed");
    let config = ctx.pool_config;
    assert_eq!(config.amm_config.to_bytes(), key(AMM_KEY).to_bytes());
    assert_eq!(config.mint_a.to_bytes(), key(1).to_bytes());
    assert_eq!(config.mint_b.to_bytes(), key(2).to_bytes());
    assert_eq!(config.bump, 253);
    assert_eq!(config.lp_bump, 251);
}

#[test]
fn rejects_reversed_mints() {
    let mut ctx = pool_ctx(0, key(2), key(1));
    let bumps = InitializePoolBumps { pool_config: 253, lp_mint: 251 };
    assert_eq!(ctx.handler(&bumps), Err(ErrorCode::InvalidMintPair));
    assert!(unchanged(&ctx.pool_config));
}

#[test]
fn rejects_identical_mints() {
    let mut ctx = pool_ctx(0, key(1), key(1));
    let bumps = InitializePoolBumps { pool_config: 253, lp_mint: 251 };
    assert!(ctx.handler(&bumps).is_err());
    assert!(unchanged(&ctx.pool_config));
}

#[test]
fn test_initialize_pool_rejects_paused_amm() {
    let mut ctx = pool_ctx(1, key(1), key(2));
    let bumps = InitializePoolBumps { pool_config: 253, lp_mint: 251 };
    assert_eq!(ctx.handler(&bumps), Err(ErrorCode::InvalidAmmState));
    assert!(unchanged(&ctx.pool_config));
}

#[test]
fn identical_mints_are_refused_before_the_pause_flag() {
    let mut ctx = pool_ctx(1, key(1), key(1));
    let bumps = InitializePoolBumps { pool_config: 1, lp_mint: 1 };
    assert_eq!(ctx.handler(&bumps), Err(ErrorCode::InvalidMintPair));
    let mut ctx = pool_ctx(1, key(2), key(1));
    assert_eq!(ctx.handler(&bumps), Err(ErrorCode::InvalidAmmState));
}

#[test]
fn mints_are_ordered_by_their_first_differing_byte() {
    let mut low = [9u8; 32];
    let mut high = [9u8; 32];
    low[31] = 1;
    high[0] = 0;
    // `high` starts with a smaller byte, so it sorts first even though
    // its last byte is larger.
    let bumps = InitializePoolBumps { pool_config: 1, lp_mint: 1 };
    let mut ctx = pool_ctx(0, Pubkey::new_from_array(high), Pubkey::new_from_array(low));
    assert_eq!(ctx.handler(&bumps), Ok(()));
    let mut ctx = pool_ctx(0, Pubkey::new_from_array(low), Pubkey::new_from_array(high));
    assert_eq!(ctx.handler(&bumps), Err(ErrorCode::InvalidMintPair));
}

#[test]
fn key_order_is_strict() {
    let a = key(1);
    let b = key(2);
    assert!(a.less_than(&b));
    assert!(!b.less_than(&a));
    assert!(!a.less_than(&a));
    assert!(a.equals(&key(1)));
    assert!(!a.equals(&b));
}
