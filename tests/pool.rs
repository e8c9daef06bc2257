use token_swap::error::SwapError;
use token_swap::pool::{
    add_liquidity, initialize_pool, swap, AddLiquidity, InitializePool, Key, LedgerOp, Pool,
    Swap, SHARE_DECIMALS,
};

fn key(tag: u8) -> Key {
    Key { bytes: [tag; 32] }
}

fn init_ctx() -> InitializePool {
    InitializePool {
        user: key(1),
        pool: key(2),
        token_a_mint: key(3),
        token_b_mint: key(4),
        token_a_account: key(5),
        token_b_account: key(6),
        pool_mint: key(7),
        authority: key(8),
    }
}

fn pool_with_fee(fee_rate: u64) -> Pool {
    let (pool, _) = initialize_pool(&init_ctx(), 254, fee_rate).unwrap();
    pool
}

fn deposit_ctx(reserve_a: u64, reserve_b: u64) -> AddLiquidity {
    AddLiquidity {
        user: key(10),
        pool: pool_with_fee(30),
        pool_address: key(2),
        user_token_a: key(11),
        user_token_b: key(12),
        pool_token_a: key(5),
        pool_token_b: key(6),
        reserve_a,
        reserve_b,
        pool_mint: key(7),
        user_pool_token: key(13),
    }
}

fn swap_ctx(fee_rate: u64, reserve_in: u64, reserve_out: u64) -> Swap {
    Swap {
        user: key(20),
        pool: pool_with_fee(fee_rate),
        pool_address: key(2),
        user_token_in: key(21),
        user_token_out: key(22),
        pool_token_in: key(5),
        pool_token_out: key(6),
        reserve_in,
        reserve_out,
    }
}

#[test]
fn pool_record_size() {
    assert_eq!(Pool::LEN, 209);
}

#[test]
fn initialize_pool_records_accounts_and_fee() {
    let (pool, ops) = initialize_pool(&init_ctx(), 254, 30).unwrap();
    assert_eq!(pool.authority, key(8));
    assert_eq!(pool.token_a_mint, key(3));
    assert_eq!(pool.token_b_mint, key(4));
    assert_eq!(pool.token_a_account, key(5));
    assert_eq!(pool.token_b_account, key(6));
    assert_eq!(pool.pool_mint, key(7));
    assert_eq!(pool.fee_rate, 30);
    assert_eq!(pool.bump, 254);
    assert_eq!(
        ops,
        vec![LedgerOp::InitializeMint {
            mint: key(7),
            decimals: SHARE_DECIMALS,
            mint_authority: key(2),
            freeze_authority: key(2),
        }]
    );
}

#[test]
fn initialize_pool_fee_bounds() {
    assert!(initialize_pool(&init_ctx(), 1, 0).is_ok());
    assert!(initialize_pool(&init_ctx(), 1, 10_000).is_ok());
    assert_eq!(
        initialize_pool(&init_ctx(), 1, 10_001).unwrap_err(),
        SwapError::InvalidFeeRate
    );
    assert_eq!(
        initialize_pool(&init_ctx(), 1, u64::MAX).unwrap_err(),
        SwapError::InvalidFeeRate
    );
}

#[test]
fn add_liquidity_bootstrap() {
    let ops = add_liquidity(&deposit_ctx(0, 0), 1000, 4000).unwrap();
    assert_eq!(
        ops,
        vec![
            LedgerOp::Transfer { from: key(11), to: key(5), authority: key(10), amount: 1000 },
            LedgerOp::Transfer { from: key(12), to: key(6), authority: key(10), amount: 4000 },
            LedgerOp::MintTo { mint: key(7), to: key(13), authority: key(2), amount: 2000 },
        ]
    );
}

#[test]
fn add_liquidity_proportional() {
    let ops = add_liquidity(&deposit_ctx(1000, 2000), 100, 100).unwrap();
    assert_eq!(
        ops[2],
        LedgerOp::MintTo { mint: key(7), to: key(13), authority: key(2), amount: 50_000 }
    );
    assert_eq!(ops.len(), 3);
}

#[test]
fn add_liquidity_rejects_zero_amounts() {
    assert_eq!(add_liquidity(&deposit_ctx(0, 0), 0, 5), Err(SwapError::InvalidAmount));
    assert_eq!(add_liquidity(&deposit_ctx(10, 10), 5, 0), Err(SwapError::InvalidAmount));
}

#[test]
fn add_liquidity_rejects_worthless_deposit() {
    assert_eq!(
        add_liquidity(&deposit_ctx(2_000_000, 2_000_000), 1, 1),
        Err(SwapError::InvalidAmount)
    );
}

#[test]
fn add_liquidity_overflow() {
    assert_eq!(
        add_liquidity(&deposit_ctx(1, 1), u64::MAX, 1),
        Err(SwapError::CalculationError)
    );
}

#[test]
fn swap_slippage_floor() {
    let ctx = swap_ctx(30, 10_000, 10_000);
    assert_eq!(swap(&ctx, 1000, 100), Err(SwapError::SlippageExceeded));
    // the formula gives 0 here, so a floor of 99 is not met either
    assert_eq!(swap(&ctx, 1000, 99), Err(SwapError::SlippageExceeded));
    assert_eq!(
        swap(&ctx, 1000, 0),
        Ok(vec![
            LedgerOp::Transfer { from: key(21), to: key(5), authority: key(20), amount: 1000 },
            LedgerOp::Transfer { from: key(6), to: key(22), authority: key(2), amount: 0 },
        ])
    );
}

#[test]
fn swap_pays_out_quote() {
    let ctx = swap_ctx(30, 1000, 1_000_000);
    let ops = swap(&ctx, 1_000_000, 90_661).unwrap();
    assert_eq!(
        ops[1],
        LedgerOp::Transfer { from: key(6), to: key(22), authority: key(2), amount: 90_661 }
    );
    assert_eq!(swap(&ctx, 1_000_000, 90_662), Err(SwapError::SlippageExceeded));
}

#[test]
fn swap_rejects_zero_input() {
    let ctx = swap_ctx(30, 10_000, 10_000);
    assert_eq!(swap(&ctx, 0, 0), Err(SwapError::InvalidAmount));
}

#[test]
fn swap_overflow() {
    let ctx = swap_ctx(30, 10_000, 10_000);
    assert_eq!(swap(&ctx, u64::MAX, 0), Err(SwapError::CalculationError));
    let ctx = swap_ctx(30, u64::MAX, 10_000);
    assert_eq!(swap(&ctx, 1000, 0), Err(SwapError::CalculationError));
}
