use vstd::prelude::*;

use crate::error::SwapError;
use crate::pricing::{
    calculate_pool_tokens, calculate_swap_output, deposit_shares, swap_outcome, BPS_DENOMINATOR,
};

verus! {

/// Decimals of the pool's share token.
pub const SHARE_DECIMALS: u8 = 6;

/// The 32-byte address of an account or of a token type on the ledger.
#[derive(Clone, Copy, Debug, PartialEq, Eq)]
pub struct Key {
    pub bytes: [u8; 32],
}

/// The persistent record of one pool.
#[derive(Clone, Copy, Debug, PartialEq, Eq)]
pub struct Pool {
    pub authority: Key,
    pub token_a_mint: Key,
    pub token_b_mint: Key,
    pub token_a_account: Key,
    pub token_b_account: Key,
    pub pool_mint: Key,
    /// Fee charged on the input leg of every swap, in basis points.
    pub fee_rate: u64,
    /// Derivation parameter of the pool's own signing authority.
    pub bump: u8,
}

impl Pool {
    /// Bytes the record takes in its ledger account: an 8-byte type tag, six
    /// addresses, the fee rate and the bump.
    pub const LEN: usize = 8 + 32 + 32 + 32 + 32 + 32 + 32 + 8 + 1;

    /// The fee rate lies in `0..=10000` basis points.
    pub open spec fn wf(self) -> bool {
        self.fee_rate <= BPS_DENOMINATOR
    }
}

/// A change that an operation asks the ledger to make. The operations of one
/// request are committed together or not at all. Where `authority` or
/// `mint_authority` is the pool's own address, the pool signs with its
/// derived authority.
#[derive(Clone, Copy, Debug, PartialEq, Eq)]
pub enum LedgerOp {
    /// Create the token type `mint`.
    InitializeMint { mint: Key, decimals: u8, mint_authority: Key, freeze_authority: Key },
    /// Move `amount` tokens from account `from` to account `to`.
    Transfer { from: Key, to: Key, authority: Key, amount: u64 },
    /// Issue `amount` new tokens of type `mint` into account `to`.
    MintTo { mint: Key, to: Key, authority: Key, amount: u64 },
}

/// Accounts taking part in creating a pool.
#[derive(Clone, Copy, Debug, PartialEq, Eq)]
pub struct InitializePool {
    /// Who pays for the new accounts.
    pub user: Key,
    /// Address of the pool record, which is also the pool's signing authority.
    pub pool: Key,
    pub token_a_mint: Key,
    pub token_b_mint: Key,
    /// The pool's reserve account of token A.
    pub token_a_account: Key,
    /// The pool's reserve account of token B.
    pub token_b_account: Key,
    /// The pool's share token.
    pub pool_mint: Key,
    /// Who administers the pool.
    pub authority: Key,
}

/// Accounts taking part in a deposit, with the current reserves.
#[derive(Clone, Copy, Debug, PartialEq, Eq)]
pub struct AddLiquidity {
    /// The depositor.
    pub user: Key,
    pub pool: Pool,
    /// Address of the pool record, which is also the pool's signing authority.
    pub pool_address: Key,
    pub user_token_a: Key,
    pub user_token_b: Key,
    pub pool_token_a: Key,
    pub pool_token_b: Key,
    /// Balance of `pool_token_a` before the deposit.
    pub reserve_a: u64,
    /// Balance of `pool_token_b` before the deposit.
    pub reserve_b: u64,
    pub pool_mint: Key,
    /// The depositor's account of pool shares.
    pub user_pool_token: Key,
}

/// Accounts taking part in a trade, with the current reserves.
#[derive(Clone, Copy, Debug, PartialEq, Eq)]
pub struct Swap {
    /// The trader.
    pub user: Key,
    pub pool: Pool,
    /// Address of the pool record, which is also the pool's signing authority.
    pub pool_address: Key,
    pub user_token_in: Key,
    pub user_token_out: Key,
    /// The pool's reserve account of the token paid in.
    pub pool_token_in: Key,
    /// The pool's reserve account of the token paid out.
    pub pool_token_out: Key,
    /// Balance of `pool_token_in` before the trade.
    pub reserve_in: u64,
    /// Balance of `pool_token_out` before the trade.
    pub reserve_out: u64,
}

/// The record that a pool starts with.
pub open spec fn new_pool(ctx: InitializePool, pool_bump: u8, fee_rate: u64) -> Pool {
    Pool {
        authority: ctx.authority,
        token_a_mint: ctx.token_a_mint,
        token_b_mint: ctx.token_b_mint,
        token_a_account: ctx.token_a_account,
        token_b_account: ctx.token_b_account,
        pool_mint: ctx.pool_mint,
        fee_rate,
        bump: pool_bump,
    }
}

/// The ledger changes of creating a pool: its share token, controlled by the
/// pool itself.
pub open spec fn initialize_ops(ctx: InitializePool) -> Seq<LedgerOp> {
    seq![
        LedgerOp::InitializeMint {
            mint: ctx.pool_mint,
            decimals: SHARE_DECIMALS,
            mint_authority: ctx.pool,
            freeze_authority: ctx.pool,
        },
    ]
}

/// The ledger changes of a deposit: both amounts into the reserves, and
/// `shares` new pool shares to the depositor.
pub open spec fn deposit_ops(ctx: AddLiquidity, amount_a: u64, amount_b: u64, shares: u64) -> Seq<
    LedgerOp,
> {
    seq![
        LedgerOp::Transfer {
            from: ctx.user_token_a,
            to: ctx.pool_token_a,
            authority: ctx.user,
            amount: amount_a,
        },
        LedgerOp::Transfer {
            from: ctx.user_token_b,
            to: ctx.pool_token_b,
            authority: ctx.user,
            amount: amount_b,
        },
        LedgerOp::MintTo {
            mint: ctx.pool_mint,
            to: ctx.user_pool_token,
            authority: ctx.pool_address,
            amount: shares,
        },
    ]
}

/// The ledger changes of a trade: the input into the pool, and the output,
/// signed by the pool, to the trader.
pub open spec fn swap_ops(ctx: Swap, amount_in: u64, amount_out: u64) -> Seq<LedgerOp> {
    seq![
        LedgerOp::Transfer {
            from: ctx.user_token_in,
            to: ctx.pool_token_in,
            authority: ctx.user,
            amount: amount_in,
        },
        LedgerOp::Transfer {
            from: ctx.pool_token_out,
            to: ctx.user_token_out,
            authority: ctx.pool_address,
            amount: amount_out,
        },
    ]
}

/// Creates a pool charging `fee_rate` basis points per swap, and asks for its
/// share token. A fee rate above 10000 is refused with `InvalidFeeRate`.
pub fn initialize_pool(ctx: &InitializePool, pool_bump: u8, fee_rate: u64) -> (r: Result<
    (Pool, Vec<LedgerOp>),
    SwapError,
>)
    ensures
        r is Ok <==> fee_rate <= BPS_DENOMINATOR,
        r is Err ==> r->Err_0 == SwapError::InvalidFeeRate,
        r is Ok ==> r->Ok_0.0 == new_pool(*ctx, pool_bump, fee_rate) && r->Ok_0.0.wf()
            && r->Ok_0.1@ == initialize_ops(*ctx),
{
    if fee_rate > BPS_DENOMINATOR {
        return Err(SwapError::InvalidFeeRate);
    }
    let pool = Pool {
        authority: ctx.authority,
        token_a_mint: ctx.token_a_mint,
        token_b_mint: ctx.token_b_mint,
        token_a_account: ctx.token_a_account,
        token_b_account: ctx.token_b_account,
        pool_mint: ctx.pool_mint,
        fee_rate,
        bump: pool_bump,
    };
    let mut ops: Vec<LedgerOp> = Vec::new();
    ops.push(
        LedgerOp::InitializeMint {
            mint: ctx.pool_mint,
            decimals: SHARE_DECIMALS,
            mint_authority: ctx.pool,
            freeze_authority: ctx.pool,
        },
    );
    proof {
        assert(ops@ =~= initialize_ops(*ctx));
    }
    Ok((pool, ops))
}

/// Deposits `amount_a` of token A and `amount_b` of token B and mints the
/// shares of `calculate_pool_tokens` to the depositor.
///
/// Refused with `InvalidAmount` when either amount is zero or the deposit is
/// worth no share, and with `CalculationError` on overflow.
pub fn add_liquidity(ctx: &AddLiquidity, amount_a: u64, amount_b: u64) -> (r: Result<
    Vec<LedgerOp>,
    SwapError,
>)
    ensures
        r is Ok <==> deposit_shares(amount_a, amount_b, ctx.reserve_a, ctx.reserve_b) is Ok,
        r is Err ==> r->Err_0 == deposit_shares(
            amount_a,
            amount_b,
            ctx.reserve_a,
            ctx.reserve_b,
        )->Err_0,
        r is Ok ==> r->Ok_0@ == deposit_ops(
            *ctx,
            amount_a,
            amount_b,
            deposit_shares(amount_a, amount_b, ctx.reserve_a, ctx.reserve_b)->Ok_0,
        ),
{
    let pool_tokens = match calculate_pool_tokens(amount_a, amount_b, ctx.reserve_a, ctx.reserve_b) {
        Ok(v) => v,
        Err(e) => return Err(e),
    };
    let mut ops: Vec<LedgerOp> = Vec::new();
    ops.push(
        LedgerOp::Transfer {
            from: ctx.user_token_a,
            to: ctx.pool_token_a,
            authority: ctx.user,
            amount: amount_a,
        },
    );
    ops.push(
        LedgerOp::Transfer {
            from: ctx.user_token_b,
            to: ctx.pool_token_b,
            authority: ctx.user,
            amount: amount_b,
        },
    );
    ops.push(
        LedgerOp::MintTo {
            mint: ctx.pool_mint,
            to: ctx.user_pool_token,
            authority: ctx.pool_address,
            amount: pool_tokens,
        },
    );
    proof {
        assert(ops@ =~= deposit_ops(*ctx, amount_a, amount_b, pool_tokens));
    }
    Ok(ops)
}

/// Trades `amount_in` of the input token for the output of
/// `calculate_swap_output` at the pool's fee rate.
///
/// Refused with `InvalidAmount` for a zero input, with `CalculationError` on
/// overflow, and with `SlippageExceeded` when the output is below
/// `minimum_amount_out`.
pub fn swap(ctx: &Swap, amount_in: u64, minimum_amount_out: u64) -> (r: Result<
    Vec<LedgerOp>,
    SwapError,
>)
    ensures
        r is Ok <==> swap_outcome(
            amount_in,
            minimum_amount_out,
            ctx.reserve_in,
            ctx.reserve_out,
            ctx.pool.fee_rate,
        ) is Ok,
        r is Err ==> r->Err_0 == swap_outcome(
            amount_in,
            minimum_amount_out,
            ctx.reserve_in,
            ctx.reserve_out,
            ctx.pool.fee_rate,
        )->Err_0,
        r is Ok ==> r->Ok_0@ == swap_ops(
            *ctx,
            amount_in,
            swap_outcome(
                amount_in,
                minimum_amount_out,
                ctx.reserve_in,
                ctx.reserve_out,
                ctx.pool.fee_rate,
            )->Ok_0,
        ),
{
    if amount_in == 0 {
        return Err(SwapError::InvalidAmount);
    }
    let amount_out = match calculate_swap_output(
        amount_in,
        ctx.reserve_in,
        ctx.reserve_out,
        ctx.pool.fee_rate,
    ) {
        Ok(v) => v,
        Err(e) => return Err(e),
    };
    if amount_out < minimum_amount_out {
        return Err(SwapError::SlippageExceeded);
    }
    let mut ops: Vec<LedgerOp> = Vec::new();
    ops.push(
        LedgerOp::Transfer {
            from: ctx.user_token_in,
            to: ctx.pool_token_in,
            authority: ctx.user,
            amount: amount_in,
        },
    );
    ops.push(
        LedgerOp::Transfer {
            from: ctx.pool_token_out,
            to: ctx.user_token_out,
            authority: ctx.pool_address,
            amount: amount_out,
        },
    );
    proof {
        assert(ops@ =~= swap_ops(*ctx, amount_in, amount_out));
    }
    Ok(ops)
}

} // verus!
