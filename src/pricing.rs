use vstd::prelude::*;

use crate::error::SwapError;
use crate::sqrt::{floor_sqrt, isqrt, lemma_floor_sqrt};

verus! {

/// Basis points in a whole: fee rates are expressed over this denominator.
pub const BPS_DENOMINATOR: u64 = 10_000;

/// Scale applied to the deposit ratios of a funded pool, so that integer
/// division keeps six decimal digits of precision.
pub const SHARE_SCALE: u64 = 1_000_000;

/// Shares owed for depositing `amount_a` and `amount_b` against the given
/// reserves, before any check on the amounts themselves.
///
/// An empty pool (either reserve zero) issues the geometric mean of the two
/// amounts; a funded pool issues the smaller of the two scaled deposit
/// ratios. An overflow of the scaled amounts is a `CalculationError`.
pub open spec fn mint_quote(amount_a: u64, amount_b: u64, reserve_a: u64, reserve_b: u64) -> Result<
    u64,
    SwapError,
> {
    if reserve_a == 0 || reserve_b == 0 {
        Ok(floor_sqrt((amount_a * amount_b) as nat) as u64)
    } else if amount_a * SHARE_SCALE > u64::MAX || amount_b * SHARE_SCALE > u64::MAX {
        Err(SwapError::CalculationError)
    } else {
        let ratio_a = amount_a * SHARE_SCALE / reserve_a as int;
        let ratio_b = amount_b * SHARE_SCALE / reserve_b as int;
        Ok(if ratio_a <= ratio_b { ratio_a as u64 } else { ratio_b as u64 })
    }
}

/// The input that remains after the fee of `fee_rate` basis points is taken
/// from `amount_in`, rounded down.
pub open spec fn net_input(amount_in: u64, fee_rate: u64) -> int {
    amount_in * (BPS_DENOMINATOR - fee_rate) / BPS_DENOMINATOR as int
}

/// Whether every intermediate value of the swap formula fits in a `u64`
/// and its divisor is nonzero.
pub open spec fn swap_fits(amount_in: u64, reserve_in: u64, reserve_out: u64, fee_rate: u64) -> bool {
    let net = net_input(amount_in, fee_rate);
    &&& fee_rate <= BPS_DENOMINATOR
    &&& amount_in * (BPS_DENOMINATOR - fee_rate) <= u64::MAX
    &&& net * reserve_out <= u64::MAX
    &&& reserve_in * BPS_DENOMINATOR <= u64::MAX
    &&& reserve_in * BPS_DENOMINATOR + net <= u64::MAX
    &&& reserve_in * BPS_DENOMINATOR + net != 0
}

/// Output of a swap of `amount_in` against the reserves, with the fee taken
/// from the input leg and every division rounded down. A zero input is an
/// `InvalidAmount`.
pub open spec fn swap_quote(amount_in: u64, reserve_in: u64, reserve_out: u64, fee_rate: u64) -> Result<
    u64,
    SwapError,
> {
    if amount_in == 0 {
        Err(SwapError::InvalidAmount)
    } else if swap_fits(amount_in, reserve_in, reserve_out, fee_rate) {
        let net = net_input(amount_in, fee_rate);
        Ok(((net * reserve_out) / (reserve_in * BPS_DENOMINATOR + net)) as u64)
    } else {
        Err(SwapError::CalculationError)
    }
}

/// Pool shares to mint for a deposit of `amount_a` and `amount_b` against
/// the current reserves `reserve_a` and `reserve_b`.
///
/// A zero amount, or a deposit worth no share, is an `InvalidAmount`.
/// Bootstrap (either reserve zero): `isqrt(amount_a * amount_b)`, computed
/// in 128 bits, which cannot overflow. Otherwise the smaller of
/// `amount * 1_000_000 / reserve` over both sides; any overflow there is a
/// `CalculationError`.
pub fn calculate_pool_tokens(amount_a: u64, amount_b: u64, reserve_a: u64, reserve_b: u64) -> (r:
    Result<u64, SwapError>)
    ensures
        r == deposit_shares(amount_a, amount_b, reserve_a, reserve_b),
{
    if amount_a == 0 || amount_b == 0 {
        return Err(SwapError::InvalidAmount);
    }
    let shares = if reserve_a == 0 || reserve_b == 0 {
        proof {
            assert(amount_a as int * amount_b as int <= u64::MAX as int * u64::MAX as int)
                by (nonlinear_arith);
        }
        let product: u128 = (amount_a as u128) * (amount_b as u128);
        isqrt(product)
    } else {
        let scaled_a = match amount_a.checked_mul(SHARE_SCALE) {
            Some(v) => v,
            None => return Err(SwapError::CalculationError),
        };
        let ratio_a = match scaled_a.checked_div(reserve_a) {
            Some(v) => v,
            None => return Err(SwapError::CalculationError),
        };
        let scaled_b = match amount_b.checked_mul(SHARE_SCALE) {
            Some(v) => v,
            None => return Err(SwapError::CalculationError),
        };
        let ratio_b = match scaled_b.checked_div(reserve_b) {
            Some(v) => v,
            None => return Err(SwapError::CalculationError),
        };
        if ratio_a <= ratio_b {
            ratio_a
        } else {
            ratio_b
        }
    };
    if shares == 0 {
        return Err(SwapError::InvalidAmount);
    }
    Ok(shares)
}

/// Output of swapping `amount_in` into a pool holding `reserve_in` of the
/// input token and `reserve_out` of the output token, at `fee_rate` basis
/// points.
///
/// A zero input is an `InvalidAmount`. Otherwise `net = amount_in * (10000 - fee_rate) / 10000`, then
/// `net * reserve_out / (reserve_in * 10000 + net)`, rounded down. A fee
/// rate above 10000, an overflow or a zero divisor is a `CalculationError`.
pub fn calculate_swap_output(amount_in: u64, reserve_in: u64, reserve_out: u64, fee_rate: u64) -> (r:
    Result<u64, SwapError>)
    ensures
        r == swap_quote(amount_in, reserve_in, reserve_out, fee_rate),
{
    if amount_in == 0 {
        return Err(SwapError::InvalidAmount);
    }
    let fee_factor = match BPS_DENOMINATOR.checked_sub(fee_rate) {
        Some(v) => v,
        None => return Err(SwapError::CalculationError),
    };
    let gross = match amount_in.checked_mul(fee_factor) {
        Some(v) => v,
        None => return Err(SwapError::CalculationError),
    };
    let net = gross / BPS_DENOMINATOR;
    let numerator = match net.checked_mul(reserve_out) {
        Some(v) => v,
        None => return Err(SwapError::CalculationError),
    };
    let scaled_reserve = match reserve_in.checked_mul(BPS_DENOMINATOR) {
        Some(v) => v,
        None => return Err(SwapError::CalculationError),
    };
    let denominator = match scaled_reserve.checked_add(net) {
        Some(v) => v,
        None => return Err(SwapError::CalculationError),
    };
    match numerator.checked_div(denominator) {
        Some(v) => Ok(v),
        None => Err(SwapError::CalculationError),
    }
}

/// Outcome of a deposit: `InvalidAmount` for a zero amount or for a deposit
/// worth zero shares, else the shares of `mint_quote` or its error.
pub open spec fn deposit_shares(amount_a: u64, amount_b: u64, reserve_a: u64, reserve_b: u64) -> Result<
    u64,
    SwapError,
> {
    if amount_a == 0 || amount_b == 0 {
        Err(SwapError::InvalidAmount)
    } else {
        match mint_quote(amount_a, amount_b, reserve_a, reserve_b) {
            Ok(shares) => if shares == 0 {
                Err(SwapError::InvalidAmount)
            } else {
                Ok(shares)
            },
            Err(e) => Err(e),
        }
    }
}

/// Outcome of a trade: `InvalidAmount` for a zero input, the error of
/// `swap_quote`, `SlippageExceeded` for an output below
/// `minimum_amount_out`, else that output.
pub open spec fn swap_outcome(
    amount_in: u64,
    minimum_amount_out: u64,
    reserve_in: u64,
    reserve_out: u64,
    fee_rate: u64,
) -> Result<u64, SwapError> {
    if amount_in == 0 {
        Err(SwapError::InvalidAmount)
    } else {
        match swap_quote(amount_in, reserve_in, reserve_out, fee_rate) {
            Ok(out) => if out < minimum_amount_out {
                Err(SwapError::SlippageExceeded)
            } else {
                Ok(out)
            },
            Err(e) => Err(e),
        }
    }
}

/// `a / b <= c / d` whenever `a / b <= c / d` holds of the exact fractions.
proof fn lemma_floor_fraction_le(a: int, b: int, c: int, d: int)
    requires
        0 <= a,
        0 <= c,
        0 < b,
        0 < d,
        a * d <= c * b,
    ensures
        a / b <= c / d,
{
    let q = a / b;
    let m = a % b;
    let p = c / d;
    let k = c % d;
    assert(a == b * q + m && 0 <= m < b) by {
        vstd::arithmetic::div_mod::lemma_fundamental_div_mod(a, b);
    }
    assert(c == d * p + k && 0 <= k < d) by {
        vstd::arithmetic::div_mod::lemma_fundamental_div_mod(c, d);
    }
    assert(q * d <= c) by (nonlinear_arith)
        requires
            a == b * q + m,
            0 <= m,
            0 < b,
            0 < d,
            a * d <= c * b,
    ;
    if q > p {
        assert(false) by (nonlinear_arith)
            requires
                q >= p + 1,
                c == d * p + k,
                k < d,
                0 < d,
                q * d <= c,
        ;
    }
}

/// A first deposit into an empty pool, with both amounts positive, mints
/// exactly the integer square root of the product of the amounts, and that
/// is at least one share.
pub proof fn lemma_bootstrap_deposit(amount_a: u64, amount_b: u64, reserve_a: u64, reserve_b: u64)
    requires
        amount_a > 0,
        amount_b > 0,
        reserve_a == 0 || reserve_b == 0,
    ensures
        1 <= floor_sqrt((amount_a * amount_b) as nat) <= u64::MAX,
        deposit_shares(amount_a, amount_b, reserve_a, reserve_b) == Ok::<u64, SwapError>(
            floor_sqrt((amount_a * amount_b) as nat) as u64,
        ),
{
    let v = (amount_a * amount_b) as nat;
    let s = floor_sqrt(v) as int;
    lemma_floor_sqrt(v);
    assert(1 <= v <= u64::MAX as int * u64::MAX as int) by (nonlinear_arith)
        requires
            v == amount_a * amount_b,
            amount_a >= 1,
            amount_b >= 1,
    ;
    assert(1 <= s <= u64::MAX) by (nonlinear_arith)
        requires
            0 <= s,
            s * s <= v,
            v < (s + 1) * (s + 1),
            1 <= v <= u64::MAX as int * u64::MAX as int,
    ;
}

/// A deposit with a zero amount, or one whose shares round down to zero, is
/// refused with `InvalidAmount`.
pub proof fn lemma_deposit_rejects_worthless(
    amount_a: u64,
    amount_b: u64,
    reserve_a: u64,
    reserve_b: u64,
)
    ensures
        amount_a == 0 || amount_b == 0 ==> deposit_shares(amount_a, amount_b, reserve_a, reserve_b)
            == Err::<u64, SwapError>(SwapError::InvalidAmount),
        mint_quote(amount_a, amount_b, reserve_a, reserve_b) == Ok::<u64, SwapError>(0)
            ==> deposit_shares(amount_a, amount_b, reserve_a, reserve_b) == Err::<u64, SwapError>(
            SwapError::InvalidAmount,
        ),
{
}

/// With reserves and fee fixed, a larger input never yields a smaller
/// output.
pub proof fn lemma_swap_monotone_in_amount(
    amount_in_1: u64,
    amount_in_2: u64,
    reserve_in: u64,
    reserve_out: u64,
    fee_rate: u64,
)
    requires
        amount_in_1 <= amount_in_2,
        swap_quote(amount_in_1, reserve_in, reserve_out, fee_rate) is Ok,
        swap_quote(amount_in_2, reserve_in, reserve_out, fee_rate) is Ok,
    ensures
        swap_quote(amount_in_1, reserve_in, reserve_out, fee_rate)->Ok_0 <= swap_quote(
            amount_in_2,
            reserve_in,
            reserve_out,
            fee_rate,
        )->Ok_0,
{
    let f = BPS_DENOMINATOR - fee_rate;
    let n1 = net_input(amount_in_1, fee_rate);
    let n2 = net_input(amount_in_2, fee_rate);
    let k = reserve_in * BPS_DENOMINATOR;
    let r = reserve_out as int;
    assert(amount_in_1 * f <= amount_in_2 * f) by (nonlinear_arith)
        requires
            amount_in_1 <= amount_in_2,
            f >= 0,
    ;
    vstd::arithmetic::div_mod::lemma_div_is_ordered(
        amount_in_1 * f,
        amount_in_2 * f,
        BPS_DENOMINATOR as int,
    );
    assert(0 <= n1 <= n2);
    assert((n1 * r) * (k + n2) <= (n2 * r) * (k + n1)) by (nonlinear_arith)
        requires
            0 <= n1 <= n2,
            k >= 0,
            r >= 0,
    ;
    assert(0 <= n1 * r) by (nonlinear_arith)
        requires
            0 <= n1,
            r >= 0,
    ;
    lemma_floor_fraction_le(n1 * r, k + n1, n2 * r, k + n2);
}

/// With the input, the input reserve and the fee fixed, a larger output
/// reserve never yields a smaller output.
pub proof fn lemma_swap_monotone_in_reserve_out(
    amount_in: u64,
    reserve_in: u64,
    reserve_out_1: u64,
    reserve_out_2: u64,
    fee_rate: u64,
)
    requires
        reserve_out_1 <= reserve_out_2,
        swap_quote(amount_in, reserve_in, reserve_out_1, fee_rate) is Ok,
        swap_quote(amount_in, reserve_in, reserve_out_2, fee_rate) is Ok,
    ensures
        swap_quote(amount_in, reserve_in, reserve_out_1, fee_rate)->Ok_0 <= swap_quote(
            amount_in,
            reserve_in,
            reserve_out_2,
            fee_rate,
        )->Ok_0,
{
    let n = net_input(amount_in, fee_rate);
    let d = reserve_in * BPS_DENOMINATOR + n;
    assert(0 <= n * reserve_out_1 <= n * reserve_out_2) by (nonlinear_arith)
        requires
            0 <= n,
            0 <= reserve_out_1 <= reserve_out_2,
    ;
    vstd::arithmetic::div_mod::lemma_div_is_ordered(n * reserve_out_1, n * reserve_out_2, d);
}

/// With no fee the whole input is traded: the output is
/// `amount_in * reserve_out / (reserve_in * 10000 + amount_in)`. That is
/// never more than the constant-product amount
/// `amount_in * reserve_out / (reserve_in + amount_in)`, and equal to it
/// when the input reserve is empty.
pub proof fn lemma_swap_without_fee(amount_in: u64, reserve_in: u64, reserve_out: u64)
    requires
        swap_quote(amount_in, reserve_in, reserve_out, 0) is Ok,
    ensures
        swap_quote(amount_in, reserve_in, reserve_out, 0)->Ok_0 == amount_in * reserve_out / (
        reserve_in * BPS_DENOMINATOR + amount_in) as int,
        swap_quote(amount_in, reserve_in, reserve_out, 0)->Ok_0 <= amount_in * reserve_out / (
        reserve_in + amount_in) as int,
        reserve_in == 0 ==> swap_quote(amount_in, reserve_in, reserve_out, 0)->Ok_0 == amount_in
            * reserve_out / (reserve_in + amount_in) as int,
{
    let a = amount_in as int;
    let k = reserve_in as int;
    let r = reserve_out as int;
    assert(net_input(amount_in, 0) == a);
    assert(0 <= a * r) by (nonlinear_arith)
        requires
            0 <= a,
            0 <= r,
    ;
    assert((a * r) * (k + a) <= (a * r) * (k * 10000 + a)) by (nonlinear_arith)
        requires
            0 <= a,
            0 <= r,
            0 <= k,
    ;
    lemma_floor_fraction_le(a * r, k * 10000 + a, a * r, k + a);
}

/// Amounts too large for the formulas are refused with `CalculationError`,
/// never wrapped: in a funded pool, a deposit of two nonzero amounts, one of
/// whose scaled value passes `u64::MAX`; in a swap, an input whose
/// fee-weighted value passes `u64::MAX`, or a nonzero input against an input
/// reserve whose scaled value does.
pub proof fn lemma_overflow_rejected(amount: u64, other_amount: u64, reserve_1: u64, reserve_2: u64, fee_rate: u64)
    ensures
        reserve_1 != 0 && reserve_2 != 0 && other_amount != 0 && amount as int * SHARE_SCALE
            > u64::MAX ==> deposit_shares(
            amount,
            other_amount,
            reserve_1,
            reserve_2,
        ) == Err::<u64, SwapError>(SwapError::CalculationError) && deposit_shares(
            other_amount,
            amount,
            reserve_1,
            reserve_2,
        ) == Err::<u64, SwapError>(SwapError::CalculationError),
        amount as int * (BPS_DENOMINATOR - fee_rate) > u64::MAX ==> swap_quote(
            amount,
            reserve_1,
            reserve_2,
            fee_rate,
        ) == Err::<u64, SwapError>(SwapError::CalculationError),
        amount > 0 && reserve_1 as int * BPS_DENOMINATOR > u64::MAX ==> swap_quote(
            amount,
            reserve_1,
            reserve_2,
            fee_rate,
        ) == Err::<u64, SwapError>(SwapError::CalculationError),
{
}

} // verus!
