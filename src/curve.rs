//! The constant-product pricing engine: `x * y = k` with a basis-point fee
//! taken from the input. Pure functions, all rounding in the pool's favour.
use vstd::prelude::*;

use crate::error::AmmError;

verus! {

/// One basis point is a ten-thousandth.
pub const BPS_DENOMINATOR: u64 = 10000;

/// What a swap asks of the caller and what it hands back.
#[derive(Debug, Clone, Copy, PartialEq, Eq, Structural)]
pub struct SwapResult {
    /// Paid into the pool, fee included.
    pub deposit: u64,
    /// Paid out of the pool.
    pub withdraw: u64,
}

/// The share of each reserve that a quantity of pool shares redeems.
#[derive(Debug, Clone, Copy, PartialEq, Eq, Structural)]
pub struct WithdrawalAmounts {
    pub x: u64,
    pub y: u64,
}

/// The input that reaches the curve once the fee is kept back, rounded down.
pub open spec fn effective_input(amount_in: int, fee_bps: int) -> int {
    amount_in * (BPS_DENOMINATOR - fee_bps) / BPS_DENOMINATOR as int
}

/// `reserve_out - reserve_in * reserve_out / (reserve_in + e)` over the
/// rationals, rounded down: `reserve_out * e / (reserve_in + e)`.
pub open spec fn swap_output(reserve_in: int, reserve_out: int, fee_bps: int, amount_in: int) -> int {
    let e = effective_input(amount_in, fee_bps);
    reserve_out * e / (reserve_in + e)
}

/// The outcome of pricing a swap of `amount_in` into a pool holding
/// `reserve_in` of the input asset and `reserve_out` of the output asset.
pub open spec fn swap_quote(
    reserve_in: int,
    reserve_out: int,
    fee_bps: int,
    amount_in: int,
    min_amount_out: int,
) -> Result<SwapResult, AmmError> {
    let e = effective_input(amount_in, fee_bps);
    let out = swap_output(reserve_in, reserve_out, fee_bps, amount_in);
    if reserve_in + e == 0 {
        Err(AmmError::ArithmeticError)
    } else if amount_in == 0 || out == 0 {
        Err(AmmError::InvalidAmount)
    } else if out < min_amount_out {
        Err(AmmError::SlippageExceeded)
    } else {
        Ok(SwapResult { deposit: amount_in as u64, withdraw: out as u64 })
    }
}

proof fn lemma_effective_input_bounds(amount_in: int, fee_bps: int)
    requires
        0 <= amount_in,
        0 <= fee_bps <= BPS_DENOMINATOR,
    ensures
        0 <= effective_input(amount_in, fee_bps) <= amount_in,
{
    let f = BPS_DENOMINATOR - fee_bps;
    assert(0 <= amount_in * f <= amount_in * BPS_DENOMINATOR) by (nonlinear_arith)
        requires 0 <= amount_in, 0 <= f <= BPS_DENOMINATOR;
}

proof fn lemma_output_bounds(reserve_in: int, reserve_out: int, e: int)
    requires
        0 <= reserve_in,
        0 <= reserve_out,
        0 <= e,
        reserve_in + e > 0,
    ensures
        0 <= reserve_out * e / (reserve_in + e) <= reserve_out,
{
    let d = reserve_in + e;
    assert(0 <= reserve_out * e <= reserve_out * d) by (nonlinear_arith)
        requires 0 <= reserve_out, 0 <= e <= d;
    assert(reserve_out * d / d == reserve_out) by (nonlinear_arith)
        requires d > 0;
    vstd::arithmetic::div_mod::lemma_div_is_ordered(reserve_out * e, reserve_out * d, d);
    vstd::arithmetic::div_mod::lemma_div_pos_is_pos(reserve_out * e, d);
}

/// Prices a swap of `amount_in` against reserves `reserve_in` (the asset paid
/// in) and `reserve_out` (the asset paid out) with a fee of `fee_bps`.
///
/// The fee is kept back from the input before the curve is applied, and the
/// output is rounded down. Refused with `ArithmeticError` when the curve's
/// denominator is zero, with `InvalidAmount` when either leg is zero, and with
/// `SlippageExceeded` when the output is below `min_amount_out`.
pub fn price_swap(
    reserve_in: u64,
    reserve_out: u64,
    fee_bps: u16,
    amount_in: u64,
    min_amount_out: u64,
) -> (r: Result<SwapResult, AmmError>)
    requires
        fee_bps <= BPS_DENOMINATOR,
    ensures
        r == swap_quote(reserve_in as int, reserve_out as int, fee_bps as int, amount_in as int, min_amount_out as int),
        r is Ok ==> r->Ok_0.deposit == amount_in && r->Ok_0.deposit > 0 && r->Ok_0.withdraw > 0,
        r is Ok ==> min_amount_out <= r->Ok_0.withdraw <= reserve_out,
        reserve_in + effective_input(amount_in as int, fee_bps as int) > 0
            && swap_output(reserve_in as int, reserve_out as int, fee_bps as int, amount_in as int) == 0
            ==> r == Err::<SwapResult, AmmError>(AmmError::InvalidAmount),
{
    proof {
        lemma_effective_input_bounds(amount_in as int, fee_bps as int);
    }
    let fee_kept: u128 = (BPS_DENOMINATOR - fee_bps as u64) as u128;
    assert((amount_in as u128) * fee_kept <= u64::MAX as int * BPS_DENOMINATOR) by (nonlinear_arith)
        requires amount_in <= u64::MAX, fee_kept <= BPS_DENOMINATOR;
    let effective: u128 = (amount_in as u128) * fee_kept / (BPS_DENOMINATOR as u128);
    let denominator: u128 = reserve_in as u128 + effective;
    if denominator == 0 {
        return Err(AmmError::ArithmeticError);
    }
    proof {
        lemma_output_bounds(reserve_in as int, reserve_out as int, effective as int);
    }
    assert((reserve_out as u128) * effective <= u64::MAX as int * u64::MAX as int) by (nonlinear_arith)
        requires reserve_out <= u64::MAX, effective <= u64::MAX;
    let out: u128 = (reserve_out as u128) * effective / denominator;
    if amount_in == 0 || out == 0 {
        return Err(AmmError::InvalidAmount);
    }
    if out < min_amount_out as u128 {
        return Err(AmmError::SlippageExceeded);
    }
    Ok(SwapResult { deposit: amount_in, withdraw: out as u64 })
}

/// The outcome of redeeming `shares_burned` out of `lp_supply` outstanding
/// shares against reserves `reserve_x` and `reserve_y`.
pub open spec fn withdrawal_quote(
    reserve_x: int,
    reserve_y: int,
    lp_supply: int,
    shares_burned: int,
) -> Result<WithdrawalAmounts, AmmError> {
    if lp_supply == 0 {
        Err(AmmError::ArithmeticError)
    } else {
        Ok(
            WithdrawalAmounts {
                x: (reserve_x * shares_burned / lp_supply) as u64,
                y: (reserve_y * shares_burned / lp_supply) as u64,
            },
        )
    }
}

proof fn lemma_share_of_reserve(reserve: int, lp_supply: int, shares: int)
    requires
        0 <= reserve,
        0 <= shares <= lp_supply,
        lp_supply > 0,
    ensures
        0 <= reserve * shares / lp_supply <= reserve,
{
    assert(0 <= reserve * shares <= reserve * lp_supply) by (nonlinear_arith)
        requires 0 <= reserve, 0 <= shares <= lp_supply;
    assert(reserve * lp_supply / lp_supply == reserve) by (nonlinear_arith)
        requires lp_supply > 0;
    vstd::arithmetic::div_mod::lemma_div_is_ordered(reserve * shares, reserve * lp_supply, lp_supply);
    vstd::arithmetic::div_mod::lemma_div_pos_is_pos(reserve * shares, lp_supply);
}

/// Redeems `shares_burned` of `lp_supply` outstanding pool shares: each
/// reserve is paid out in proportion, rounded down. Refused with
/// `ArithmeticError` when no shares are outstanding.
pub fn withdraw_amounts_from_shares(
    reserve_x: u64,
    reserve_y: u64,
    lp_supply: u64,
    shares_burned: u64,
) -> (r: Result<WithdrawalAmounts, AmmError>)
    requires
        shares_burned <= lp_supply,
    ensures
        r == withdrawal_quote(reserve_x as int, reserve_y as int, lp_supply as int, shares_burned as int),
{
    if lp_supply == 0 {
        return Err(AmmError::ArithmeticError);
    }
    proof {
        lemma_share_of_reserve(reserve_x as int, lp_supply as int, shares_burned as int);
        lemma_share_of_reserve(reserve_y as int, lp_supply as int, shares_burned as int);
    }
    assert((reserve_x as u128) * (shares_burned as u128) <= u64::MAX as int * u64::MAX as int) by (nonlinear_arith)
        requires reserve_x <= u64::MAX, shares_burned <= u64::MAX;
    assert((reserve_y as u128) * (shares_burned as u128) <= u64::MAX as int * u64::MAX as int) by (nonlinear_arith)
        requires reserve_y <= u64::MAX, shares_burned <= u64::MAX;
    let x: u128 = (reserve_x as u128) * (shares_burned as u128) / (lp_supply as u128);
    let y: u128 = (reserve_y as u128) * (shares_burned as u128) / (lp_supply as u128);
    Ok(WithdrawalAmounts { x: x as u64, y: y as u64 })
}

/// A priced swap never lowers the product of the reserves: after `deposit`
/// comes in and `withdraw` goes out, `reserve_in' * reserve_out'` is at least
/// `reserve_in * reserve_out`.
pub proof fn lemma_swap_keeps_product(
    reserve_in: u64,
    reserve_out: u64,
    fee_bps: u16,
    amount_in: u64,
    min_amount_out: u64,
)
    requires
        fee_bps <= BPS_DENOMINATOR,
        swap_quote(reserve_in as int, reserve_out as int, fee_bps as int, amount_in as int, min_amount_out as int) is Ok,
    ensures
        ({
            let q = swap_quote(reserve_in as int, reserve_out as int, fee_bps as int, amount_in as int, min_amount_out as int)->Ok_0;
            (reserve_in + q.deposit) * (reserve_out - q.withdraw) >= reserve_in * reserve_out
        }),
{
    let rin = reserve_in as int;
    let rout = reserve_out as int;
    let a = amount_in as int;
    let e = effective_input(a, fee_bps as int);
    lemma_effective_input_bounds(a, fee_bps as int);
    lemma_output_bounds(rin, rout, e);
    let w = rout * e / (rin + e);
    lemma_floor_times_divisor(rout * e, rin + e);
    assert((rin + a) * (rout - w) >= rin * rout) by (nonlinear_arith)
        requires
            0 <= rin, 0 <= e <= a, 0 <= w <= rout, rin + e > 0,
            w * (rin + e) <= rout * e;
}

/// A priced swap pays out no more than the fee-free curve allows for the
/// whole deposit: `withdraw <= reserve_out - reserve_in * reserve_out /
/// (reserve_in + deposit)` over the rationals, written here without division.
pub proof fn lemma_swap_output_bound(
    reserve_in: u64,
    reserve_out: u64,
    fee_bps: u16,
    amount_in: u64,
    min_amount_out: u64,
)
    requires
        fee_bps <= BPS_DENOMINATOR,
        swap_quote(reserve_in as int, reserve_out as int, fee_bps as int, amount_in as int, min_amount_out as int) is Ok,
    ensures
        ({
            let q = swap_quote(reserve_in as int, reserve_out as int, fee_bps as int, amount_in as int, min_amount_out as int)->Ok_0;
            q.withdraw * (reserve_in + q.deposit) <= reserve_out * (reserve_in + q.deposit) - reserve_in * reserve_out
        }),
{
    let rin = reserve_in as int;
    let rout = reserve_out as int;
    let a = amount_in as int;
    let e = effective_input(a, fee_bps as int);
    lemma_effective_input_bounds(a, fee_bps as int);
    lemma_output_bounds(rin, rout, e);
    let w = rout * e / (rin + e);
    lemma_floor_times_divisor(rout * e, rin + e);
    assert(w * (rin + a) <= rout * (rin + a) - rin * rout) by (nonlinear_arith)
        requires
            0 <= rin, 0 <= e <= a, 0 <= w <= rout, rin + e > 0,
            w * (rin + e) <= rout * e;
}

proof fn lemma_floor_times_divisor(n: int, d: int)
    requires
        0 <= n,
        d > 0,
    ensures
        (n / d) * d <= n < (n / d) * d + d,
{
    vstd::arithmetic::div_mod::lemma_fundamental_div_mod(n, d);
    vstd::arithmetic::mul::lemma_mul_is_commutative(d, n / d);
}

/// A withdrawal is proportional: each of `x` and `y` is the share
/// `shares_burned / lp_supply` of its reserve, short of it by less than one
/// unit; burning the whole supply pays out both reserves exactly, and
/// burning less leaves a non-empty reserve non-empty.
pub proof fn lemma_withdrawal_proportional(
    reserve_x: u64,
    reserve_y: u64,
    lp_supply: u64,
    shares_burned: u64,
)
    requires
        0 < shares_burned <= lp_supply,
    ensures
        ({
            let w = withdrawal_quote(reserve_x as int, reserve_y as int, lp_supply as int, shares_burned as int)->Ok_0;
            &&& withdrawal_quote(reserve_x as int, reserve_y as int, lp_supply as int, shares_burned as int) is Ok
            &&& w.x * lp_supply <= reserve_x * shares_burned < (w.x + 1) * lp_supply
            &&& w.y * lp_supply <= reserve_y * shares_burned < (w.y + 1) * lp_supply
            &&& shares_burned == lp_supply ==> w.x == reserve_x && w.y == reserve_y
            &&& shares_burned < lp_supply && reserve_x > 0 ==> w.x < reserve_x
            &&& shares_burned < lp_supply && reserve_y > 0 ==> w.y < reserve_y
        }),
{
    let l = lp_supply as int;
    let s = shares_burned as int;
    lemma_share_of_reserve(reserve_x as int, l, s);
    lemma_share_of_reserve(reserve_y as int, l, s);
    lemma_floor_times_divisor(reserve_x * s, l);
    lemma_floor_times_divisor(reserve_y * s, l);
    let qx = reserve_x * s / l;
    let qy = reserve_y * s / l;
    assert((qx + 1) * l == qx * l + l && (qy + 1) * l == qy * l + l) by (nonlinear_arith);
    assert(s < l && reserve_x > 0 ==> qx < reserve_x) by (nonlinear_arith)
        requires qx * l <= reserve_x * s, 0 <= s, l > 0;
    assert(s < l && reserve_y > 0 ==> qy < reserve_y) by (nonlinear_arith)
        requires qy * l <= reserve_y * s, 0 <= s, l > 0;
    if s == l {
        vstd::arithmetic::div_mod::lemma_div_by_multiple(reserve_x as int, l);
        vstd::arithmetic::div_mod::lemma_div_by_multiple(reserve_y as int, l);
    }
}

} // verus!
