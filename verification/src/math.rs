//! The arithmetic engine of the market maker.
//!
//! Pure, deterministic, integer-only functions that compute swap outputs and
//! proportional deposit and withdrawal amounts from pool reserves.  The same
//! formulas are evaluated by the public contract and inside the confidential
//! computation, so every step is defined over exact integer arithmetic with
//! truncating division and no environment-dependent width: intermediate
//! products are widened to 128 bits and an operation whose result cannot be
//! represented fails instead of wrapping.

use vstd::prelude::*;

verus! {

use crate::errors::ErrorCode;
use vstd::arithmetic::div_mod::{
    lemma_div_is_ordered, lemma_div_multiples_vanish, lemma_div_pos_is_pos,
    lemma_fundamental_div_mod, lemma_mod_bound,
};
use vstd::arithmetic::mul::{
    lemma_mul_inequality, lemma_mul_is_commutative, lemma_mul_is_distributive_add,
    lemma_mul_is_distributive_add_other_way, lemma_mul_left_inequality, lemma_mul_nonnegative,
    lemma_mul_upper_bound,
};

/// Reserve of the outgoing token that the constant product leaves in the pool
/// after `amount_in` of the incoming token arrives: `k / (rx + amount_in)`
/// with `k == rx * ry`, truncated.
pub open spec fn spec_swap_new_out_reserve(rx: int, ry: int, amount_in: int) -> int {
    (rx * ry) / (rx + amount_in)
}

/// Gross trade output before the fee: what the outgoing reserve loses.
pub open spec fn spec_swap_raw_out(rx: int, ry: int, amount_in: int) -> int {
    ry - spec_swap_new_out_reserve(rx, ry, amount_in)
}

/// Fee retained by the pool: `fee_bps` basis points of the gross output,
/// truncated.
pub open spec fn spec_swap_fee(rx: int, ry: int, amount_in: int, fee_bps: int) -> int {
    spec_swap_raw_out(rx, ry, amount_in) * fee_bps / 10000
}

/// Net amount paid out to the trader.
pub open spec fn spec_swap_output(rx: int, ry: int, amount_in: int, fee_bps: int) -> int {
    spec_swap_raw_out(rx, ry, amount_in) - spec_swap_fee(rx, ry, amount_in, fee_bps)
}

/// Every intermediate value of the swap formula is non-negative and bounded
/// by the outgoing reserve, and the two extreme fee rates behave as the
/// formula promises: a full fee keeps everything, a zero fee keeps nothing.
pub proof fn lemma_swap_output_bounds(rx: int, ry: int, amount_in: int, fee_bps: int)
    requires
        1 <= rx,
        1 <= ry,
        1 <= amount_in,
        0 <= fee_bps <= 10000,
    ensures
        0 <= spec_swap_new_out_reserve(rx, ry, amount_in) <= ry,
        0 <= spec_swap_raw_out(rx, ry, amount_in) <= ry,
        0 <= spec_swap_fee(rx, ry, amount_in, fee_bps) <= spec_swap_raw_out(rx, ry, amount_in),
        0 <= spec_swap_output(rx, ry, amount_in, fee_bps) <= spec_swap_raw_out(rx, ry, amount_in),
        fee_bps == 10000 ==> spec_swap_output(rx, ry, amount_in, fee_bps) == 0,
        fee_bps == 0 ==> spec_swap_output(rx, ry, amount_in, fee_bps)
            == spec_swap_raw_out(rx, ry, amount_in),
{
    let k = rx * ry;
    let nx = rx + amount_in;
    lemma_mul_nonnegative(rx, ry);
    lemma_div_pos_is_pos(k, nx);
    // k / nx <= ry, because k == rx * ry <= nx * ry and (nx * ry) / nx == ry.
    lemma_mul_inequality(rx, nx, ry);
    lemma_div_is_ordered(k, nx * ry, nx);
    lemma_div_multiples_vanish(ry, nx);
    lemma_mul_is_commutative(nx, ry);

    let raw = spec_swap_raw_out(rx, ry, amount_in);
    lemma_mul_nonnegative(raw, fee_bps);
    lemma_div_pos_is_pos(raw * fee_bps, 10000);
    // raw * fee_bps <= raw * 10000, and (raw * 10000) / 10000 == raw.
    lemma_mul_inequality(fee_bps, 10000, raw);
    lemma_mul_is_commutative(fee_bps, raw);
    lemma_mul_is_commutative(10000, raw);
    lemma_div_is_ordered(raw * fee_bps, raw * 10000, 10000);
    lemma_div_multiples_vanish(raw, 10000);
    lemma_mul_is_commutative(raw, 10000);
}

/// The fee-adjusted constant product never decreases: after a swap the pool
/// holds `rx + amount_in` of the incoming token and
/// `ry - spec_swap_output(..)` of the outgoing one, and the product of the
/// two is at least the product before the trade.
///
/// Truncating `k / (rx + amount_in)` rounds in the trader's favour by up to
/// one token of the outgoing reserve, so the law asks that the fee actually
/// retain something — at least one token, or nothing to round (division is
/// exact).  Without that a feeless trade can shave the product: with
/// reserves `(10, 10)` and `amount_in = 3` at `fee_bps = 0` the product
/// falls from 100 to 91.
pub proof fn lemma_swap_preserves_product(rx: int, ry: int, amount_in: int, fee_bps: int)
    requires
        1 <= rx,
        1 <= ry,
        1 <= amount_in,
        0 <= fee_bps <= 10000,
        spec_swap_fee(rx, ry, amount_in, fee_bps) >= 1 || (rx * ry) % (rx + amount_in) == 0,
    ensures
        (rx + amount_in) * (ry - spec_swap_output(rx, ry, amount_in, fee_bps)) >= rx * ry,
{
    let k = rx * ry;
    let nx = rx + amount_in;
    let q = k / nx;
    let f = spec_swap_fee(rx, ry, amount_in, fee_bps);
    lemma_swap_output_bounds(rx, ry, amount_in, fee_bps);
    // The pool keeps q + f of the outgoing token:
    assert(ry - spec_swap_output(rx, ry, amount_in, fee_bps) == q + f);
    // nx * (q + f) == nx * q + nx * f == (k - k % nx) + nx * f.
    lemma_mul_is_distributive_add(nx, q, f);
    lemma_fundamental_div_mod(k, nx);
    lemma_mod_bound(k, nx);
    if f >= 1 {
        // nx * f >= nx > k % nx, so the fee more than repays the truncation.
        lemma_mul_left_inequality(nx, 1, f);
    } else {
        // Division was exact, and the fee is non-negative.
        lemma_mul_nonnegative(nx, f);
    }
}

/// A round trip never profits the trader.  Swapping `amount_in` of X for Y
/// and then the whole proceeds of Y back for X, over the updated reserves
/// and at the same fee rate, returns at most `amount_in`.
///
/// As with the product law, the fee of the first swap must retain at least
/// one token: truncation alone favours the trader, and with reserves
/// `(10, 10)`, `amount_in = 3` and `fee_bps = 0` the round trip would return
/// 4 tokens for the 3 paid in.
pub proof fn lemma_round_trip_no_profit(rx: int, ry: int, amount_in: int, fee_bps: int)
    requires
        1 <= rx,
        1 <= ry,
        1 <= amount_in,
        0 <= fee_bps <= 10000,
        spec_swap_fee(rx, ry, amount_in, fee_bps) >= 1,
        1 <= spec_swap_output(rx, ry, amount_in, fee_bps),
    ensures
        spec_swap_output(
            ry - spec_swap_output(rx, ry, amount_in, fee_bps),
            rx + amount_in,
            spec_swap_output(rx, ry, amount_in, fee_bps),
            fee_bps,
        ) <= amount_in,
{
    let out1 = spec_swap_output(rx, ry, amount_in, fee_bps);
    let rx2 = ry - out1;  // reserve of the token now flowing in
    let ry2 = rx + amount_in;  // reserve of the token now flowing out
    lemma_swap_output_bounds(rx, ry, amount_in, fee_bps);
    // The first swap keeps the fee, so the pool still holds some outgoing
    // reserve: rx2 >= 1.
    assert(rx2 >= 1);
    // The second swap's incoming reserve grows back to exactly ry.
    assert(rx2 + out1 == ry);
    let k2 = rx2 * ry2;
    // The fee-adjusted product did not decrease across the first swap.
    lemma_swap_preserves_product(rx, ry, amount_in, fee_bps);
    lemma_mul_is_commutative(ry2, rx2);
    assert(k2 >= rx * ry);
    // Hence the second quotient k2 / ry is at least rx ...
    lemma_mul_is_commutative(rx, ry);
    lemma_div_is_ordered(rx * ry, k2, ry);
    lemma_div_multiples_vanish(rx, ry);
    assert(spec_swap_new_out_reserve(rx2, ry2, out1) == k2 / ry);
    assert(k2 / ry >= rx);
    // ... so the gross return is at most amount_in, and the fee only shrinks it.
    lemma_swap_output_bounds(rx2, ry2, out1, fee_bps);
    assert(spec_swap_raw_out(rx2, ry2, out1) <= amount_in);
}

/// Constant-product swap output.
///
/// With incoming reserve `reserve_x`, outgoing reserve `reserve_y` and a
/// trade of `amount_in` incoming tokens, the pool keeps the constant product
/// `k = reserve_x * reserve_y` up to truncation and to the fee: the outgoing
/// reserve falls to `k / (reserve_x + amount_in)`, the gross difference is
/// paid out minus `fee_bps` basis points kept by the pool.  A zero trade is
/// refused before the formula runs; an empty reserve is unreachable while
/// the pool invariant holds and is refused as an internal inconsistency.
/// All intermediate products are computed in 128 bits, so the formula itself
/// can neither overflow nor wrap.
pub fn swap_output(reserve_x: u64, reserve_y: u64, amount_in: u64, fee_bps: u16)
    -> (r: Result<u64, ErrorCode>)
    requires
        fee_bps <= 10000,
    ensures
        r == Err::<u64, ErrorCode>(ErrorCode::InvalidAmount) <==> amount_in == 0,
        r == Err::<u64, ErrorCode>(ErrorCode::InvalidReserves)
            <==> amount_in > 0 && (reserve_x == 0 || reserve_y == 0),
        r is Ok <==> amount_in > 0 && reserve_x > 0 && reserve_y > 0,
        r matches Ok(out) ==> out as int
            == spec_swap_output(reserve_x as int, reserve_y as int, amount_in as int, fee_bps as int),
{
    if amount_in == 0 {
        return Err(ErrorCode::InvalidAmount);
    }
    if reserve_x == 0 || reserve_y == 0 {
        return Err(ErrorCode::InvalidReserves);
    }
    proof {
        lemma_swap_output_bounds(
            reserve_x as int,
            reserve_y as int,
            amount_in as int,
            fee_bps as int,
        );
        lemma_mul_upper_bound(reserve_x as int, u64::MAX as int, reserve_y as int, u64::MAX as int);
    }
    let k: u128 = (reserve_x as u128) * (reserve_y as u128);
    let new_x: u128 = (reserve_x as u128) + (amount_in as u128);
    let new_y: u128 = k / new_x;
    let raw_out: u128 = (reserve_y as u128) - new_y;
    proof {
        lemma_mul_upper_bound(raw_out as int, u64::MAX as int, fee_bps as int, 10000);
    }
    let fee_amount: u128 = raw_out * (fee_bps as u128) / 10000;
    let amount_out: u128 = raw_out - fee_amount;
    Ok(amount_out as u64)
}

/// Share of the pool that `amount` LP units represent against a supply of
/// `lp_supply`, in millionths (fixed decimal precision of 6), truncated.
pub open spec fn spec_share_micros(amount: int, lp_supply: int) -> int {
    amount * 1_000_000 / lp_supply
}

/// A reserve scaled by that share: the amount of one token that corresponds
/// to `amount` LP units, with both divisions truncating.
pub open spec fn spec_proportional_amount(reserve: int, amount: int, lp_supply: int) -> int {
    reserve * spec_share_micros(amount, lp_supply) / 1_000_000
}

/// `reserve * ratio_micros / 1_000_000`, refused when the result does not
/// fit a token amount.  The product is formed in 128 bits; a value that
/// would not survive the division back into 64 bits is an overflow, never a
/// wrap.
fn scale_by_micros(reserve: u64, ratio_micros: u128) -> (r: Result<u64, ErrorCode>)
    ensures
        r matches Ok(v) <==> reserve as int * ratio_micros as int / 1_000_000 <= u64::MAX as int,
        r matches Ok(v) ==> v as int == reserve as int * ratio_micros as int / 1_000_000,
        r is Err <==> r == Err::<u64, ErrorCode>(ErrorCode::ArithmeticOverflow)
            && reserve as int * ratio_micros as int / 1_000_000 > u64::MAX as int,
{
    let v = reserve as u128;
    if ratio_micros == 0 {
        return Ok(0u64);
    }
    if v > u128::MAX / ratio_micros {
        proof {
            let m = u128::MAX as int;
            let rt = ratio_micros as int;
            // v >= m / rt + 1, so v * rt >= (m / rt) * rt + rt > m.
            lemma_mul_inequality(m / rt + 1, v as int, rt);
            lemma_mul_is_distributive_add_other_way(rt, m / rt, 1);
            lemma_fundamental_div_mod(m, rt);
            lemma_mod_bound(m, rt);
            lemma_mul_is_commutative(rt, m / rt);
            assert(v as int * rt > m);
            // A product beyond 128 bits cannot shrink below 2^64 by dividing
            // by a million.
            lemma_div_is_ordered(m + 1, v as int * rt, 1_000_000);
            assert((m + 1) / 1_000_000 > u64::MAX as int);
        }
        return Err(ErrorCode::ArithmeticOverflow);
    }
    proof {
        let m = u128::MAX as int;
        let rt = ratio_micros as int;
        // v <= m / rt, so v * rt <= (m / rt) * rt <= m.
        lemma_mul_inequality(v as int, m / rt, rt);
        lemma_fundamental_div_mod(m, rt);
        lemma_mod_bound(m, rt);
        lemma_mul_is_commutative(rt, m / rt);
    }
    let product: u128 = v * ratio_micros;
    let scaled: u128 = product / 1_000_000;
    if scaled > u64::MAX as u128 {
        return Err(ErrorCode::ArithmeticOverflow);
    }
    Ok(scaled as u64)
}

/// Token amounts for a liquidity deposit of `contribution` LP units.
///
/// An empty pool (no supply, no reserves) is bootstrapped: the first
/// provider sets the price and deposits exactly the caller-supplied maxima.
/// Otherwise each reserve is scaled by the contributed share of the LP
/// supply at a fixed decimal precision of 6; a pool whose supply is gone
/// while reserves remain cannot quote a share and is refused, and a required
/// amount above the caller's maximum violates the slippage bound.
pub fn deposit_amounts(
    reserve_x: u64,
    reserve_y: u64,
    lp_supply: u64,
    contribution: u64,
    max_x: u64,
    max_y: u64,
) -> (r: Result<(u64, u64), ErrorCode>)
    ensures
        lp_supply == 0 && reserve_x == 0 && reserve_y == 0
            ==> r == Ok::<(u64, u64), ErrorCode>((max_x, max_y)),
        lp_supply == 0 && (reserve_x > 0 || reserve_y > 0)
            ==> r == Err::<(u64, u64), ErrorCode>(ErrorCode::InvalidAmount),
        lp_supply > 0 && (
            spec_proportional_amount(reserve_x as int, contribution as int, lp_supply as int)
                > u64::MAX as int
            || spec_proportional_amount(reserve_y as int, contribution as int, lp_supply as int)
                > u64::MAX as int
        ) ==> r == Err::<(u64, u64), ErrorCode>(ErrorCode::ArithmeticOverflow),
        lp_supply > 0
            && spec_proportional_amount(reserve_x as int, contribution as int, lp_supply as int)
                <= u64::MAX as int
            && spec_proportional_amount(reserve_y as int, contribution as int, lp_supply as int)
                <= u64::MAX as int
            ==> (
            if spec_proportional_amount(reserve_x as int, contribution as int, lp_supply as int)
                > max_x as int
                || spec_proportional_amount(reserve_y as int, contribution as int, lp_supply as int)
                    > max_y as int {
                r == Err::<(u64, u64), ErrorCode>(ErrorCode::SlippageExceded)
            } else {
                r matches Ok(xy)
                    && xy.0 as int == spec_proportional_amount(
                    reserve_x as int,
                    contribution as int,
                    lp_supply as int,
                )
                    && xy.1 as int == spec_proportional_amount(
                    reserve_y as int,
                    contribution as int,
                    lp_supply as int,
                )
            }
        ),
{
    if lp_supply == 0 {
        if reserve_x == 0 && reserve_y == 0 {
            return Ok((max_x, max_y));
        }
        return Err(ErrorCode::InvalidAmount);
    }
    proof {
        lemma_mul_upper_bound(contribution as int, u64::MAX as int, 1_000_000, 1_000_000);
        lemma_mul_nonnegative(contribution as int, 1_000_000);
    }
    let ratio: u128 = (contribution as u128) * 1_000_000 / (lp_supply as u128);
    let x = match scale_by_micros(reserve_x, ratio) {
        Ok(v) => v,
        Err(e) => {
            return Err(e);
        },
    };
    let y = match scale_by_micros(reserve_y, ratio) {
        Ok(v) => v,
        Err(e) => {
            return Err(e);
        },
    };
    if x > max_x || y > max_y {
        return Err(ErrorCode::SlippageExceded);
    }
    Ok((x, y))
}

/// Token amounts returned for burning `burn_amount` LP units.
///
/// Each reserve is scaled by the burned share of the LP supply at the same
/// fixed precision as deposits.  A pool without LP supply has nothing to
/// burn against and is refused; an amount below the caller's minimum
/// violates the slippage bound.
pub fn withdraw_amounts(
    reserve_x: u64,
    reserve_y: u64,
    lp_supply: u64,
    burn_amount: u64,
    min_x: u64,
    min_y: u64,
) -> (r: Result<(u64, u64), ErrorCode>)
    ensures
        lp_supply == 0 ==> r == Err::<(u64, u64), ErrorCode>(ErrorCode::InvalidAmount),
        lp_supply > 0 && (
            spec_proportional_amount(reserve_x as int, burn_amount as int, lp_supply as int)
                > u64::MAX as int
            || spec_proportional_amount(reserve_y as int, burn_amount as int, lp_supply as int)
                > u64::MAX as int
        ) ==> r == Err::<(u64, u64), ErrorCode>(ErrorCode::ArithmeticOverflow),
        lp_supply > 0
            && spec_proportional_amount(reserve_x as int, burn_amount as int, lp_supply as int)
                <= u64::MAX as int
            && spec_proportional_amount(reserve_y as int, burn_amount as int, lp_supply as int)
                <= u64::MAX as int
            ==> (
            if spec_proportional_amount(reserve_x as int, burn_amount as int, lp_supply as int)
                < min_x as int
                || spec_proportional_amount(reserve_y as int, burn_amount as int, lp_supply as int)
                    < min_y as int {
                r == Err::<(u64, u64), ErrorCode>(ErrorCode::SlippageExceded)
            } else {
                r matches Ok(xy)
                    && xy.0 as int == spec_proportional_amount(
                    reserve_x as int,
                    burn_amount as int,
                    lp_supply as int,
                )
                    && xy.1 as int == spec_proportional_amount(
                    reserve_y as int,
                    burn_amount as int,
                    lp_supply as int,
                )
            }
        ),
{
    if lp_supply == 0 {
        return Err(ErrorCode::InvalidAmount);
    }
    proof {
        lemma_mul_upper_bound(burn_amount as int, u64::MAX as int, 1_000_000, 1_000_000);
        lemma_mul_nonnegative(burn_amount as int, 1_000_000);
    }
    let ratio: u128 = (burn_amount as u128) * 1_000_000 / (lp_supply as u128);
    let x = match scale_by_micros(reserve_x, ratio) {
        Ok(v) => v,
        Err(e) => {
            return Err(e);
        },
    };
    let y = match scale_by_micros(reserve_y, ratio) {
        Ok(v) => v,
        Err(e) => {
            return Err(e);
        },
    };
    if x < min_x || y < min_y {
        return Err(ErrorCode::SlippageExceded);
    }
    Ok((x, y))
}

} // verus!
