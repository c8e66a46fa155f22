use whispr::errors::ErrorCode;
use whispr::math::{deposit_amounts, swap_output, withdraw_amounts};

/// Reserves (1_000_000, 1_000_000), fee 30 bps, amount_in 1000:
/// k = 10^12, new_x = 1_001_000, new_y = k / new_x truncated = 999_000,
/// raw_out = 1000, fee = 1000 * 30 / 10000 = 3, amount_out = 997.
#[test]
fn swap_exact_formula_with_fee() {
    let out = swap_output(1_000_000, 1_000_000, 1000, 30).unwrap();
    let k: u128 = 1_000_000u128 * 1_000_000u128;
    let new_x: u128 = 1_000_000 + 1000;
    let new_y: u128 = k / new_x;
    assert_eq!(new_y, 999_000);
    let raw_out: u128 = 1_000_000 - new_y;
    assert_eq!(raw_out, 1000);
    let fee: u128 = raw_out * 30 / 10000;
    assert_eq!(fee, 3);
    assert_eq!(out as u128, raw_out - fee);
    assert_eq!(out, 997);
}

#[test]
fn swap_zero_amount_is_invalid() {
    assert_eq!(swap_output(1_000_000, 1_000_000, 0, 30), Err(ErrorCode::InvalidAmount));
    assert_eq!(swap_output(0, 0, 0, 0), Err(ErrorCode::InvalidAmount));
}

#[test]
fn swap_empty_reserve_is_inconsistent() {
    assert_eq!(swap_output(0, 1_000_000, 5, 30), Err(ErrorCode::InvalidReserves));
    assert_eq!(swap_output(1_000_000, 0, 5, 30), Err(ErrorCode::InvalidReserves));
}

#[test]
fn swap_full_fee_pays_nothing() {
    assert_eq!(swap_output(1_000_000, 1_000_000, 1000, 10000), Ok(0));
    assert_eq!(swap_output(10, 10, 3, 10000), Ok(0));
    assert_eq!(swap_output(123_456, 654_321, 99_999, 10000), Ok(0));
}

#[test]
fn swap_zero_fee_is_bare_constant_product() {
    // raw_out = ry - (rx * ry) / (rx + amount_in), truncated, nothing else.
    let out = swap_output(10, 10, 3, 0).unwrap();
    assert_eq!(out, 10 - (10 * 10) / (10 + 3));
    let out = swap_output(1_000_000, 1_000_000, 1000, 0).unwrap();
    assert_eq!(out as u128, 1_000_000 - (1_000_000u128 * 1_000_000) / 1_001_000);
    assert_eq!(out, 1000);
}

/// The fee-adjusted product invariant on concrete trades: whenever the fee
/// retains at least one token, the reserve product does not fall.
#[test]
fn swap_product_never_decreases_with_fee() {
    for (rx, ry, amount, fee) in [
        (1_000_000u64, 1_000_000u64, 1000u64, 30u16),
        (1_000_000, 1_000_000, 500_000, 100),
        (5_000, 900_000, 12_345, 10000),
        (777, 999_999, 10_000, 9999),
    ] {
        let out = swap_output(rx, ry, amount, fee).unwrap();
        let before = rx as u128 * ry as u128;
        let after = (rx as u128 + amount as u128) * (ry as u128 - out as u128);
        assert!(after >= before, "product fell for ({rx}, {ry}, {amount}, {fee})");
    }
}

/// The round trip on concrete values: swapping the proceeds straight back
/// at the same fee never returns more than was paid in.
#[test]
fn swap_round_trip_never_profits() {
    let (rx, ry, amount, fee) = (1_000_000u64, 1_000_000u64, 1000u64, 30u16);
    let out1 = swap_output(rx, ry, amount, fee).unwrap();
    assert_eq!(out1, 997);
    let rx2 = ry - out1;
    let ry2 = rx + amount;
    let out2 = swap_output(rx2, ry2, out1, fee).unwrap();
    assert!(out2 <= amount);
}

/// The first liquidity provider sets the price: an empty pool deposits
/// exactly the caller-supplied maxima.
#[test]
fn deposit_bootstrap_path() {
    assert_eq!(deposit_amounts(0, 0, 0, 1000, 1000, 1000), Ok((1000, 1000)));
    assert_eq!(deposit_amounts(0, 0, 0, 5, 123, 456), Ok((123, 456)));
}

#[test]
fn deposit_zero_supply_with_reserves_is_invalid() {
    assert_eq!(deposit_amounts(1_000_000, 1_000_000, 0, 1000, 1000, 1000),
        Err(ErrorCode::InvalidAmount));
}

/// Proportional deposit at precision 6: contributing half the LP supply
/// asks for half of each reserve.
#[test]
fn deposit_proportional_exact() {
    assert_eq!(
        deposit_amounts(2_000_000, 1_000_000, 1_000_000, 500_000, 1_000_000, 500_000),
        Ok((1_000_000, 500_000))
    );
    // Truncation happens in the share ratio: 1 / 3 of the supply in
    // millionths is 333_333 micro-shares.
    assert_eq!(deposit_amounts(3_000_000, 3_000_000, 3, 1, 1_000_000, 1_000_000),
        Ok((999_999, 999_999)));
}

#[test]
fn deposit_slippage_bound() {
    assert_eq!(
        deposit_amounts(2_000_000, 1_000_000, 1_000_000, 500_000, 999_999, 500_000),
        Err(ErrorCode::SlippageExceded)
    );
    assert_eq!(
        deposit_amounts(2_000_000, 1_000_000, 1_000_000, 500_000, 1_000_000, 499_999),
        Err(ErrorCode::SlippageExceded)
    );
}

#[test]
fn deposit_overflow_is_refused() {
    assert_eq!(
        deposit_amounts(u64::MAX, u64::MAX, 1, u64::MAX, u64::MAX, u64::MAX),
        Err(ErrorCode::ArithmeticOverflow)
    );
}

#[test]
fn withdraw_zero_supply_is_invalid() {
    assert_eq!(withdraw_amounts(5, 5, 0, 3, 0, 0), Err(ErrorCode::InvalidAmount));
}

/// Proportional withdrawal at precision 6: burning a quarter of the supply
/// returns a quarter of each reserve.
#[test]
fn withdraw_proportional_exact() {
    assert_eq!(
        withdraw_amounts(2_000_000, 1_000_000, 1_000_000, 250_000, 0, 0),
        Ok((500_000, 250_000))
    );
}

#[test]
fn withdraw_slippage_bound() {
    assert_eq!(
        withdraw_amounts(2_000_000, 1_000_000, 1_000_000, 250_000, 500_001, 0),
        Err(ErrorCode::SlippageExceded)
    );
    assert_eq!(
        withdraw_amounts(2_000_000, 1_000_000, 1_000_000, 250_000, 500_000, 250_001),
        Err(ErrorCode::SlippageExceded)
    );
    assert_eq!(
        withdraw_amounts(2_000_000, 1_000_000, 1_000_000, 250_000, 500_000, 250_000),
        Ok((500_000, 250_000))
    );
}

#[test]
fn withdraw_overflow_is_refused() {
    assert_eq!(
        withdraw_amounts(u64::MAX, u64::MAX, 1, u64::MAX, 0, 0),
        Err(ErrorCode::ArithmeticOverflow)
    );
}

/// Truncation rounds in the trader's favour, so without a retained fee the
/// product law and the round-trip law genuinely need their fee premise:
/// with reserves (10, 10), amount 3 and no fee the product falls and the
/// immediate return trip comes out ahead.
#[test]
fn feeless_truncation_favours_the_trader() {
    let out1 = swap_output(10, 10, 3, 0).unwrap();
    assert_eq!(out1, 3);
    let after = (10u128 + 3) * (10 - out1 as u128);
    assert_eq!(after, 91);
    assert!(after < 100);
    let out2 = swap_output(10 - out1, 13, out1, 0).unwrap();
    assert_eq!(out2, 4);
}
