use whispr::errors::ErrorCode;
use whispr::pool::{
    deposit, initialize_amm, lock, unlock, Config, DepositOutcome, PoolLedger, WithdrawOutcome,
    withdraw,
};

const ALICE: u64 = 1;
const MALLORY: u64 = 2;
const MINT_X: u64 = 10;
const MINT_Y: u64 = 11;

fn pool_config() -> Config {
    initialize_amm(42, 30, Some(ALICE), MINT_X, MINT_Y)
}

#[test]
fn initialize_sets_every_field() {
    let c = pool_config();
    assert_eq!(c.seed, 42);
    assert_eq!(c.authority, Some(ALICE));
    assert_eq!(c.mint_x, MINT_X);
    assert_eq!(c.mint_y, MINT_Y);
    assert_eq!(c.fee, 30);
    assert!(!c.locked);
}

#[test]
fn lock_and_unlock_are_authority_gated() {
    let mut c = pool_config();
    assert_eq!(lock(&mut c, MALLORY), Err(ErrorCode::InvalidAuthority));
    assert!(!c.locked);
    assert_eq!(lock(&mut c, ALICE), Ok(()));
    assert!(c.locked);
    assert_eq!(unlock(&mut c, MALLORY), Err(ErrorCode::InvalidAuthority));
    assert!(c.locked);
    assert_eq!(unlock(&mut c, ALICE), Ok(()));
    assert!(!c.locked);
}

#[test]
fn renounced_authority_cannot_lock() {
    let mut c = initialize_amm(42, 30, None, MINT_X, MINT_Y);
    assert_eq!(lock(&mut c, ALICE), Err(ErrorCode::InvalidAuthority));
    assert_eq!(unlock(&mut c, ALICE), Err(ErrorCode::InvalidAuthority));
}

#[test]
fn deposit_on_locked_pool_is_refused_first() {
    let mut c = pool_config();
    lock(&mut c, ALICE).unwrap();
    assert_eq!(deposit(&c, 0, 0, 0, 1000, 1000, 1000), Err(ErrorCode::PoolLocked));
    assert_eq!(withdraw(&c, 5, 5, 5, 1, 0, 0), Err(ErrorCode::PoolLocked));
}

#[test]
fn deposit_zero_amount_is_invalid() {
    let c = pool_config();
    assert_eq!(deposit(&c, 0, 0, 0, 0, 1000, 1000), Err(ErrorCode::InvalidAmount));
    assert_eq!(withdraw(&c, 5, 5, 5, 0, 0, 0), Err(ErrorCode::InvalidAmount));
}

/// The bootstrap deposit mints exactly the contributed LP amount against
/// the caller-supplied maxima.
#[test]
fn first_deposit_bootstraps_the_pool() {
    let c = pool_config();
    assert_eq!(
        deposit(&c, 0, 0, 0, 1000, 1000, 1000),
        Ok(DepositOutcome { x: 1000, y: 1000, lp_to_mint: 1000 })
    );
}

#[test]
fn deposit_and_withdraw_round_numbers() {
    let c = pool_config();
    assert_eq!(
        deposit(&c, 2_000_000, 1_000_000, 1_000_000, 500_000, 1_000_000, 500_000),
        Ok(DepositOutcome { x: 1_000_000, y: 500_000, lp_to_mint: 500_000 })
    );
    assert_eq!(
        withdraw(&c, 2_000_000, 1_000_000, 1_000_000, 250_000, 500_000, 250_000),
        Ok(WithdrawOutcome { x: 500_000, y: 250_000, lp_to_burn: 250_000 })
    );
}

#[test]
fn ledger_applies_deposit_and_withdraw() {
    let mut ledger = PoolLedger { reserve_x: 0, reserve_y: 0, lp_supply: 0 };
    assert_eq!(ledger.apply_deposit(1000, 1000, 1000), Ok(()));
    assert_eq!(ledger, PoolLedger { reserve_x: 1000, reserve_y: 1000, lp_supply: 1000 });
    assert_eq!(ledger.apply_withdraw(400, 250, 300), Ok(()));
    assert_eq!(ledger, PoolLedger { reserve_x: 600, reserve_y: 750, lp_supply: 700 });
}

#[test]
fn ledger_refuses_overdraw_untouched() {
    let mut ledger = PoolLedger { reserve_x: 10, reserve_y: 10, lp_supply: 10 };
    assert_eq!(ledger.apply_withdraw(11, 0, 0), Err(ErrorCode::InvalidReserves));
    assert_eq!(ledger.apply_withdraw(0, 11, 0), Err(ErrorCode::InvalidReserves));
    assert_eq!(ledger.apply_withdraw(0, 0, 11), Err(ErrorCode::InvalidReserves));
    assert_eq!(ledger, PoolLedger { reserve_x: 10, reserve_y: 10, lp_supply: 10 });
}

#[test]
fn ledger_refuses_overflow_untouched() {
    let mut ledger = PoolLedger { reserve_x: u64::MAX, reserve_y: 10, lp_supply: 10 };
    assert_eq!(ledger.apply_deposit(1, 0, 0), Err(ErrorCode::ArithmeticOverflow));
    assert_eq!(ledger.apply_swap(1, 0), Err(ErrorCode::ArithmeticOverflow));
    assert_eq!(ledger, PoolLedger { reserve_x: u64::MAX, reserve_y: 10, lp_supply: 10 });
}

#[test]
fn ledger_applies_swap() {
    let mut ledger =
        PoolLedger { reserve_x: 1_000_000, reserve_y: 1_000_000, lp_supply: 1_000_000 };
    assert_eq!(ledger.apply_swap(1000, 997), Ok(()));
    assert_eq!(
        ledger,
        PoolLedger { reserve_x: 1_001_000, reserve_y: 999_003, lp_supply: 1_000_000 }
    );
    assert_eq!(ledger.apply_swap(0, 1_000_000), Err(ErrorCode::InvalidReserves));
    assert_eq!(
        ledger,
        PoolLedger { reserve_x: 1_001_000, reserve_y: 999_003, lp_supply: 1_000_000 }
    );
}
