//! The pool: configuration, admin controls, liquidity operations and the
//! reserve ledger.
//!
//! A pool is one trading pair.  Its configuration carries the fee rate, the
//! lock flag and the optional authority; its ledger carries the reserves and
//! the LP supply.  The functions here are the decision half of the pool's
//! operations: they take the account values that the surroundings read
//! (reserves, LP supply, caller identity) as plain values, validate them,
//! and return the exact transfer and mint/burn amounts to realize — or the
//! error that aborts the operation before anything moves.  Identities
//! (callers, mints, configurations) enter as opaque 64-bit handles chosen by
//! the caller; the logic only ever compares them for equality.

use vstd::prelude::*;

verus! {

use crate::errors::ErrorCode;
use crate::math::{deposit_amounts, spec_proportional_amount, withdraw_amounts};

/// The persistent configuration of one pool.
#[derive(Clone, Copy, Debug, PartialEq, Eq, Structural)]
pub struct Config {
    /// Seed that distinguishes this pool among pools of the same pair.
    pub seed: u64,
    /// Who may lock and unlock the pool; `None` renounces that control.
    pub authority: Option<u64>,
    /// Handle of the first token of the pair.
    pub mint_x: u64,
    /// Handle of the second token of the pair.
    pub mint_y: u64,
    /// Swap fee in basis points, at most 10000.
    pub fee: u16,
    /// While set, every mutating operation is refused before any arithmetic.
    pub locked: bool,
}

impl Config {
    /// The configuration invariant: the fee rate is a valid share in basis
    /// points.  Established at initialization and never mutated afterwards.
    pub open spec fn wf(self) -> bool {
        self.fee <= 10000
    }
}

/// Create the configuration of a fresh pool: unlocked, with the given fee
/// and optional lock authority.
pub fn initialize_amm(seed: u64, fee: u16, authority: Option<u64>, mint_x: u64, mint_y: u64)
    -> (c: Config)
    requires
        fee <= 10000,
    ensures
        c == (Config { seed, authority, mint_x, mint_y, fee, locked: false }),
        c.wf(),
{
    Config { seed, authority, mint_x, mint_y, fee, locked: false }
}

/// Lock the pool.  Only the recorded authority may do so; anyone else is
/// refused and the configuration is untouched.
pub fn lock(config: &mut Config, user: u64) -> (r: Result<(), ErrorCode>)
    ensures
        old(config).authority == Some(user) ==> r is Ok
            && *final(config) == (Config { locked: true, ..*old(config) }),
        old(config).authority != Some(user)
            ==> r == Err::<(), ErrorCode>(ErrorCode::InvalidAuthority)
            && *final(config) == *old(config),
{
    if config.authority == Some(user) {
        config.locked = true;
        Ok(())
    } else {
        Err(ErrorCode::InvalidAuthority)
    }
}

/// Unlock the pool.  Only the recorded authority may do so; anyone else is
/// refused and the configuration is untouched.
pub fn unlock(config: &mut Config, user: u64) -> (r: Result<(), ErrorCode>)
    ensures
        old(config).authority == Some(user) ==> r is Ok
            && *final(config) == (Config { locked: false, ..*old(config) }),
        old(config).authority != Some(user)
            ==> r == Err::<(), ErrorCode>(ErrorCode::InvalidAuthority)
            && *final(config) == *old(config),
{
    if config.authority == Some(user) {
        config.locked = false;
        Ok(())
    } else {
        Err(ErrorCode::InvalidAuthority)
    }
}

/// What a liquidity deposit moves: `x` and `y` flow from the provider to the
/// vaults, and `lp_to_mint` LP units are minted to the provider.  Both
/// transfers and the mint form one atomic unit of work.
#[derive(Clone, Copy, Debug, PartialEq, Eq, Structural)]
pub struct DepositOutcome {
    pub x: u64,
    pub y: u64,
    pub lp_to_mint: u64,
}

/// What a liquidity withdrawal moves: `x` and `y` flow from the vaults to
/// the provider, and `lp_to_burn` LP units are burned.  Both transfers and
/// the burn form one atomic unit of work.
#[derive(Clone, Copy, Debug, PartialEq, Eq, Structural)]
pub struct WithdrawOutcome {
    pub x: u64,
    pub y: u64,
    pub lp_to_burn: u64,
}

/// Decide a liquidity deposit of `amount` LP units against the reserves read
/// at call time.  A locked pool and a zero amount are refused before any
/// arithmetic; otherwise the token amounts come from the proportional-share
/// formula (or the bootstrap path on an empty pool) and are bounded by the
/// caller's maxima.
pub fn deposit(
    config: &Config,
    reserve_x: u64,
    reserve_y: u64,
    lp_supply: u64,
    amount: u64,
    max_x: u64,
    max_y: u64,
) -> (r: Result<DepositOutcome, ErrorCode>)
    ensures
        config.locked ==> r == Err::<DepositOutcome, ErrorCode>(ErrorCode::PoolLocked),
        !config.locked && amount == 0
            ==> r == Err::<DepositOutcome, ErrorCode>(ErrorCode::InvalidAmount),
        !config.locked && amount > 0 && lp_supply == 0 && reserve_x == 0 && reserve_y == 0
            ==> r == Ok::<DepositOutcome, ErrorCode>(
            DepositOutcome { x: max_x, y: max_y, lp_to_mint: amount },
        ),
        !config.locked && amount > 0 && lp_supply == 0 && (reserve_x > 0 || reserve_y > 0)
            ==> r == Err::<DepositOutcome, ErrorCode>(ErrorCode::InvalidAmount),
        !config.locked && amount > 0 && lp_supply > 0 ==> (
            if spec_proportional_amount(reserve_x as int, amount as int, lp_supply as int)
                > u64::MAX as int
                || spec_proportional_amount(reserve_y as int, amount as int, lp_supply as int)
                    > u64::MAX as int {
                r == Err::<DepositOutcome, ErrorCode>(ErrorCode::ArithmeticOverflow)
            } else if spec_proportional_amount(reserve_x as int, amount as int, lp_supply as int)
                > max_x as int
                || spec_proportional_amount(reserve_y as int, amount as int, lp_supply as int)
                    > max_y as int {
                r == Err::<DepositOutcome, ErrorCode>(ErrorCode::SlippageExceded)
            } else {
                r matches Ok(o)
                    && o.x as int == spec_proportional_amount(
                    reserve_x as int,
                    amount as int,
                    lp_supply as int,
                )
                    && o.y as int == spec_proportional_amount(
                    reserve_y as int,
                    amount as int,
                    lp_supply as int,
                )
                    && o.lp_to_mint == amount
            }
        ),
{
    if config.locked {
        return Err(ErrorCode::PoolLocked);
    }
    if amount == 0 {
        return Err(ErrorCode::InvalidAmount);
    }
    match deposit_amounts(reserve_x, reserve_y, lp_supply, amount, max_x, max_y) {
        Ok((x, y)) => Ok(DepositOutcome { x, y, lp_to_mint: amount }),
        Err(e) => Err(e),
    }
}

/// Decide a liquidity withdrawal burning `amount` LP units against the
/// reserves read at call time.  A locked pool and a zero amount are refused
/// before any arithmetic; otherwise the token amounts come from the
/// proportional-share formula and must reach the caller's minima.
pub fn withdraw(
    config: &Config,
    reserve_x: u64,
    reserve_y: u64,
    lp_supply: u64,
    amount: u64,
    min_x: u64,
    min_y: u64,
) -> (r: Result<WithdrawOutcome, ErrorCode>)
    ensures
        config.locked ==> r == Err::<WithdrawOutcome, ErrorCode>(ErrorCode::PoolLocked),
        !config.locked && amount == 0
            ==> r == Err::<WithdrawOutcome, ErrorCode>(ErrorCode::InvalidAmount),
        !config.locked && amount > 0 && lp_supply == 0
            ==> r == Err::<WithdrawOutcome, ErrorCode>(ErrorCode::InvalidAmount),
        !config.locked && amount > 0 && lp_supply > 0 ==> (
            if spec_proportional_amount(reserve_x as int, amount as int, lp_supply as int)
                > u64::MAX as int
                || spec_proportional_amount(reserve_y as int, amount as int, lp_supply as int)
                    > u64::MAX as int {
                r == Err::<WithdrawOutcome, ErrorCode>(ErrorCode::ArithmeticOverflow)
            } else if spec_proportional_amount(reserve_x as int, amount as int, lp_supply as int)
                < min_x as int
                || spec_proportional_amount(reserve_y as int, amount as int, lp_supply as int)
                    < min_y as int {
                r == Err::<WithdrawOutcome, ErrorCode>(ErrorCode::SlippageExceded)
            } else {
                r matches Ok(o)
                    && o.x as int == spec_proportional_amount(
                    reserve_x as int,
                    amount as int,
                    lp_supply as int,
                )
                    && o.y as int == spec_proportional_amount(
                    reserve_y as int,
                    amount as int,
                    lp_supply as int,
                )
                    && o.lp_to_burn == amount
            }
        ),
{
    if config.locked {
        return Err(ErrorCode::PoolLocked);
    }
    if amount == 0 {
        return Err(ErrorCode::InvalidAmount);
    }
    match withdraw_amounts(reserve_x, reserve_y, lp_supply, amount, min_x, min_y) {
        Ok((x, y)) => Ok(WithdrawOutcome { x, y, lp_to_burn: amount }),
        Err(e) => Err(e),
    }
}

/// The pool's own bookkeeping of reserves and LP supply.
///
/// Mutations mirror the external transfers that realize an operation, and
/// each is atomic-or-nothing: when a step cannot be represented the whole
/// update is refused and no field changes.
#[derive(Clone, Copy, Debug, PartialEq, Eq, Structural)]
pub struct PoolLedger {
    pub reserve_x: u64,
    pub reserve_y: u64,
    pub lp_supply: u64,
}

impl PoolLedger {
    /// Record a completed deposit: both reserves grow and LP units are
    /// minted, or nothing changes.
    pub fn apply_deposit(&mut self, x: u64, y: u64, minted: u64) -> (r: Result<(), ErrorCode>)
        ensures
            r is Ok <==> old(self).reserve_x + x <= u64::MAX
                && old(self).reserve_y + y <= u64::MAX
                && old(self).lp_supply + minted <= u64::MAX,
            r is Ok ==> *final(self) == (PoolLedger {
                reserve_x: (old(self).reserve_x + x) as u64,
                reserve_y: (old(self).reserve_y + y) as u64,
                lp_supply: (old(self).lp_supply + minted) as u64,
            }),
            r is Err ==> r == Err::<(), ErrorCode>(ErrorCode::ArithmeticOverflow)
                && *final(self) == *old(self),
    {
        if x > u64::MAX - self.reserve_x || y > u64::MAX - self.reserve_y
            || minted > u64::MAX - self.lp_supply {
            return Err(ErrorCode::ArithmeticOverflow);
        }
        self.reserve_x = self.reserve_x + x;
        self.reserve_y = self.reserve_y + y;
        self.lp_supply = self.lp_supply + minted;
        Ok(())
    }

    /// Record a completed withdrawal: both reserves shrink and LP units are
    /// burned, or nothing changes.  Taking more than the pool holds is a
    /// state unreachable under the pool invariant.
    pub fn apply_withdraw(&mut self, x: u64, y: u64, burned: u64) -> (r: Result<(), ErrorCode>)
        ensures
            r is Ok <==> x <= old(self).reserve_x && y <= old(self).reserve_y
                && burned <= old(self).lp_supply,
            r is Ok ==> *final(self) == (PoolLedger {
                reserve_x: (old(self).reserve_x - x) as u64,
                reserve_y: (old(self).reserve_y - y) as u64,
                lp_supply: (old(self).lp_supply - burned) as u64,
            }),
            r is Err ==> r == Err::<(), ErrorCode>(ErrorCode::InvalidReserves)
                && *final(self) == *old(self),
    {
        if x > self.reserve_x || y > self.reserve_y || burned > self.lp_supply {
            return Err(ErrorCode::InvalidReserves);
        }
        self.reserve_x = self.reserve_x - x;
        self.reserve_y = self.reserve_y - y;
        self.lp_supply = self.lp_supply - burned;
        Ok(())
    }

    /// Record an applied swap: the incoming reserve grows by the deposited
    /// amount and the outgoing reserve pays the withdrawn amount, or nothing
    /// changes.
    pub fn apply_swap(&mut self, deposit_amount: u64, withdraw_amount: u64)
        -> (r: Result<(), ErrorCode>)
        ensures
            old(self).reserve_x + deposit_amount > u64::MAX
                ==> r == Err::<(), ErrorCode>(ErrorCode::ArithmeticOverflow)
                && *final(self) == *old(self),
            old(self).reserve_x + deposit_amount <= u64::MAX
                && withdraw_amount > old(self).reserve_y
                ==> r == Err::<(), ErrorCode>(ErrorCode::InvalidReserves)
                && *final(self) == *old(self),
            old(self).reserve_x + deposit_amount <= u64::MAX
                && withdraw_amount <= old(self).reserve_y
                ==> r is Ok && *final(self) == (PoolLedger {
                reserve_x: (old(self).reserve_x + deposit_amount) as u64,
                reserve_y: (old(self).reserve_y - withdraw_amount) as u64,
                lp_supply: old(self).lp_supply,
            }),
    {
        if deposit_amount > u64::MAX - self.reserve_x {
            return Err(ErrorCode::ArithmeticOverflow);
        }
        if withdraw_amount > self.reserve_y {
            return Err(ErrorCode::InvalidReserves);
        }
        self.reserve_x = self.reserve_x + deposit_amount;
        self.reserve_y = self.reserve_y - withdraw_amount;
        Ok(())
    }
}

} // verus!
