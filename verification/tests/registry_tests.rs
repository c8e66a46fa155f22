use whispr::coordinator::{CallbackAction, ComputationOutput, SwapStatus};
use whispr::errors::ErrorCode;
use whispr::pool::{initialize_amm, lock, Config};
use whispr::registry::SwapRegistry;

const ALICE: u64 = 1;
const BOB: u64 = 2;
const CONFIG_KEY: u64 = 77;

fn pool_config() -> Config {
    initialize_amm(42, 30, Some(ALICE), 10, 11)
}

fn submit(
    registry: &mut SwapRegistry,
    config: &Config,
    user: u64,
    computation_id: u64,
) -> Result<whispr::coordinator::SwapJob, ErrorCode> {
    registry.submit(
        config,
        CONFIG_KEY,
        user,
        computation_id,
        [7u8; 32],
        99u128,
        [13u8; 32],
        1_000_000,
        1_000_000,
        1_000_000,
        1700,
    )
}

fn success_payload(deposit: u64, withdraw: u64) -> ComputationOutput {
    let mut bytes = Vec::new();
    bytes.extend_from_slice(&deposit.to_le_bytes());
    bytes.extend_from_slice(&withdraw.to_le_bytes());
    ComputationOutput::Success(bytes)
}

/// Distinct correlation identifiers may be pending concurrently; the same
/// identifier may not.
#[test]
fn concurrent_swaps_under_distinct_ids() {
    let config = pool_config();
    let mut registry = SwapRegistry::new();
    submit(&mut registry, &config, ALICE, 100).unwrap();
    submit(&mut registry, &config, BOB, 200).unwrap();
    assert_eq!(registry.status_of(100).unwrap().status, SwapStatus::Computing);
    assert_eq!(registry.status_of(200).unwrap().status, SwapStatus::Computing);
    assert_eq!(
        submit(&mut registry, &config, BOB, 100).unwrap_err(),
        ErrorCode::DuplicateComputation
    );
    // The rejected duplicate touched neither request.
    assert_eq!(registry.status_of(100).unwrap().user, ALICE);
    assert_eq!(registry.status_of(200).unwrap().user, BOB);
}

#[test]
fn locked_pool_records_nothing_in_registry() {
    let mut config = pool_config();
    lock(&mut config, ALICE).unwrap();
    let mut registry = SwapRegistry::new();
    assert_eq!(submit(&mut registry, &config, ALICE, 100).unwrap_err(), ErrorCode::PoolLocked);
    assert!(registry.status_of(100).is_none());
}

/// Each callback resolves exactly the request it correlates with and
/// leaves the other pending request alone.
#[test]
fn callbacks_resolve_their_own_request() {
    let config = pool_config();
    let mut registry = SwapRegistry::new();
    submit(&mut registry, &config, ALICE, 100).unwrap();
    submit(&mut registry, &config, BOB, 200).unwrap();

    let r = registry.callback(CONFIG_KEY, 200, success_payload(1000, 997));
    assert_eq!(r, Ok(CallbackAction::Applied { deposit_amount: 1000, withdraw_amount: 997 }));
    assert_eq!(registry.status_of(200).unwrap().status, SwapStatus::Executed);
    assert_eq!(registry.status_of(100).unwrap().status, SwapStatus::Computing);

    let r = registry.callback(CONFIG_KEY, 100, ComputationOutput::Aborted);
    assert_eq!(r, Err(ErrorCode::AbortedComputation));
    assert_eq!(registry.status_of(100).unwrap().status, SwapStatus::Failed);
    assert_eq!(registry.status_of(200).unwrap().status, SwapStatus::Executed);
}

#[test]
fn registry_refuses_replays_and_unknown_ids() {
    let config = pool_config();
    let mut registry = SwapRegistry::new();
    submit(&mut registry, &config, ALICE, 100).unwrap();
    registry.callback(CONFIG_KEY, 100, success_payload(1000, 997)).unwrap();
    let r = registry.callback(CONFIG_KEY, 100, success_payload(1000, 997));
    assert_eq!(r, Err(ErrorCode::ReplayedCallback));
    let executed = registry.status_of(100).unwrap();
    assert_eq!(executed.status, SwapStatus::Executed);
    assert_eq!(executed.applied_deposit, 1000);
    assert_eq!(executed.applied_withdraw, 997);
    let r = registry.callback(CONFIG_KEY, 999, success_payload(1, 1));
    assert_eq!(r, Err(ErrorCode::ReplayedCallback));
}

#[test]
fn registry_checks_the_recorded_config() {
    let config = pool_config();
    let mut registry = SwapRegistry::new();
    submit(&mut registry, &config, ALICE, 100).unwrap();
    let r = registry.callback(CONFIG_KEY + 1, 100, success_payload(1000, 997));
    assert_eq!(r, Err(ErrorCode::InvalidAuthority));
    assert_eq!(registry.status_of(100).unwrap().status, SwapStatus::Computing);
}

/// A resolved identifier stays resolved; a fresh swap takes a fresh one.
#[test]
fn fresh_swap_needs_a_fresh_id() {
    let config = pool_config();
    let mut registry = SwapRegistry::new();
    submit(&mut registry, &config, ALICE, 100).unwrap();
    registry.callback(CONFIG_KEY, 100, ComputationOutput::Aborted).unwrap_err();
    assert_eq!(registry.status_of(100).unwrap().status, SwapStatus::Failed);
    // The registry keeps the terminal record and accepts a resubmit on the
    // same identifier only because the old request is resolved.
    submit(&mut registry, &config, ALICE, 100).unwrap();
    assert_eq!(registry.status_of(100).unwrap().status, SwapStatus::Computing);
}

#[test]
fn registry_expires_only_hung_computations() {
    let config = pool_config();
    let mut registry = SwapRegistry::new();
    submit(&mut registry, &config, ALICE, 100).unwrap(); // created_at = 1700
    submit(&mut registry, &config, BOB, 200).unwrap();
    assert!(!registry.expire(100, 1799, 100));
    assert!(registry.expire(100, 1800, 100));
    assert_eq!(registry.status_of(100).unwrap().status, SwapStatus::Failed);
    assert_eq!(registry.status_of(200).unwrap().status, SwapStatus::Computing);
    assert!(!registry.expire(100, i64::MAX, 0));
    assert!(!registry.expire(999, i64::MAX, 0));
}
