//! The confidential swap coordinator.
//!
//! One logical swap becomes two independent invocations separated by an
//! unbounded, caller-invisible latency: a submit that records a pending
//! request and hands the encrypted amount with a snapshot of the pool's
//! public state to the computation boundary, and a callback that validates
//! the boundary's result and resolves the request.  The request lives in a
//! single pending slot per deployment, so at most one confidential swap is
//! in flight at a time; a correlation identifier links the callback to the
//! submit it answers.  Terminal requests are final: no delivery, repeated or
//! otherwise, moves them again, and the transfer effect of a callback is
//! applied at most once.

use vstd::prelude::*;

verus! {

use crate::errors::ErrorCode;
use crate::pool::Config;

/// Where a confidential swap request stands.
#[derive(Clone, Copy, Debug, PartialEq, Eq, Structural)]
pub enum SwapStatus {
    /// Created by a submit, not yet handed to the boundary.
    Initiated,
    /// Accepted by the computation boundary; awaiting its callback.
    Computing,
    /// Resolved: the result was applied and the transfers issued.
    Executed,
    /// Resolved: aborted, malformed, or refused by the circuit's slippage
    /// guard.  No transfers were issued.
    Failed,
}

/// A status from which no transition leaves.
pub open spec fn is_terminal(status: SwapStatus) -> bool {
    status == SwapStatus::Executed || status == SwapStatus::Failed
}

/// The record of one in-flight confidential swap.
#[derive(Clone, Copy, Debug, PartialEq, Eq, Structural)]
pub struct SwapState {
    /// Who submitted the swap and receives its proceeds.
    pub user: u64,
    /// Handle of the pool configuration recorded at submit time; a callback
    /// must present the same one.
    pub config: u64,
    /// Correlation identifier chosen by the caller, linking submit and
    /// callback.
    pub computation_offset: u64,
    /// What the trader paid in, recorded only once `Executed`.
    pub applied_deposit: u64,
    /// What the pool paid out, recorded only once `Executed`.
    pub applied_withdraw: u64,
    pub status: SwapStatus,
    /// Submit time, as the caller's clock reported it.
    pub created_at: i64,
}

impl SwapState {
    /// The request invariant: nothing is applied before the request is
    /// `Executed`.
    pub open spec fn wf(self) -> bool {
        self.status != SwapStatus::Executed
            ==> self.applied_deposit == 0 && self.applied_withdraw == 0
    }
}

/// Whether the pending slot is occupied by a request that is still in
/// flight.  A terminal request does not block a new submit.
pub open spec fn has_pending(slot: Option<SwapState>) -> bool {
    slot matches Some(s) && !is_terminal(s.status)
}

/// Whether a callback for `computation_offset`, presented with the pool
/// configuration `config_key`, may resolve the slot: the pending request
/// must exist, carry the same correlation identifier and configuration, and
/// still await its result.
pub open spec fn callback_accepts(
    slot: Option<SwapState>,
    config_key: u64,
    computation_offset: u64,
) -> bool {
    slot matches Some(s) && s.computation_offset == computation_offset && s.config == config_key
        && s.status == SwapStatus::Computing
}

/// Everything the computation boundary needs for one confidential swap: the
/// encrypted amount with its encryption context, passed through untouched,
/// and the snapshot of the pool's public state taken at submit time.  The
/// trade price is fixed by this snapshot, not by the reserves at apply time.
#[derive(Clone, Copy, Debug)]
pub struct SwapJob {
    pub computation_offset: u64,
    /// The trader's public key for the shared encryption context.
    pub pub_key: [u8; 32],
    /// The nonce of the encryption context.
    pub nonce: u128,
    /// The encrypted trade amount; opaque to everything but the boundary.
    pub encrypted_amount: [u8; 32],
    pub reserve_x: u64,
    pub reserve_y: u64,
    pub lp_supply: u64,
    pub fee: u16,
}

/// What the boundary delivers: a result payload, or an abort signal.
#[derive(Debug)]
pub enum ComputationOutput {
    /// The re-encrypted circuit result, decoded by the callback as two
    /// little-endian 8-byte unsigned integers: the deposit amount, then the
    /// withdraw amount.
    Success(Vec<u8>),
    Aborted,
}

/// What a successful callback asks the surroundings to do.
#[derive(Clone, Copy, Debug, PartialEq, Eq, Structural)]
pub enum CallbackAction {
    /// Transfer `deposit_amount` of X from the trader to the pool and
    /// `withdraw_amount` of Y from the pool to the trader, as one atomic
    /// unit with the recorded state change.
    Applied { deposit_amount: u64, withdraw_amount: u64 },
    /// The circuit's slippage guard zeroed the withdrawal: the request
    /// failed, and nothing is transferred.
    SlippageFailed,
}

/// Submit a confidential swap.
///
/// On a lockable pool the submit refuses first: a locked pool creates no
/// request at all, and a slot still occupied by an in-flight request refuses
/// a duplicate.  Otherwise the request is created, advanced to `Computing`
/// as it is handed off, and the returned job carries the ciphertext plus the
/// snapshot of the pool's public state for the boundary.
pub fn compute_swap(
    config: &Config,
    config_key: u64,
    slot: &mut Option<SwapState>,
    user: u64,
    computation_offset: u64,
    pub_key: [u8; 32],
    nonce: u128,
    encrypted_amount: [u8; 32],
    reserve_x: u64,
    reserve_y: u64,
    lp_supply: u64,
    created_at: i64,
) -> (r: Result<SwapJob, ErrorCode>)
    requires
        (*old(slot)) matches Some(s) ==> s.wf(),
    ensures
        config.locked ==> r == Err::<SwapJob, ErrorCode>(ErrorCode::PoolLocked)
            && *final(slot) == *old(slot),
        !config.locked && has_pending(*old(slot))
            ==> r == Err::<SwapJob, ErrorCode>(ErrorCode::DuplicateComputation)
            && *final(slot) == *old(slot),
        !config.locked && !has_pending(*old(slot)) ==> (r matches Ok(job)
            && job.computation_offset == computation_offset
            && job.pub_key == pub_key
            && job.nonce == nonce
            && job.encrypted_amount == encrypted_amount
            && job.reserve_x == reserve_x
            && job.reserve_y == reserve_y
            && job.lp_supply == lp_supply
            && job.fee == config.fee
            && *final(slot) == Some(SwapState {
            user,
            config: config_key,
            computation_offset,
            applied_deposit: 0,
            applied_withdraw: 0,
            status: SwapStatus::Computing,
            created_at,
        })),
        (*final(slot)) matches Some(s) ==> s.wf(),
{
    if config.locked {
        return Err(ErrorCode::PoolLocked);
    }
    match &*slot {
        Some(s) => {
            if !(s.status == SwapStatus::Executed || s.status == SwapStatus::Failed) {
                return Err(ErrorCode::DuplicateComputation);
            }
        },
        None => {},
    }
    let mut request = SwapState {
        user,
        config: config_key,
        computation_offset,
        applied_deposit: 0,
        applied_withdraw: 0,
        status: SwapStatus::Initiated,
        created_at,
    };
    // The hand-off to the boundary travels with the returned job; the
    // request advances to `Computing` as the submit completes.
    request.status = SwapStatus::Computing;
    *slot = Some(request);
    Ok(SwapJob {
        computation_offset,
        pub_key,
        nonce,
        encrypted_amount,
        reserve_x,
        reserve_y,
        lp_supply,
        fee: config.fee,
    })
}

/// The unsigned 64-bit value that eight little-endian bytes of `bytes`
/// encode, starting at `offset`.
pub open spec fn spec_u64_le(bytes: Seq<u8>, offset: int) -> int
    recommends
        0 <= offset,
        offset + 8 <= bytes.len(),
{
    bytes[offset] + bytes[offset + 1] * 0x100 + bytes[offset + 2] * 0x1_0000
        + bytes[offset + 3] * 0x100_0000 + bytes[offset + 4] * 0x1_0000_0000
        + bytes[offset + 5] * 0x100_0000_0000 + bytes[offset + 6] * 0x1_0000_0000_0000
        + bytes[offset + 7] * 0x100_0000_0000_0000
}

/// Decode eight little-endian bytes into the unsigned value they encode.
fn u64_from_le(bytes: &Vec<u8>, offset: usize) -> (r: u64)
    requires
        offset + 8 <= bytes@.len(),
    ensures
        r as int == spec_u64_le(bytes@, offset as int),
{
    let len: usize = bytes.len();
    assert(offset + 8 <= len);
    (bytes[offset] as u64) + (bytes[offset + 1] as u64) * 0x100
        + (bytes[offset + 2] as u64) * 0x1_0000 + (bytes[offset + 3] as u64) * 0x100_0000
        + (bytes[offset + 4] as u64) * 0x1_0000_0000 + (bytes[offset + 5] as u64) * 0x100_0000_0000
        + (bytes[offset + 6] as u64) * 0x1_0000_0000_0000
        + (bytes[offset + 7] as u64) * 0x100_0000_0000_0000
}

/// The terminal record that resolving request `s` with `output` leaves
/// behind: `Executed` with both decoded amounts recorded when the result is
/// well formed and orders transfers, `Failed` with nothing applied on an
/// abort, a malformed payload (too short, or a vanished deposit), or a
/// withdrawal zeroed by the circuit's slippage guard.
pub open spec fn spec_resolved_state(s: SwapState, output: ComputationOutput) -> SwapState {
    match output {
        ComputationOutput::Aborted => SwapState { status: SwapStatus::Failed, ..s },
        ComputationOutput::Success(bytes) => {
            if bytes@.len() < 16 || spec_u64_le(bytes@, 0) == 0 || spec_u64_le(bytes@, 8) == 0 {
                SwapState { status: SwapStatus::Failed, ..s }
            } else {
                SwapState {
                    status: SwapStatus::Executed,
                    applied_deposit: spec_u64_le(bytes@, 0) as u64,
                    applied_withdraw: spec_u64_le(bytes@, 8) as u64,
                    ..s
                }
            }
        },
    }
}

/// What resolving an accepted delivery returns to the caller: the abort and
/// the malformed payload surface as errors, the slippage guard as a no-op
/// action, and a well-formed result as the two transfers to issue.
pub open spec fn spec_callback_result(output: ComputationOutput) -> Result<
    CallbackAction,
    ErrorCode,
> {
    match output {
        ComputationOutput::Aborted => Err(ErrorCode::AbortedComputation),
        ComputationOutput::Success(bytes) => {
            if bytes@.len() < 16 {
                Err(ErrorCode::InvalidAmount)
            } else if spec_u64_le(bytes@, 0) == 0 && spec_u64_le(bytes@, 8) > 0 {
                Err(ErrorCode::InvalidAmount)
            } else if spec_u64_le(bytes@, 8) == 0 {
                Ok(CallbackAction::SlippageFailed)
            } else {
                Ok(CallbackAction::Applied {
                    deposit_amount: spec_u64_le(bytes@, 0) as u64,
                    withdraw_amount: spec_u64_le(bytes@, 8) as u64,
                })
            }
        },
    }
}

/// Resolve a pending confidential swap with what the boundary delivered.
///
/// The callback identifies its request by the correlation identifier and
/// must present the pool configuration recorded at submit time; a delivery
/// for an unknown, mismatched or already-resolved request changes nothing.
/// An accepted delivery always leaves the request terminal: `Executed` with
/// the two amounts recorded exactly when a well-formed result orders the
/// transfers, `Failed` — with nothing applied and nothing to transfer — on
/// an abort, a malformed payload, or a withdrawal zeroed by the circuit's
/// slippage guard.
pub fn compute_swap_callback(
    slot: &mut Option<SwapState>,
    config_key: u64,
    computation_offset: u64,
    output: ComputationOutput,
) -> (r: Result<CallbackAction, ErrorCode>)
    requires
        (*old(slot)) matches Some(s) ==> s.wf(),
    ensures
        // An unknown or mismatched correlation identifier, or a request no
        // longer awaiting a result, refuses the delivery untouched.
        ((*old(slot)) is None || ((*old(slot)) matches Some(s)
            && s.computation_offset != computation_offset))
            ==> r == Err::<CallbackAction, ErrorCode>(ErrorCode::ReplayedCallback)
            && *final(slot) == *old(slot),
        (*old(slot)) matches Some(s) ==> ((s.computation_offset == computation_offset
            && s.config != config_key)
            ==> r == Err::<CallbackAction, ErrorCode>(ErrorCode::InvalidAuthority)
            && *final(slot) == *old(slot)),
        (*old(slot)) matches Some(s) ==> ((s.computation_offset == computation_offset
            && s.config == config_key && s.status != SwapStatus::Computing)
            ==> r == Err::<CallbackAction, ErrorCode>(ErrorCode::ReplayedCallback)
            && *final(slot) == *old(slot)),
        // An accepted delivery resolves the request: the caller gets
        // exactly what the transition function says, and the request is
        // left in the terminal record it prescribes.
        callback_accepts(*old(slot), config_key, computation_offset)
            ==> ((*final(slot)) matches Some(s2) && is_terminal(s2.status)),
        (*old(slot)) matches Some(s) ==> (callback_accepts(
            *old(slot),
            config_key,
            computation_offset,
        ) ==> r == spec_callback_result(output)
            && *final(slot) == Some(spec_resolved_state(s, output))),
        (*final(slot)) matches Some(s2) ==> s2.wf(),
{
    let st = match &*slot {
        Some(s) => *s,
        None => {
            return Err(ErrorCode::ReplayedCallback);
        },
    };
    if st.computation_offset != computation_offset {
        return Err(ErrorCode::ReplayedCallback);
    }
    if st.config != config_key {
        return Err(ErrorCode::InvalidAuthority);
    }
    if st.status != SwapStatus::Computing {
        return Err(ErrorCode::ReplayedCallback);
    }
    let bytes = match output {
        ComputationOutput::Aborted => {
            *slot = Some(SwapState { status: SwapStatus::Failed, ..st });
            return Err(ErrorCode::AbortedComputation);
        },
        ComputationOutput::Success(bytes) => bytes,
    };
    if bytes.len() < 16 {
        *slot = Some(SwapState { status: SwapStatus::Failed, ..st });
        return Err(ErrorCode::InvalidAmount);
    }
    let deposit_amount = u64_from_le(&bytes, 0);
    let withdraw_amount = u64_from_le(&bytes, 8);
    // A result whose deposit vanished while a withdrawal remains is
    // malformed: the circuit always deposits the full offered amount.
    if !(deposit_amount > 0 || withdraw_amount == 0) {
        *slot = Some(SwapState { status: SwapStatus::Failed, ..st });
        return Err(ErrorCode::InvalidAmount);
    }
    // A zero withdrawal is the circuit's slippage guard: the request fails
    // with no transfers, and resubmitting is the caller's policy.
    if withdraw_amount == 0 {
        *slot = Some(SwapState { status: SwapStatus::Failed, ..st });
        return Ok(CallbackAction::SlippageFailed);
    }
    *slot = Some(SwapState {
        status: SwapStatus::Executed,
        applied_deposit: deposit_amount,
        applied_withdraw: withdraw_amount,
        ..st
    });
    Ok(CallbackAction::Applied { deposit_amount, withdraw_amount })
}

/// Whether the pending request is a hung computation: still `Computing`
/// with `timeout` or more elapsed since it was created.
pub open spec fn computing_expired(
    slot: Option<SwapState>,
    now: i64,
    timeout: i64,
) -> bool {
    slot matches Some(s) && s.status == SwapStatus::Computing && s.created_at + timeout <= now
}

/// Reap a hung computation.  There is no cancel path once a request enters
/// `Computing`, so a boundary that never answers would occupy the slot
/// forever; once `timeout` has elapsed since the request was created it is
/// reaped to `Failed` — nothing was applied, and the caller resubmits with
/// a fresh correlation identifier.  Returns whether a request was reaped;
/// anything other than an expired `Computing` request is left untouched.
pub fn expire_computation(slot: &mut Option<SwapState>, now: i64, timeout: i64) -> (reaped: bool)
    requires
        (*old(slot)) matches Some(s) ==> s.wf(),
        timeout >= 0,
    ensures
        reaped <==> computing_expired(*old(slot), now, timeout),
        (*old(slot)) matches Some(s) ==> (reaped
            ==> *final(slot) == Some((SwapState { status: SwapStatus::Failed, ..s }))),
        !reaped ==> *final(slot) == *old(slot),
        (*final(slot)) matches Some(s2) ==> s2.wf(),
{
    let st = match &*slot {
        Some(s) => *s,
        None => {
            return false;
        },
    };
    if st.status != SwapStatus::Computing {
        return false;
    }
    if (st.created_at as i128) + (timeout as i128) <= (now as i128) {
        *slot = Some(SwapState { status: SwapStatus::Failed, ..st });
        return true;
    }
    false
}

/// A callback's transfer effect is applied at most once per correlation
/// identifier: an accepted delivery leaves the request terminal, and a
/// terminal request accepts no delivery — by the callback's contract a
/// second delivery is refused with a replay error and changes nothing.
pub proof fn lemma_callback_applies_at_most_once(
    s: SwapState,
    config_key: u64,
    computation_offset: u64,
)
    requires
        is_terminal(s.status),
    ensures
        !callback_accepts(Some(s), config_key, computation_offset),
{
}

} // verus!
