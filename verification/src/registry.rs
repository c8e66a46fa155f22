//! The confidential swap registry: pending requests keyed by their
//! correlation identifier.
//!
//! A deployment may keep its one request under a fixed storage key, so that
//! at most one confidential swap is in flight at a time; the functions in
//! `coordinator` are that per-request state machine.  The registry
//! generalizes it: each request lives under its own `computation_id`, so
//! swaps with distinct identifiers can be pending concurrently, while the
//! per-request guarantees — one pending request per
//! identifier, a result applied at most once, terminal records refusing
//! every later delivery — carry over entry by entry.

use vstd::prelude::*;

verus! {

use crate::coordinator::{
    callback_accepts, compute_swap, compute_swap_callback, computing_expired, expire_computation,
    has_pending, spec_callback_result, spec_resolved_state, CallbackAction, ComputationOutput,
    SwapJob, SwapState, SwapStatus,
};
use crate::errors::ErrorCode;
use crate::pool::Config;
use std::collections::HashMap;

broadcast use vstd::std_specs::hash::group_hash_axioms;

/// The entry a map holds for `computation_id`, as the pending slot the
/// per-request state machine sees.
pub open spec fn spec_entry(requests: Map<u64, SwapState>, computation_id: u64) -> Option<
    SwapState,
> {
    if requests.contains_key(computation_id) {
        Some(requests[computation_id])
    } else {
        None
    }
}

/// All pending and resolved confidential swap requests of one deployment,
/// keyed by correlation identifier.
pub struct SwapRegistry {
    requests: HashMap<u64, SwapState>,
}

impl SwapRegistry {
    /// The requests the registry holds, as a map from correlation
    /// identifier to request record.
    pub closed spec fn spec_requests(self) -> Map<u64, SwapState> {
        self.requests@
    }

    /// The registry invariant: every record is well formed and sits under
    /// its own correlation identifier.
    pub open spec fn wf(self) -> bool {
        forall|id: u64| #[trigger] self.spec_requests().contains_key(id)
            ==> self.spec_requests()[id].wf() && self.spec_requests()[id].computation_offset == id
    }

    /// An empty registry: no request pending, none resolved.
    pub fn new() -> (r: SwapRegistry)
        ensures
            r.spec_requests() == Map::<u64, SwapState>::empty(),
            r.wf(),
    {
        SwapRegistry { requests: HashMap::new() }
    }

    /// The record under `computation_id`, if any.
    pub fn status_of(&self, computation_id: u64) -> (r: Option<SwapState>)
        ensures
            r == spec_entry(self.spec_requests(), computation_id),
    {
        match self.requests.get(&computation_id) {
            Some(s) => Some(*s),
            None => None,
        }
    }

    /// Submit a confidential swap under its own correlation identifier:
    /// the per-request submit, applied to this identifier's entry.  A
    /// locked pool records nothing; an identifier whose request is still in
    /// flight refuses the duplicate; and requests under other identifiers
    /// are never touched, so distinct swaps may be pending concurrently.
    pub fn submit(
        &mut self,
        config: &Config,
        config_key: u64,
        user: u64,
        computation_id: u64,
        pub_key: [u8; 32],
        nonce: u128,
        encrypted_amount: [u8; 32],
        reserve_x: u64,
        reserve_y: u64,
        lp_supply: u64,
        created_at: i64,
    ) -> (r: Result<SwapJob, ErrorCode>)
        requires
            old(self).wf(),
        ensures
            final(self).wf(),
            config.locked ==> r == Err::<SwapJob, ErrorCode>(ErrorCode::PoolLocked)
                && final(self).spec_requests() == old(self).spec_requests(),
            !config.locked && has_pending(spec_entry(old(self).spec_requests(), computation_id))
                ==> r == Err::<SwapJob, ErrorCode>(ErrorCode::DuplicateComputation)
                && final(self).spec_requests() == old(self).spec_requests(),
            !config.locked && !has_pending(spec_entry(old(self).spec_requests(), computation_id))
                ==> (r matches Ok(job)
                && job.computation_offset == computation_id
                && job.pub_key == pub_key
                && job.nonce == nonce
                && job.encrypted_amount == encrypted_amount
                && job.reserve_x == reserve_x
                && job.reserve_y == reserve_y
                && job.lp_supply == lp_supply
                && job.fee == config.fee
                && final(self).spec_requests() == old(self).spec_requests().insert(
                computation_id,
                SwapState {
                    user,
                    config: config_key,
                    computation_offset: computation_id,
                    applied_deposit: 0,
                    applied_withdraw: 0,
                    status: SwapStatus::Computing,
                    created_at,
                },
            )),
    {
        let mut slot: Option<SwapState> = match self.requests.get(&computation_id) {
            Some(s) => Some(*s),
            None => None,
        };
        let job = match compute_swap(
            config,
            config_key,
            &mut slot,
            user,
            computation_id,
            pub_key,
            nonce,
            encrypted_amount,
            reserve_x,
            reserve_y,
            lp_supply,
            created_at,
        ) {
            Ok(job) => job,
            Err(e) => {
                return Err(e);
            },
        };
        if let Some(s) = slot {
            self.requests.insert(computation_id, s);
        }
        Ok(job)
    }

    /// Resolve the request under `computation_id` with what the boundary
    /// delivered: the per-request callback, applied to this identifier's
    /// entry.  An unknown identifier or a resolved request refuses the
    /// delivery as a replay, a mismatched configuration as unauthorized,
    /// and every other entry is left exactly as it was.
    pub fn callback(
        &mut self,
        config_key: u64,
        computation_id: u64,
        output: ComputationOutput,
    ) -> (r: Result<CallbackAction, ErrorCode>)
        requires
            old(self).wf(),
        ensures
            final(self).wf(),
            !old(self).spec_requests().contains_key(computation_id)
                ==> r == Err::<CallbackAction, ErrorCode>(ErrorCode::ReplayedCallback)
                && final(self).spec_requests() == old(self).spec_requests(),
            spec_entry(old(self).spec_requests(), computation_id) matches Some(s)
                ==> (s.config != config_key
                ==> r == Err::<CallbackAction, ErrorCode>(ErrorCode::InvalidAuthority)
                && final(self).spec_requests() == old(self).spec_requests()),
            spec_entry(old(self).spec_requests(), computation_id) matches Some(s)
                ==> ((s.config == config_key && s.status != SwapStatus::Computing)
                ==> r == Err::<CallbackAction, ErrorCode>(ErrorCode::ReplayedCallback)
                && final(self).spec_requests() == old(self).spec_requests()),
            spec_entry(old(self).spec_requests(), computation_id) matches Some(s)
                ==> (callback_accepts(Some(s), config_key, computation_id)
                ==> r == spec_callback_result(output)
                && final(self).spec_requests() == old(self).spec_requests().insert(
                computation_id,
                spec_resolved_state(s, output),
            )),
    {
        let mut slot: Option<SwapState> = match self.requests.get(&computation_id) {
            Some(s) => Some(*s),
            None => None,
        };
        let ghost requests_before = self.requests@;
        let r = compute_swap_callback(&mut slot, config_key, computation_id, output);
        if let Some(s) = slot {
            self.requests.insert(computation_id, s);
        }
        proof {
            if !callback_accepts(
                spec_entry(requests_before, computation_id),
                config_key,
                computation_id,
            ) && requests_before.contains_key(computation_id) {
                // A refused delivery wrote the entry back unchanged.
                assert(self.requests@ =~= requests_before);
            }
        }
        r
    }

    /// Reap the request under `computation_id` if it is a hung computation:
    /// the per-request expiry, applied to this identifier's entry.
    pub fn expire(&mut self, computation_id: u64, now: i64, timeout: i64) -> (reaped: bool)
        requires
            old(self).wf(),
            timeout >= 0,
        ensures
            final(self).wf(),
            reaped <==> computing_expired(
                spec_entry(old(self).spec_requests(), computation_id),
                now,
                timeout,
            ),
            !reaped ==> final(self).spec_requests() == old(self).spec_requests(),
            spec_entry(old(self).spec_requests(), computation_id) matches Some(s) ==> (reaped
                ==> final(self).spec_requests() == old(self).spec_requests().insert(
                computation_id,
                (SwapState { status: SwapStatus::Failed, ..s }),
            )),
    {
        let mut slot: Option<SwapState> = match self.requests.get(&computation_id) {
            Some(s) => Some(*s),
            None => None,
        };
        let ghost requests_before = self.requests@;
        let reaped = expire_computation(&mut slot, now, timeout);
        if reaped {
            if let Some(s) = slot {
                self.requests.insert(computation_id, s);
            }
        }
        proof {
            if !reaped {
                assert(self.requests@ =~= requests_before);
            }
        }
        reaped
    }
}

} // verus!
