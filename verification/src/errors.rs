use vstd::prelude::*;

verus! {

/// Why an operation of the market maker was refused.
///
/// Every validation failure is detected before any external transfer is
/// issued, so an error always means that no state was mutated by the
/// operation that reported it (the callback additionally records a terminal
/// `Failed` status for the request it resolves).
#[derive(Clone, Copy, Debug, PartialEq, Eq, Structural)]
pub enum ErrorCode {
    /// The confidential computation signalled failure instead of a result.
    AbortedComputation,
    /// No computation cluster is configured for the deployment.
    ClusterNotSet,
    /// The pool is locked; no deposit, withdrawal or swap may mutate it.
    PoolLocked,
    /// A computed amount violates the caller-supplied slippage bound.
    SlippageExceded,
    /// A zero amount, a zero LP supply, or a malformed computation result.
    InvalidAmount,
    /// An administrative operation by anyone but the pool authority, or a
    /// callback whose pool configuration differs from the one recorded at
    /// submit time.
    InvalidAuthority,
    /// A submit while another confidential swap is still pending.
    DuplicateComputation,
    /// A callback for a request that is unknown, does not match the pending
    /// correlation identifier, or was already resolved.
    ReplayedCallback,
    /// Reserves in a state that is unreachable while the pool invariant
    /// holds, such as an empty in-reserve during a swap.
    InvalidReserves,
    /// An intermediate result does not fit the working integer width.
    ArithmeticOverflow,
}

} // verus!
