//! A constant-product automated market maker with a confidential swap path.
//!
//! The crate is the decision core of the market maker: the integer-only
//! constant-product arithmetic, the pool configuration and ledger with their
//! invariants, the cleartext body of the confidential swap circuit, the
//! request/response state machine that carries a confidential swap across the
//! asynchronous boundary to the computation service, and the registry that
//! keys such requests by their correlation identifier.  Everything that
//! touches accounts, token transfers or the computation network stays outside
//! and exchanges plain values with these modules.

pub mod circuit;
pub mod coordinator;
pub mod errors;
pub mod math;
pub mod pool;
pub mod registry;
