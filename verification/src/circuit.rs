//! The cleartext body of the confidential swap circuit.
//!
//! The computation service decrypts the trader's amount, runs exactly this
//! function over it together with the pool's public reserves, LP supply and
//! fee, and re-encrypts the result under the trader's encryption context.
//! Sharing the one verified arithmetic engine with the public contract is
//! what keeps the two execution environments bit-identical.  A circuit
//! cannot refuse an input, so a trade the formula rejects — a zero amount or
//! an empty reserve — comes back with a zero withdrawal, which the callback
//! resolves as a failed request with no transfers.

use vstd::prelude::*;

verus! {

use crate::math::{spec_swap_output, swap_output};

/// The decrypted circuit input: the trade amount the trader keeps secret.
#[derive(Clone, Copy, Debug, PartialEq, Eq, Structural)]
pub struct SwapAmount {
    pub amount: u64,
}

/// The circuit result, re-encrypted for the trader: what the trader pays in
/// and what the pool pays out.
#[derive(Clone, Copy, Debug, PartialEq, Eq, Structural)]
pub struct SwapResult {
    pub deposit_amount: u64,
    pub withdraw_amount: u64,
}

/// Compute a confidential swap over the decrypted amount.  The deposit is
/// always the full amount offered; the withdrawal is the constant-product
/// output of the shared arithmetic engine, and zero whenever the engine
/// refuses the trade.  The direction is fixed by the input schema: the
/// offered token is always X, the withdrawn token always Y.
pub fn compute_swap(
    swap: SwapAmount,
    vault_x_amount: u64,
    vault_y_amount: u64,
    lp_supply: u64,
    fee: u16,
) -> (r: SwapResult)
    requires
        fee <= 10000,
    ensures
        r.deposit_amount == swap.amount,
        swap.amount > 0 && vault_x_amount > 0 && vault_y_amount > 0 ==> r.withdraw_amount as int
            == spec_swap_output(
            vault_x_amount as int,
            vault_y_amount as int,
            swap.amount as int,
            fee as int,
        ),
        swap.amount == 0 || vault_x_amount == 0 || vault_y_amount == 0
            ==> r.withdraw_amount == 0,
{
    match swap_output(vault_x_amount, vault_y_amount, swap.amount, fee) {
        Ok(out) => SwapResult { deposit_amount: swap.amount, withdraw_amount: out },
        Err(_) => SwapResult { deposit_amount: swap.amount, withdraw_amount: 0 },
    }
}

} // verus!
