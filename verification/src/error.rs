//! The ways a vault operation can be refused.

use vstd::prelude::*;

verus! {

/// Why a deposit, a withdrawal or a derivation was refused.
#[derive(Clone, Copy, Debug, PartialEq, Eq, Structural)]
pub enum VaultError {
    /// The deposit is zero, or does not exceed the ledger's floor.
    InvalidAmount,
    /// The vault already holds a balance.
    VaultAlreadyFunded,
    /// The vault holds nothing.
    NoFundsToWithdraw,
    /// The paying account holds less than the amount to move.
    InsufficientFunds,
    /// No bump yields an address for these seeds.
    DerivationExhausted,
}

} // verus!
