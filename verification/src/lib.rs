//! A custodial vault: one escrow account per owner, at an address derived
//! from the owner's identity, that takes a single deposit and gives it back
//! in full on withdrawal.
//!
//! The library decides; it never touches a ledger. Every operation works on
//! the balances it was handed and returns the movement the ledger has to
//! carry out.

pub mod address;
pub mod deriver;
pub mod error;
pub mod laws;
pub mod vault;

pub use address::Address;
pub use deriver::{resolve, DerivationProof, VaultAddress, VAULT_TAG};
pub use error::VaultError;
pub use vault::{
    deposit, deposit_into, withdraw, withdraw_from, Close, Transfer, VaultAction, VaultState,
    Withdrawal,
};
