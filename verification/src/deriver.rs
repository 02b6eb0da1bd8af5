//! The address deriver: from an owner's identity to the address of the
//! owner's vault and the bump that makes the derivation valid.

use vstd::prelude::*;
use vstd::slice::slice_to_vec;
use anchor_lang::prelude::Pubkey;
use crate::address::Address;
use crate::error::VaultError;

verus! {

/// The namespace tag of every vault address: the ASCII bytes of `vault`.
pub const VAULT_TAG: [u8; 5] = [0x76, 0x61, 0x75, 0x6c, 0x74];

/// What `Pubkey::try_find_program_address` returns for the given seeds and
/// program: the derived address with its bump, or `None`.
pub uninterp spec fn program_address(seeds: Seq<Seq<u8>>, program: Seq<u8>) -> Option<(Seq<u8>, u8)>;

/// The seeds of an owner's vault: the tag, then the owner's identity.
pub open spec fn vault_seeds(owner: Seq<u8>) -> Seq<Seq<u8>> {
    seq![VAULT_TAG@, owner]
}

/// The vault address of `owner` under `program`, with its bump.
pub open spec fn derivation(program: Seq<u8>, owner: Seq<u8>) -> Option<(Seq<u8>, u8)> {
    program_address(vault_seeds(owner), program)
}

/// What deriving yields for the caller: the address and bump, or the error
/// that stands for an exhausted search.
pub open spec fn derive_result(program: Seq<u8>, owner: Seq<u8>) -> Result<(Seq<u8>, u8), VaultError> {
    match derivation(program, owner) {
        Some(found) => Ok(found),
        None => Err(VaultError::DerivationExhausted),
    }
}

/// A vault's address together with the bump that produced it.
#[derive(Clone, Copy, Debug, PartialEq, Eq)]
pub struct VaultAddress {
    pub address: Address,
    pub bump: u8,
}

impl View for VaultAddress {
    type V = (Seq<u8>, u8);

    open spec fn view(&self) -> (Seq<u8>, u8) {
        (self.address@, self.bump)
    }
}

/// The outcome of a derivation as plain values.
pub open spec fn address_outcome(outcome: Result<VaultAddress, VaultError>) -> Result<(Seq<u8>, u8), VaultError> {
    match outcome {
        Ok(vault) => Ok(vault@),
        Err(e) => Err(e),
    }
}

/// Calls `Pubkey::try_find_program_address` with the two seeds `tag` and
/// `owner`, in that order, and the program `program`.
///
/// Trusted: the result is the one that function gives for these seeds and
/// this program, and it depends on nothing else. The function does not
/// panic: it returns `None` where it finds no bump.
#[verifier::external_body]
fn find_program_address(tag: &[u8; 5], owner: &[u8; 32], program: &[u8; 32]) -> (found: Option<([u8; 32], u8)>)
    ensures
        match found {
            Some((address, bump)) => program_address(seq![tag@, owner@], program@) == Some((address@, bump)),
            None => program_address(seq![tag@, owner@], program@) is None,
        },
{
    let program = Pubkey::new_from_array(*program);
    match Pubkey::try_find_program_address(&[tag.as_slice(), owner.as_slice()], &program) {
        Some((address, bump)) => Some((address.to_bytes(), bump)),
        None => None,
    }
}

/// Turns what the search found into the deriver's answer: the address and
/// bump where there is one, `DerivationExhausted` where there is none.
pub fn resolve(found: Option<([u8; 32], u8)>) -> (outcome: Result<VaultAddress, VaultError>)
    ensures
        match found {
            Some((address, bump)) => outcome == Ok::<VaultAddress, VaultError>(
                VaultAddress { address: Address { bytes: address }, bump },
            ),
            None => outcome == Err::<VaultAddress, VaultError>(VaultError::DerivationExhausted),
        },
{
    match found {
        Some((address, bump)) => Ok(VaultAddress { address: Address::new(address), bump }),
        None => Err(VaultError::DerivationExhausted),
    }
}

/// Derives the vault address of `owner` under `program`.
///
/// The answer depends on the two identities alone, so deriving again gives
/// the same address and the same bump.
pub fn derive(program: &Address, owner: &Address) -> (outcome: Result<VaultAddress, VaultError>)
    ensures
        address_outcome(outcome) == derive_result(program@, owner@),
{
    let tag: [u8; 5] = VAULT_TAG;
    let found = find_program_address(&tag, &owner.bytes, &program.bytes);
    resolve(found)
}

/// The capability that lets a vault move its own funds: the seeds that
/// reproduce its address, which stand in for a signature.
#[derive(Clone, Copy, Debug, PartialEq, Eq)]
pub struct DerivationProof {
    pub owner: Address,
    pub bump: u8,
}

/// A derivation proof as plain values.
pub struct ProofView {
    pub owner: Seq<u8>,
    pub bump: u8,
}

impl ProofView {
    /// The seeds the proof consists of: tag, owner, bump.
    pub open spec fn seeds(self) -> Seq<Seq<u8>> {
        seq![VAULT_TAG@, self.owner, seq![self.bump]]
    }

    /// Whether the proof reproduces `account` under `program`, and so may
    /// move that account's funds.
    pub open spec fn authorises(self, program: Seq<u8>, account: Seq<u8>) -> bool {
        derivation(program, self.owner) == Some((account, self.bump))
    }
}

impl View for DerivationProof {
    type V = ProofView;

    open spec fn view(&self) -> ProofView {
        ProofView { owner: self.owner@, bump: self.bump }
    }
}

impl DerivationProof {
    /// The proof that `vault` was derived from `owner`.
    pub fn new(owner: Address, vault: &VaultAddress) -> (proof: DerivationProof)
        ensures
            proof == (DerivationProof { owner, bump: vault.bump }),
    {
        DerivationProof { owner, bump: vault.bump }
    }

    /// The seeds to hand to the ledger with a transfer out of the vault:
    /// the tag, the owner's identity and the bump, in that order.
    pub fn seeds(&self) -> (seeds: Vec<Vec<u8>>)
        ensures
            seeds@.len() == 3,
            seeds@[0]@ == VAULT_TAG@,
            seeds@[1]@ == self.owner@,
            seeds@[2]@ == seq![self.bump],
            seeds.deep_view() == self@.seeds(),
    {
        let tag: [u8; 5] = VAULT_TAG;
        let bump: [u8; 1] = [self.bump];
        let mut seeds: Vec<Vec<u8>> = Vec::new();
        seeds.push(slice_to_vec(tag.as_slice()));
        seeds.push(slice_to_vec(self.owner.bytes.as_slice()));
        seeds.push(slice_to_vec(bump.as_slice()));
        assert(seeds.deep_view() =~~= self@.seeds());
        seeds
    }
}

} // verus!
