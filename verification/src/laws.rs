//! What holds of the deriver and of the vault lifecycle on every input,
//! stated over the same functions that the operations' contracts use.

use vstd::prelude::*;
use crate::address::address_view_is_injective;
use crate::deriver::{address_outcome, derivation, derive_result, ProofView, VaultAddress};
use crate::error::VaultError;
use crate::vault::{
    deposit_result, deposit_state, withdraw_result, withdraw_state, TransferView, VaultState,
    VaultView, WithdrawalView,
};

verus! {

/// Deriving is deterministic: two derivations for the same program and
/// owner give the same answer, address and bump alike.
pub proof fn derivation_is_deterministic(
    program: Seq<u8>,
    owner: Seq<u8>,
    first: Result<VaultAddress, VaultError>,
    second: Result<VaultAddress, VaultError>,
)
    requires
        address_outcome(first) == derive_result(program, owner),
        address_outcome(second) == derive_result(program, owner),
    ensures
        first == second,
{
    if first is Ok {
        address_view_is_injective(first->Ok_0.address, second->Ok_0.address);
    }
}

/// A first deposit above the floor funds the vault with exactly the amount,
/// and every deposit after it, before a withdrawal, is refused as already
/// funded and changes nothing.
///
/// Holds where the vault's address derives and the owner holds the amount.
pub proof fn deposit_funds_the_vault_once(
    v: VaultView,
    amount: u64,
    floor: u64,
    next_amount: u64,
    next_floor: u64,
)
    requires
        v.state() == VaultState::Absent,
        amount > floor,
        derivation(v.program, v.owner) is Some,
        v.owner_balance >= amount,
    ensures
        deposit_result(v, amount, floor) is Ok,
        deposit_state(v, amount, floor).state() == VaultState::Funded,
        deposit_state(v, amount, floor).vault_balance == amount,
        deposit_result(deposit_state(v, amount, floor), next_amount, next_floor) == Err::<
            TransferView,
            VaultError,
        >(VaultError::VaultAlreadyFunded),
        deposit_state(deposit_state(v, amount, floor), next_amount, next_floor) == deposit_state(
            v,
            amount,
            floor,
        ),
{
}

/// A deposit that does not exceed the floor is refused as an invalid amount:
/// no vault comes into being and no balance changes.
///
/// Holds where the vault's address derives and the vault is absent.
pub proof fn deposit_at_or_below_floor_is_refused(v: VaultView, amount: u64, floor: u64)
    requires
        0 < amount <= floor,
        derivation(v.program, v.owner) is Some,
        v.state() == VaultState::Absent,
    ensures
        deposit_result(v, amount, floor) == Err::<TransferView, VaultError>(
            VaultError::InvalidAmount,
        ),
        deposit_state(v, amount, floor) == v,
        deposit_state(v, amount, floor).state() == VaultState::Absent,
{
}

/// After an accepted deposit, a withdrawal is accepted, moves exactly the
/// deposited amount from the vault to the owner under a proof that
/// authorises the vault, closes the vault, and leaves it absent; the owner
/// then holds what the owner held before the deposit, and a further
/// withdrawal is refused for want of funds.
pub proof fn withdrawal_returns_the_deposit(v: VaultView, amount: u64, floor: u64)
    requires
        deposit_result(v, amount, floor) is Ok,
    ensures
        withdraw_result(deposit_state(v, amount, floor)) matches Ok(w) && {
            &&& w.transfer.amount == amount
            &&& w.transfer.to == v.owner
            &&& w.transfer.from == deposit_result(v, amount, floor)->Ok_0.to
            &&& w.transfer.proof matches Some(proof) && proof.authorises(v.program, w.transfer.from)
            &&& w.close.account == w.transfer.from
            &&& w.close.refund_to == v.owner
        },
        withdraw_state(deposit_state(v, amount, floor)).state() == VaultState::Absent,
        withdraw_state(deposit_state(v, amount, floor)).owner_balance == v.owner_balance,
        withdraw_result(withdraw_state(deposit_state(v, amount, floor))) == Err::<
            WithdrawalView,
            VaultError,
        >(VaultError::NoFundsToWithdraw),
{
}

/// How much a withdrawal with the given answer moves out of the vault.
pub open spec fn moved_out(answer: Result<WithdrawalView, VaultError>) -> nat {
    match answer {
        Ok(w) => w.transfer.amount,
        Err(_) => 0,
    }
}

/// Of two withdrawals against one funded vault, taken in either order, the
/// one that comes first moves the whole balance and the other is refused
/// for want of funds and changes nothing: the two together never move more
/// than the vault held.
///
/// Holds where the vault's address derives.
pub proof fn only_one_withdrawal_succeeds(v: VaultView)
    requires
        v.state() == VaultState::Funded,
        derivation(v.program, v.owner) is Some,
    ensures
        withdraw_result(v) matches Ok(w) && w.transfer.amount == v.vault_balance,
        withdraw_result(withdraw_state(v)) == Err::<WithdrawalView, VaultError>(
            VaultError::NoFundsToWithdraw,
        ),
        withdraw_state(withdraw_state(v)) == withdraw_state(v),
        moved_out(withdraw_result(v)) + moved_out(withdraw_result(withdraw_state(v)))
            == v.vault_balance,
{
}

/// A refused operation leaves every balance as it was, and an accepted one
/// only moves funds between the owner and the vault: what the two hold
/// together never changes.
pub proof fn operations_conserve_funds(v: VaultView, amount: u64, floor: u64)
    ensures
        deposit_result(v, amount, floor) is Err ==> deposit_state(v, amount, floor) == v,
        withdraw_result(v) is Err ==> withdraw_state(v) == v,
        deposit_state(v, amount, floor).total() == v.total(),
        withdraw_state(v).total() == v.total(),
        v.well_formed() ==> deposit_state(v, amount, floor).well_formed(),
        v.well_formed() ==> withdraw_state(v).well_formed(),
{
}

/// Funds only ever move between the owner and the vault derived from the
/// owner. An accepted deposit pays from the owner into that vault, signed
/// by the owner. An accepted withdrawal pays from that vault to the owner
/// under a proof that reproduces the vault's address, and closes that vault
/// in the owner's favour.
pub proof fn funds_move_between_owner_and_derived_vault(v: VaultView, amount: u64, floor: u64)
    ensures
        deposit_result(v, amount, floor) matches Ok(transfer) ==> {
            &&& derivation(v.program, v.owner) matches Some((vault, _)) && transfer.to == vault
            &&& transfer.from == v.owner
            &&& transfer.amount == amount
            &&& transfer.proof is None
        },
        withdraw_result(v) matches Ok(w) ==> {
            &&& derivation(v.program, v.owner) matches Some((vault, bump)) && {
                &&& w.transfer.from == vault
                &&& w.close.account == vault
                &&& w.transfer.proof == Some(ProofView { owner: v.owner, bump })
                &&& (ProofView { owner: v.owner, bump }).authorises(v.program, vault)
            }
            &&& w.transfer.to == v.owner
            &&& w.close.refund_to == v.owner
            &&& w.transfer.amount == v.vault_balance
        },
{
}

} // verus!
