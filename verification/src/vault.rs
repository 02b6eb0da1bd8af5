//! The vault lifecycle: deposit into an absent vault, withdraw a funded one
//! in full, nothing else.
//!
//! An operation is handed the balances of the two accounts it may touch. It
//! either refuses and leaves them as they were, or answers with the movement
//! the ledger must carry out and with the balances as they stand once it
//! has.

use vstd::prelude::*;
use crate::address::Address;
use crate::deriver::{derivation, DerivationProof, ProofView, VaultAddress};
use crate::error::VaultError;

verus! {

/// The two states of an owner's vault.
#[derive(Clone, Copy, Debug, PartialEq, Eq, Structural)]
pub enum VaultState {
    /// No account exists at the vault's address: it holds nothing.
    Absent,
    /// The vault holds a deposit.
    Funded,
}

/// What a vault operation works on, as plain values.
pub struct VaultView {
    /// The program under which vault addresses are derived.
    pub program: Seq<u8>,
    /// The owner's identity.
    pub owner: Seq<u8>,
    /// What the owner's own account holds.
    pub owner_balance: nat,
    /// What the owner's vault holds.
    pub vault_balance: nat,
}

impl VaultView {
    /// The state of the vault.
    pub open spec fn state(self) -> VaultState {
        if self.vault_balance == 0 {
            VaultState::Absent
        } else {
            VaultState::Funded
        }
    }

    /// Everything the two accounts hold together.
    pub open spec fn total(self) -> nat {
        self.owner_balance + self.vault_balance
    }

    /// Both balances belong to one ledger, which counts its whole supply in
    /// a `u64`.
    pub open spec fn well_formed(self) -> bool {
        self.total() <= u64::MAX
    }

    /// The balances once `amount` has gone from the owner to the vault.
    pub open spec fn paid_in(self, amount: nat) -> VaultView {
        VaultView {
            owner_balance: (self.owner_balance - amount) as nat,
            vault_balance: self.vault_balance + amount,
            ..self
        }
    }

    /// The balances once the vault has paid out all it holds and is closed.
    pub open spec fn paid_out(self) -> VaultView {
        VaultView { owner_balance: self.owner_balance + self.vault_balance, vault_balance: 0, ..self }
    }
}

/// A movement of funds for the ledger to carry out.
#[derive(Clone, Copy, Debug, PartialEq, Eq)]
pub struct Transfer {
    /// The account that pays.
    pub from: Address,
    /// The account that receives.
    pub to: Address,
    /// How much moves.
    pub amount: u64,
    /// `None` where the paying account signs for itself; the derivation
    /// proof where the paying account is a vault, which has no key.
    pub proof: Option<DerivationProof>,
}

/// A transfer as plain values.
pub struct TransferView {
    pub from: Seq<u8>,
    pub to: Seq<u8>,
    pub amount: nat,
    pub proof: Option<ProofView>,
}

impl View for Transfer {
    type V = TransferView;

    open spec fn view(&self) -> TransferView {
        TransferView {
            from: self.from@,
            to: self.to@,
            amount: self.amount as nat,
            proof: match self.proof {
                Some(proof) => Some(proof@),
                None => None,
            },
        }
    }
}

/// The removal of an emptied account, whatever is left in it going to
/// `refund_to`.
#[derive(Clone, Copy, Debug, PartialEq, Eq)]
pub struct Close {
    pub account: Address,
    pub refund_to: Address,
}

/// A closure as plain values.
pub struct CloseView {
    pub account: Seq<u8>,
    pub refund_to: Seq<u8>,
}

impl View for Close {
    type V = CloseView;

    open spec fn view(&self) -> CloseView {
        CloseView { account: self.account@, refund_to: self.refund_to@ }
    }
}

/// What a withdrawal asks of the ledger: the transfer and the closure, to be
/// carried out together or not at all.
#[derive(Clone, Copy, Debug, PartialEq, Eq)]
pub struct Withdrawal {
    pub transfer: Transfer,
    pub close: Close,
}

/// A withdrawal as plain values.
pub struct WithdrawalView {
    pub transfer: TransferView,
    pub close: CloseView,
}

impl View for Withdrawal {
    type V = WithdrawalView;

    open spec fn view(&self) -> WithdrawalView {
        WithdrawalView { transfer: self.transfer@, close: self.close@ }
    }
}

/// Why a deposit of `amount` is refused where the ledger's floor is `floor`,
/// or `None` where it is accepted.
///
/// The checks come in this order: the vault must be absent, the amount must
/// exceed the floor, the owner must hold the amount.
pub open spec fn deposit_refusal(v: VaultView, amount: u64, floor: u64) -> Option<VaultError> {
    if v.vault_balance != 0 {
        Some(VaultError::VaultAlreadyFunded)
    } else if amount == 0 || amount <= floor {
        Some(VaultError::InvalidAmount)
    } else if v.owner_balance < amount {
        Some(VaultError::InsufficientFunds)
    } else {
        None
    }
}

/// The answer to a deposit into the vault at `vault`: the refusal, or the
/// transfer of `amount` from the owner to the vault, signed by the owner.
pub open spec fn deposit_result_at(v: VaultView, vault: Seq<u8>, amount: u64, floor: u64) -> Result<
    TransferView,
    VaultError,
> {
    match deposit_refusal(v, amount, floor) {
        Some(e) => Err(e),
        None => Ok(TransferView { from: v.owner, to: vault, amount: amount as nat, proof: None }),
    }
}

/// The answer to a deposit: the address must derive, and the rest is the
/// answer to a deposit into the vault at the derived address.
pub open spec fn deposit_result(v: VaultView, amount: u64, floor: u64) -> Result<
    TransferView,
    VaultError,
> {
    match derivation(v.program, v.owner) {
        None => Err(VaultError::DerivationExhausted),
        Some((vault, _)) => deposit_result_at(v, vault, amount, floor),
    }
}

/// The balances after a deposit into a given vault: moved where the deposit
/// is accepted, untouched where it is refused.
pub open spec fn deposit_state_at(v: VaultView, amount: u64, floor: u64) -> VaultView {
    if deposit_refusal(v, amount, floor) is None {
        v.paid_in(amount as nat)
    } else {
        v
    }
}

/// The balances after a deposit: untouched where the address does not
/// derive, else as after a deposit into the vault at the derived address.
pub open spec fn deposit_state(v: VaultView, amount: u64, floor: u64) -> VaultView {
    if derivation(v.program, v.owner) is Some {
        deposit_state_at(v, amount, floor)
    } else {
        v
    }
}

/// Why a withdrawal is refused, or `None` where it is accepted: the vault
/// must hold something.
pub open spec fn withdraw_refusal(v: VaultView) -> Option<VaultError> {
    if v.vault_balance == 0 {
        Some(VaultError::NoFundsToWithdraw)
    } else {
        None
    }
}

/// The answer to a withdrawal from the vault at `vault`, derived with
/// `bump`: the refusal, or all that the vault holds going to the owner under
/// the derivation proof, and the vault closed.
pub open spec fn withdraw_result_at(v: VaultView, vault: Seq<u8>, bump: u8) -> Result<
    WithdrawalView,
    VaultError,
> {
    match withdraw_refusal(v) {
        Some(e) => Err(e),
        None => Ok(
            WithdrawalView {
                transfer: TransferView {
                    from: vault,
                    to: v.owner,
                    amount: v.vault_balance,
                    proof: Some(ProofView { owner: v.owner, bump }),
                },
                close: CloseView { account: vault, refund_to: v.owner },
            },
        ),
    }
}

/// The answer to a withdrawal: the address must derive, and the rest is the
/// answer to a withdrawal from the vault at the derived address.
pub open spec fn withdraw_result(v: VaultView) -> Result<WithdrawalView, VaultError> {
    match derivation(v.program, v.owner) {
        None => Err(VaultError::DerivationExhausted),
        Some((vault, bump)) => withdraw_result_at(v, vault, bump),
    }
}

/// The balances after a withdrawal from a given vault: the vault emptied
/// into the owner's account where it is accepted, untouched where it is
/// refused.
pub open spec fn withdraw_state_at(v: VaultView) -> VaultView {
    if withdraw_refusal(v) is None {
        v.paid_out()
    } else {
        v
    }
}

/// The balances after a withdrawal: untouched where the address does not
/// derive, else as after a withdrawal from the vault at the derived address.
pub open spec fn withdraw_state(v: VaultView) -> VaultView {
    if derivation(v.program, v.owner) is Some {
        withdraw_state_at(v)
    } else {
        v
    }
}

/// The answer of a deposit as plain values.
pub open spec fn transfer_outcome(outcome: Result<Transfer, VaultError>) -> Result<
    TransferView,
    VaultError,
> {
    match outcome {
        Ok(transfer) => Ok(transfer@),
        Err(e) => Err(e),
    }
}

/// The answer of a withdrawal as plain values.
pub open spec fn withdrawal_outcome(outcome: Result<Withdrawal, VaultError>) -> Result<
    WithdrawalView,
    VaultError,
> {
    match outcome {
        Ok(withdrawal) => Ok(withdrawal@),
        Err(e) => Err(e),
    }
}

/// The accounts of one owner's vault as an operation sees them: who the
/// owner is, under which program the vault address is derived, and what the
/// owner's account and the vault hold.
#[derive(Clone, Copy, Debug, PartialEq, Eq)]
pub struct VaultAction {
    program: Address,
    owner: Address,
    owner_balance: u64,
    vault_balance: u64,
}

impl View for VaultAction {
    type V = VaultView;

    closed spec fn view(&self) -> VaultView {
        VaultView {
            program: self.program@,
            owner: self.owner@,
            owner_balance: self.owner_balance as nat,
            vault_balance: self.vault_balance as nat,
        }
    }
}

impl VaultAction {
    #[verifier::type_invariant]
    spec fn balances_fit(self) -> bool {
        self.owner_balance + self.vault_balance <= u64::MAX
    }

    /// The accounts with the balances the ledger reports for them. `None`
    /// where the two balances together exceed what one ledger can hold.
    pub fn new(program: Address, owner: Address, owner_balance: u64, vault_balance: u64) -> (ctx:
        Option<VaultAction>)
        ensures
            ctx is Some <==> owner_balance + vault_balance <= u64::MAX,
            ctx matches Some(c) ==> c@.well_formed() && c@ == (VaultView {
                program: program@,
                owner: owner@,
                owner_balance: owner_balance as nat,
                vault_balance: vault_balance as nat,
            }),
    {
        if owner_balance <= u64::MAX - vault_balance {
            Some(VaultAction { program, owner, owner_balance, vault_balance })
        } else {
            None
        }
    }

    /// The program under which the vault's address is derived.
    pub fn program(&self) -> (program: Address)
        ensures
            program@ == self@.program,
    {
        self.program
    }

    /// The owner's identity.
    pub fn owner(&self) -> (owner: Address)
        ensures
            owner@ == self@.owner,
    {
        self.owner
    }

    /// What the owner's own account holds.
    pub fn owner_balance(&self) -> (balance: u64)
        ensures
            balance == self@.owner_balance,
            self@.well_formed(),
    {
        proof {
            use_type_invariant(self);
        }
        self.owner_balance
    }

    /// What the vault holds.
    pub fn vault_balance(&self) -> (balance: u64)
        ensures
            balance == self@.vault_balance,
            self@.well_formed(),
    {
        proof {
            use_type_invariant(self);
        }
        self.vault_balance
    }

    /// Whether the vault is absent or funded.
    pub fn state(&self) -> (state: VaultState)
        ensures
            state == self@.state(),
    {
        if self.vault_balance == 0 {
            VaultState::Absent
        } else {
            VaultState::Funded
        }
    }
}

/// Deposits `amount` from the owner's account into the vault at `vault`,
/// the address derived for this owner.
///
/// Accepted only where the vault is absent, the amount exceeds `floor` (the
/// least balance the ledger lets an account live on) and the owner holds
/// the amount. The transfer returned is the one the ledger has to carry out,
/// and `ctx` then holds the balances as they are once it has. A refused
/// deposit changes nothing.
pub fn deposit_into(ctx: &mut VaultAction, vault: &VaultAddress, amount: u64, floor: u64) -> (outcome:
    Result<Transfer, VaultError>)
    ensures
        transfer_outcome(outcome) == deposit_result_at(old(ctx)@, vault.address@, amount, floor),
        final(ctx)@ == deposit_state_at(old(ctx)@, amount, floor),
        final(ctx)@.well_formed(),
{
    proof {
        use_type_invariant(&*ctx);
    }
    if ctx.vault_balance != 0 {
        return Err(VaultError::VaultAlreadyFunded);
    }
    if amount <= floor {
        return Err(VaultError::InvalidAmount);
    }
    if ctx.owner_balance < amount {
        return Err(VaultError::InsufficientFunds);
    }
    let transfer = Transfer { from: ctx.owner, to: vault.address, amount, proof: None };
    *ctx = VaultAction {
        program: ctx.program,
        owner: ctx.owner,
        owner_balance: ctx.owner_balance - amount,
        vault_balance: amount,
    };
    Ok(transfer)
}

/// Deposits `amount` from the owner's account into the owner's vault.
///
/// Derives the vault's address from the owner's identity, then decides as
/// [`deposit_into`] does. Where the address cannot be derived the deposit is
/// refused with `DerivationExhausted`.
pub fn deposit(ctx: &mut VaultAction, amount: u64, floor: u64) -> (outcome: Result<
    Transfer,
    VaultError,
>)
    ensures
        transfer_outcome(outcome) == deposit_result(old(ctx)@, amount, floor),
        final(ctx)@ == deposit_state(old(ctx)@, amount, floor),
        final(ctx)@.well_formed(),
{
    proof {
        use_type_invariant(&*ctx);
    }
    match crate::deriver::derive(&ctx.program, &ctx.owner) {
        Ok(vault) => deposit_into(ctx, &vault, amount, floor),
        Err(e) => Err(e),
    }
}

/// Withdraws all that the vault at `vault` holds to the owner's account and
/// closes the vault. `vault` is the address derived for this owner, with
/// its bump.
///
/// Accepted only where the vault holds something. The withdrawal returned
/// is what the ledger has to carry out, as one step: the transfer of the
/// whole balance, authorised by the derivation proof, and the closure of the
/// vault. `ctx` then holds the balances as they are once it has. A refused
/// withdrawal changes nothing.
pub fn withdraw_from(ctx: &mut VaultAction, vault: &VaultAddress) -> (outcome: Result<
    Withdrawal,
    VaultError,
>)
    ensures
        withdrawal_outcome(outcome) == withdraw_result_at(old(ctx)@, vault.address@, vault.bump),
        final(ctx)@ == withdraw_state_at(old(ctx)@),
        final(ctx)@.well_formed(),
{
    proof {
        use_type_invariant(&*ctx);
    }
    if ctx.vault_balance == 0 {
        return Err(VaultError::NoFundsToWithdraw);
    }
    let amount: u64 = ctx.vault_balance;
    let withdrawal = Withdrawal {
        transfer: Transfer {
            from: vault.address,
            to: ctx.owner,
            amount,
            proof: Some(DerivationProof::new(ctx.owner, vault)),
        },
        close: Close { account: vault.address, refund_to: ctx.owner },
    };
    *ctx = VaultAction {
        program: ctx.program,
        owner: ctx.owner,
        owner_balance: ctx.owner_balance + amount,
        vault_balance: 0,
    };
    Ok(withdrawal)
}

/// Withdraws all that the owner's vault holds to the owner's account and
/// closes the vault.
///
/// Derives the vault's address and bump from the owner's identity, then
/// decides as [`withdraw_from`] does. Where the address cannot be derived
/// the withdrawal is refused with `DerivationExhausted`.
pub fn withdraw(ctx: &mut VaultAction) -> (outcome: Result<Withdrawal, VaultError>)
    ensures
        withdrawal_outcome(outcome) == withdraw_result(old(ctx)@),
        final(ctx)@ == withdraw_state(old(ctx)@),
        final(ctx)@.well_formed(),
{
    proof {
        use_type_invariant(&*ctx);
    }
    match crate::deriver::derive(&ctx.program, &ctx.owner) {
        Ok(vault) => withdraw_from(ctx, &vault),
        Err(e) => Err(e),
    }
}

} // verus!
