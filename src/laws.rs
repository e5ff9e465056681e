use vstd::prelude::*;

use crate::escrow::{has_holder, holders_unique, lemma_steps_keep_wf, EscrowView};
use crate::types::{Account, AccountId, Error, EscrowStatus};

verus! {

/// The ledger after a sequence of `add` calls, each given as its caller and
/// an account whose reference, holder, balance and recipient are the call's
/// arguments.
pub open spec fn after_adds(v: EscrowView, calls: Seq<(AccountId, Account)>) -> EscrowView
    decreases calls.len(),
{
    if calls.len() == 0 {
        v
    } else {
        let (caller, a) = calls.last();
        after_adds(v, calls.drop_last()).after_add(
            caller,
            a.reference,
            a.account,
            a.balance,
            a.recipient,
        )
    }
}

/// However many accounts are added, their number never exceeds the capacity,
/// and an `add` that would exceed it is rejected with `EscrowAccountMax`,
/// leaving the accounts as they were.
pub proof fn lemma_capacity_kept(v: EscrowView, calls: Seq<(AccountId, Account)>)
    requires
        v.wf(),
    ensures
        after_adds(v, calls).wf(),
        after_adds(v, calls).accounts.len() <= after_adds(v, calls).maximum_accounts,
        after_adds(v, calls).maximum_accounts == v.maximum_accounts,
    decreases calls.len(),
{
    if calls.len() > 0 {
        let (caller, a) = calls.last();
        let w = after_adds(v, calls.drop_last());
        lemma_capacity_kept(v, calls.drop_last());
        lemma_steps_keep_wf(w, caller, 0, caller, 0, a.reference, a.account, a.balance, a.recipient);
    }
}

/// An `add` by the manager to an open ledger, for a new holder, when the
/// ledger is full, is rejected with `EscrowAccountMax` and changes nothing.
pub proof fn lemma_full_rejects(
    v: EscrowView,
    reference: u16,
    account: AccountId,
    amount: u128,
    recipient: AccountId,
)
    requires
        v.is_open(),
        !has_holder(v.accounts, account),
        v.accounts.len() >= v.maximum_accounts,
    ensures
        v.add_status(v.manager, account) == EscrowStatus::EmitError(Error::EscrowAccountMax),
        v.after_add(v.manager, reference, account, amount, recipient) == v,
{
}

/// Two resets in a row with the same arguments leave the ledger as one does,
/// and report the same outcome.
pub proof fn lemma_setup_idempotent(
    v: EscrowView,
    caller: AccountId,
    asset_id: u128,
    manager: AccountId,
    maximum_accounts: u16,
)
    ensures
        v.after_setup(caller, asset_id, manager, maximum_accounts).after_setup(
            caller,
            asset_id,
            manager,
            maximum_accounts,
        ) == v.after_setup(caller, asset_id, manager, maximum_accounts),
        v.after_setup(caller, asset_id, manager, maximum_accounts).setup_status(caller)
            == v.setup_status(caller),
{
}

/// A caller other than the owner cannot reset the ledger: the state is left
/// unchanged and the outcome is `BadOrigin`.
pub proof fn lemma_setup_needs_owner(
    v: EscrowView,
    caller: AccountId,
    asset_id: u128,
    manager: AccountId,
    maximum_accounts: u16,
)
    requires
        caller != v.owner,
    ensures
        v.after_setup(caller, asset_id, manager, maximum_accounts) == v,
        v.setup_status(caller) == EscrowStatus::EmitError(Error::BadOrigin),
{
}

/// A caller other than the manager cannot close, open, add or force a
/// release: the state is left unchanged and the outcome is `BadOrigin`.
pub proof fn lemma_operations_need_manager(
    v: EscrowView,
    caller: AccountId,
    reference: u16,
    account: AccountId,
    amount: u128,
    recipient: AccountId,
)
    requires
        caller != v.manager,
    ensures
        v.after_close(caller) == v,
        v.close_status(caller) == EscrowStatus::EmitError(Error::BadOrigin),
        v.after_open(caller) == v,
        v.open_status(caller) == EscrowStatus::EmitError(Error::BadOrigin),
        v.after_add(caller, reference, account, amount, recipient) == v,
        v.add_status(caller, account) == EscrowStatus::EmitError(Error::BadOrigin),
        v.force_release_step(caller, account, recipient) == crate::escrow::Release::Done(
            crate::escrow::event(caller, EscrowStatus::EmitError(Error::BadOrigin)),
        ),
{
}

/// One state-changing call on the ledger, with its caller first. `Release`
/// names the holder whose account a successful transfer removes, whether
/// `release` or `force_release` ordered it.
pub enum Operation {
    Setup(AccountId, u128, AccountId, u16),
    Close(AccountId),
    Open(AccountId),
    Add(AccountId, Account),
    Release(AccountId),
}

pub open spec fn apply(v: EscrowView, op: Operation) -> EscrowView {
    match op {
        Operation::Setup(caller, asset_id, manager, maximum_accounts) => v.after_setup(
            caller,
            asset_id,
            manager,
            maximum_accounts,
        ),
        Operation::Close(caller) => v.after_close(caller),
        Operation::Open(caller) => v.after_open(caller),
        Operation::Add(caller, a) => v.after_add(
            caller,
            a.reference,
            a.account,
            a.balance,
            a.recipient,
        ),
        Operation::Release(holder) => v.after_release(holder),
    }
}

pub open spec fn apply_all(v: EscrowView, ops: Seq<Operation>) -> EscrowView
    decreases ops.len(),
{
    if ops.len() == 0 {
        v
    } else {
        apply(apply_all(v, ops.drop_last()), ops.last())
    }
}

/// After any sequence of operations, every holder has at most one account,
/// and the ledger stays within its capacity.
pub proof fn lemma_holders_stay_unique(v: EscrowView, ops: Seq<Operation>)
    requires
        v.wf(),
    ensures
        holders_unique(apply_all(v, ops).accounts),
        apply_all(v, ops).wf(),
    decreases ops.len(),
{
    if ops.len() > 0 {
        let w = apply_all(v, ops.drop_last());
        lemma_holders_stay_unique(v, ops.drop_last());
        match ops.last() {
            Operation::Setup(caller, asset_id, manager, maximum_accounts) => {
                lemma_steps_keep_wf(w, caller, asset_id, manager, maximum_accounts, 0, caller, 0, caller);
            },
            Operation::Close(caller) => {
                lemma_steps_keep_wf(w, caller, 0, caller, 0, 0, caller, 0, caller);
            },
            Operation::Open(caller) => {
                lemma_steps_keep_wf(w, caller, 0, caller, 0, 0, caller, 0, caller);
            },
            Operation::Add(caller, a) => {
                lemma_steps_keep_wf(w, caller, 0, caller, 0, a.reference, a.account, a.balance, a.recipient);
            },
            Operation::Release(holder) => {
                lemma_steps_keep_wf(w, holder, 0, holder, 0, 0, holder, 0, holder);
            },
        }
    }
}

} // verus!
