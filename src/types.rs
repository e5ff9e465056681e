use vstd::prelude::*;

verus! {

/// A 32-byte identity of a caller, an owner, a manager, a holder or a recipient.
#[derive(Clone, Copy, Debug, Eq, Hash)]
pub struct AccountId(pub [u8; 32]);

impl PartialEq for AccountId {
    fn eq(&self, other: &AccountId) -> (r: bool) {
        let mut i: usize = 0;
        while i < 32
            invariant
                i <= 32,
                forall|j: int| 0 <= j < i ==> self.0[j] == other.0[j],
            decreases 32 - i,
        {
            if self.0[i] != other.0[i] {
                return false;
            }
            i = i + 1;
        }
        assert(self.0 =~= other.0);
        true
    }
}

impl vstd::std_specs::cmp::PartialEqSpecImpl for AccountId {
    open spec fn obeys_eq_spec() -> bool {
        true
    }

    open spec fn eq_spec(&self, other: &AccountId) -> bool {
        *self == *other
    }
}

/// A successful outcome of an operation.
#[derive(Clone, Copy, Debug, PartialEq, Eq, Structural)]
pub enum Success {
    /// The ledger was reset by its owner.
    EscrowSetupSuccess,
    /// The ledger was closed.
    EscrowCloseSuccess,
    /// The ledger was opened.
    EscrowOpenSuccess,
    /// An account was added.
    EscrowAccountAdded,
    /// An account was released and removed.
    EscrowAccountReleased,
}

/// A rejected request: the ledger is left as it was.
#[derive(Clone, Copy, Debug, PartialEq, Eq, Structural)]
pub enum Error {
    /// The caller does not hold the role that the operation asks for.
    BadOrigin,
    /// The ledger is closed.
    EscrowIsClose,
    /// An account with this holder is already held.
    EscrowAccountDuplicate,
    /// The ledger already holds as many accounts as its capacity allows.
    EscrowAccountMax,
    /// No account with this holder is held.
    EscrowAccountNotFound,
}

/// The outcome that an operation reports.
#[derive(Clone, Copy, Debug, PartialEq, Eq, Structural)]
pub enum EscrowStatus {
    EmitSuccess(Success),
    EmitError(Error),
}

/// The notification that an operation hands out: who called, and the outcome.
#[derive(Clone, Copy, Debug, PartialEq, Eq)]
pub struct EscrowEvent {
    pub operator: AccountId,
    pub status: EscrowStatus,
}

/// The failure of a call into the runtime.
#[derive(Clone, Copy, Debug, PartialEq, Eq, Structural)]
pub enum RuntimeError {
    CallRuntimeFailed,
}

/// A failure that aborts an operation, distinct from a rejected request.
#[derive(Clone, Copy, Debug, PartialEq, Eq, Structural)]
pub enum ContractError {
    Runtime(RuntimeError),
}

/// One pending hold of an amount of the ledger's asset.
#[derive(Clone, Copy, Debug, PartialEq, Eq)]
pub struct Account {
    /// Correlation id chosen by the caller; not required to be unique.
    pub reference: u16,
    /// The holder; unique within the ledger.
    pub account: AccountId,
    /// The amount held.
    pub balance: u128,
    /// Who receives the balance on an ordinary release.
    pub recipient: AccountId,
    /// 0 for frozen, 1 for liquid; every added account is liquid.
    pub status: u8,
}

} // verus!
