use vstd::prelude::*;

use crate::types::{Account, AccountId, ContractError, Error, EscrowEvent, EscrowStatus, RuntimeError, Success};

verus! {

/// The ledger's status when it accepts new accounts and releases.
pub const OPEN: u8 = 0;

/// The ledger's status when it rejects new accounts and releases.
pub const CLOSED: u8 = 1;

/// The status of every account that `add` creates.
pub const LIQUID: u8 = 1;

/// The escrow ledger: one asset class, an owner, a manager, a capacity and the
/// accounts held.
pub struct Escrow {
    /// The asset class that this ledger escrows.
    pub asset_id: u128,
    /// The only identity that may reset the ledger; fixed at construction.
    pub owner: AccountId,
    /// The identity that runs the ledger day to day.
    pub manager: AccountId,
    /// The largest number of accounts held at once.
    pub maximum_accounts: u16,
    /// The accounts held, unique by holder.
    pub accounts: Vec<Account>,
    /// `OPEN` or `CLOSED`.
    pub status: u8,
}

/// The ledger as a mathematical value.
pub struct EscrowView {
    pub asset_id: u128,
    pub owner: AccountId,
    pub manager: AccountId,
    pub maximum_accounts: u16,
    pub accounts: Seq<Account>,
    pub status: u8,
}

impl View for Escrow {
    type V = EscrowView;

    open spec fn view(&self) -> EscrowView {
        EscrowView {
            asset_id: self.asset_id,
            owner: self.owner,
            manager: self.manager,
            maximum_accounts: self.maximum_accounts,
            accounts: self.accounts@,
            status: self.status,
        }
    }
}

/// An order to move an account's balance, handed out by `release` and
/// `force_release` and settled by `finish_release`.
#[derive(Clone, Copy, Debug, PartialEq, Eq)]
pub struct Transfer {
    /// Who asked for the release.
    pub operator: AccountId,
    /// The holder of the account to release.
    pub holder: AccountId,
    /// The asset class to move.
    pub asset_id: u128,
    /// Who receives the amount.
    pub target: AccountId,
    /// The amount to move: the account's balance.
    pub amount: u128,
}

/// What a release asks for: nothing more, or a transfer.
#[derive(Clone, Copy, Debug, PartialEq, Eq)]
pub enum Release {
    /// The request was rejected, and the ledger is unchanged.
    Done(EscrowEvent),
    /// The transfer to make before the account is removed.
    Transfer(Transfer),
}

/// Some account in `s` has holder `h`.
pub open spec fn has_holder(s: Seq<Account>, h: AccountId) -> bool {
    exists|i: int| 0 <= i < s.len() && s[i].account == h
}

/// `i` is the first position in `s` whose holder is `h`.
pub open spec fn is_first(s: Seq<Account>, h: AccountId, i: int) -> bool {
    &&& 0 <= i < s.len()
    &&& s[i].account == h
    &&& forall|j: int| 0 <= j < i ==> s[j].account != h
}

/// The first position in `s` whose holder is `h`, where there is one.
pub open spec fn first_index(s: Seq<Account>, h: AccountId) -> int {
    choose|i: int| is_first(s, h, i)
}

/// `s` without its entry at `i`, the last entry taking its place.
pub open spec fn remove_at(s: Seq<Account>, i: int) -> Seq<Account> {
    s.update(i, s.last()).drop_last()
}

/// For every holder, at most one entry of `s` has it.
pub open spec fn holders_unique(s: Seq<Account>) -> bool {
    forall|i: int, j: int|
        0 <= i < s.len() && 0 <= j < s.len() && s[i].account == s[j].account ==> i == j
}

/// The notification of `status` for a call by `caller`.
pub open spec fn event(caller: AccountId, status: EscrowStatus) -> EscrowEvent {
    EscrowEvent { operator: caller, status }
}

impl EscrowView {
    /// Within capacity, unique by holder, and open or closed.
    pub open spec fn wf(self) -> bool {
        &&& self.accounts.len() <= self.maximum_accounts
        &&& holders_unique(self.accounts)
        &&& (self.status == OPEN || self.status == CLOSED)
    }

    pub open spec fn is_open(self) -> bool {
        self.status == OPEN
    }

    /// The ledger as the constructor leaves it.
    pub open spec fn created(caller: AccountId, asset_id: u128, maximum_accounts: u16) -> EscrowView {
        EscrowView {
            asset_id,
            owner: caller,
            manager: caller,
            maximum_accounts,
            accounts: Seq::empty(),
            status: OPEN,
        }
    }

    pub open spec fn setup_status(self, caller: AccountId) -> EscrowStatus {
        if caller != self.owner {
            EscrowStatus::EmitError(Error::BadOrigin)
        } else {
            EscrowStatus::EmitSuccess(Success::EscrowSetupSuccess)
        }
    }

    /// A reset by the owner replaces the configuration and drops every account.
    pub open spec fn after_setup(
        self,
        caller: AccountId,
        asset_id: u128,
        manager: AccountId,
        maximum_accounts: u16,
    ) -> EscrowView {
        if caller != self.owner {
            self
        } else {
            EscrowView {
                asset_id,
                owner: self.owner,
                manager,
                maximum_accounts,
                accounts: Seq::empty(),
                status: OPEN,
            }
        }
    }

    pub open spec fn close_status(self, caller: AccountId) -> EscrowStatus {
        if caller != self.manager {
            EscrowStatus::EmitError(Error::BadOrigin)
        } else {
            EscrowStatus::EmitSuccess(Success::EscrowCloseSuccess)
        }
    }

    pub open spec fn with_status(self, status: u8) -> EscrowView {
        EscrowView {
            asset_id: self.asset_id,
            owner: self.owner,
            manager: self.manager,
            maximum_accounts: self.maximum_accounts,
            accounts: self.accounts,
            status,
        }
    }

    pub open spec fn with_accounts(self, accounts: Seq<Account>) -> EscrowView {
        EscrowView {
            asset_id: self.asset_id,
            owner: self.owner,
            manager: self.manager,
            maximum_accounts: self.maximum_accounts,
            accounts,
            status: self.status,
        }
    }

    pub open spec fn after_close(self, caller: AccountId) -> EscrowView {
        if caller != self.manager {
            self
        } else {
            self.with_status(CLOSED)
        }
    }

    pub open spec fn open_status(self, caller: AccountId) -> EscrowStatus {
        if caller != self.manager {
            EscrowStatus::EmitError(Error::BadOrigin)
        } else {
            EscrowStatus::EmitSuccess(Success::EscrowOpenSuccess)
        }
    }

    pub open spec fn after_open(self, caller: AccountId) -> EscrowView {
        if caller != self.manager {
            self
        } else {
            self.with_status(OPEN)
        }
    }

    /// The checks of `add`, in order: origin, openness, duplicate, capacity.
    pub open spec fn add_status(self, caller: AccountId, account: AccountId) -> EscrowStatus {
        if caller != self.manager {
            EscrowStatus::EmitError(Error::BadOrigin)
        } else if !self.is_open() {
            EscrowStatus::EmitError(Error::EscrowIsClose)
        } else if has_holder(self.accounts, account) {
            EscrowStatus::EmitError(Error::EscrowAccountDuplicate)
        } else if self.accounts.len() >= self.maximum_accounts {
            EscrowStatus::EmitError(Error::EscrowAccountMax)
        } else {
            EscrowStatus::EmitSuccess(Success::EscrowAccountAdded)
        }
    }

    pub open spec fn after_add(
        self,
        caller: AccountId,
        reference: u16,
        account: AccountId,
        amount: u128,
        recipient: AccountId,
    ) -> EscrowView {
        if self.add_status(caller, account) == EscrowStatus::EmitSuccess(
            Success::EscrowAccountAdded,
        ) {
            self.with_accounts(
                self.accounts.push(
                    Account { reference, account, balance: amount, recipient, status: LIQUID },
                ),
            )
        } else {
            self
        }
    }

    /// What a self-service release by `caller` asks for.
    pub open spec fn release_step(self, caller: AccountId) -> Release {
        if !self.is_open() {
            Release::Done(event(caller, EscrowStatus::EmitError(Error::EscrowIsClose)))
        } else if !has_holder(self.accounts, caller) {
            Release::Done(event(caller, EscrowStatus::EmitError(Error::EscrowAccountNotFound)))
        } else {
            let a = self.accounts[first_index(self.accounts, caller)];
            Release::Transfer(
                Transfer {
                    operator: caller,
                    holder: caller,
                    asset_id: self.asset_id,
                    target: a.recipient,
                    amount: a.balance,
                },
            )
        }
    }

    /// What a release of `account` to `recipient` by the manager asks for.
    pub open spec fn force_release_step(
        self,
        caller: AccountId,
        account: AccountId,
        recipient: AccountId,
    ) -> Release {
        if caller != self.manager {
            Release::Done(event(caller, EscrowStatus::EmitError(Error::BadOrigin)))
        } else if !self.is_open() {
            Release::Done(event(caller, EscrowStatus::EmitError(Error::EscrowIsClose)))
        } else if !has_holder(self.accounts, account) {
            Release::Done(event(caller, EscrowStatus::EmitError(Error::EscrowAccountNotFound)))
        } else {
            Release::Transfer(
                Transfer {
                    operator: caller,
                    holder: account,
                    asset_id: self.asset_id,
                    target: recipient,
                    amount: self.accounts[first_index(self.accounts, account)].balance,
                },
            )
        }
    }

    /// The ledger once a transfer for `holder` has succeeded.
    pub open spec fn after_release(self, holder: AccountId) -> EscrowView {
        if has_holder(self.accounts, holder) {
            self.with_accounts(remove_at(self.accounts, first_index(self.accounts, holder)))
        } else {
            self
        }
    }

    pub open spec fn release_status(self, holder: AccountId) -> EscrowStatus {
        if has_holder(self.accounts, holder) {
            EscrowStatus::EmitSuccess(Success::EscrowAccountReleased)
        } else {
            EscrowStatus::EmitError(Error::EscrowAccountNotFound)
        }
    }
}

/// The first position of a holder is the one that `is_first` picks out.
proof fn lemma_first_index(s: Seq<Account>, h: AccountId, i: int)
    requires
        is_first(s, h, i),
    ensures
        first_index(s, h) == i,
{
    let k = first_index(s, h);
    assert(is_first(s, h, k));
    if k < i {
        assert(s[k].account != h);
    } else if k > i {
        assert(s[i].account != h);
    }
}

/// Some account has a holder exactly when a first position of it exists.
proof fn lemma_has_first(s: Seq<Account>, h: AccountId)
    requires
        has_holder(s, h),
    ensures
        is_first(s, h, first_index(s, h)),
    decreases s.len(),
{
    if s[0].account == h {
        lemma_first_index(s, h, 0);
    } else {
        let t = s.drop_first();
        let i = choose|i: int| 0 <= i < s.len() && s[i].account == h;
        assert(t[i - 1].account == h);
        lemma_has_first(t, h);
        let k = first_index(t, h);
        assert forall|j: int| 0 <= j < k + 1 implies s[j].account != h by {
            if j > 0 {
                assert(s[j] == t[j - 1]);
            }
        }
        lemma_first_index(s, h, k + 1);
    }
}

/// Removing an entry keeps the holders unique and drops that holder.
proof fn lemma_remove_at(s: Seq<Account>, i: int)
    requires
        holders_unique(s),
        0 <= i < s.len(),
    ensures
        holders_unique(remove_at(s, i)),
        remove_at(s, i).len() == s.len() - 1,
        !has_holder(remove_at(s, i), s[i].account),
{
    let r = remove_at(s, i);
    let n = s.len() - 1;
    assert forall|a: int, b: int|
        0 <= a < r.len() && 0 <= b < r.len() && r[a].account == r[b].account implies a == b by {
        let fa = if a == i { n } else { a };
        let fb = if b == i { n } else { b };
        assert(r[a] == s[fa]);
        assert(r[b] == s[fb]);
    }
    if has_holder(r, s[i].account) {
        let k = choose|k: int| 0 <= k < r.len() && r[k].account == s[i].account;
        let fk = if k == i { n } else { k };
        assert(r[k] == s[fk]);
    }
}

/// Every operation keeps the ledger within capacity and unique by holder.
pub proof fn lemma_steps_keep_wf(
    v: EscrowView,
    caller: AccountId,
    asset_id: u128,
    manager: AccountId,
    maximum_accounts: u16,
    reference: u16,
    account: AccountId,
    amount: u128,
    recipient: AccountId,
)
    requires
        v.wf(),
    ensures
        v.after_setup(caller, asset_id, manager, maximum_accounts).wf(),
        v.after_close(caller).wf(),
        v.after_open(caller).wf(),
        v.after_add(caller, reference, account, amount, recipient).wf(),
        v.after_release(account).wf(),
{
    let a = v.after_add(caller, reference, account, amount, recipient);
    if a != v {
        let s = v.accounts;
        let t = a.accounts;
        assert forall|i: int, j: int|
            0 <= i < t.len() && 0 <= j < t.len() && t[i].account == t[j].account implies i
            == j by {
            if i < s.len() && j == s.len() {
                assert(s[i].account == account);
            } else if j < s.len() && i == s.len() {
                assert(s[j].account == account);
            }
        }
    }
    if has_holder(v.accounts, account) {
        lemma_has_first(v.accounts, account);
        lemma_remove_at(v.accounts, first_index(v.accounts, account));
    }
}

impl Escrow {
    /// A ledger owned and managed by `caller`, open and empty.
    pub fn new(caller: AccountId, asset_id: u128, maximum_accounts: u16) -> (r: Escrow)
        ensures
            r@ == EscrowView::created(caller, asset_id, maximum_accounts),
            r@.wf(),
    {
        Escrow {
            asset_id,
            owner: caller,
            manager: caller,
            maximum_accounts,
            accounts: Vec::new(),
            status: OPEN,
        }
    }

    /// A ledger for asset 0 with no room for accounts, until it is set up.
    pub fn default(caller: AccountId) -> (r: Escrow)
        ensures
            r@ == EscrowView::created(caller, 0, 0),
            r@.wf(),
    {
        Escrow::new(caller, 0, 0)
    }

    /// Resets the ledger, when `caller` is its owner: new asset, manager and
    /// capacity, no accounts, open.
    pub fn setup(
        &mut self,
        caller: AccountId,
        asset_id: u128,
        manager: AccountId,
        maximum_accounts: u16,
    ) -> (r: EscrowEvent)
        ensures
            final(self)@ == old(self)@.after_setup(caller, asset_id, manager, maximum_accounts),
            r == event(caller, old(self)@.setup_status(caller)),
            old(self)@.wf() ==> final(self)@.wf(),
    {
        if caller != self.owner {
            return EscrowEvent { operator: caller, status: EscrowStatus::EmitError(Error::BadOrigin) };
        }
        self.asset_id = asset_id;
        self.manager = manager;
        self.maximum_accounts = maximum_accounts;
        self.accounts = Vec::new();
        self.status = OPEN;
        EscrowEvent {
            operator: caller,
            status: EscrowStatus::EmitSuccess(Success::EscrowSetupSuccess),
        }
    }

    /// The asset, the owner, the manager, the capacity and the status.
    pub fn get(&self) -> (r: (u128, AccountId, AccountId, u16, u8))
        ensures
            r == (self.asset_id, self.owner, self.manager, self.maximum_accounts, self.status),
    {
        (self.asset_id, self.owner, self.manager, self.maximum_accounts, self.status)
    }

    /// Closes the ledger, when `caller` is its manager.
    pub fn close(&mut self, caller: AccountId) -> (r: EscrowEvent)
        ensures
            final(self)@ == old(self)@.after_close(caller),
            r == event(caller, old(self)@.close_status(caller)),
            old(self)@.wf() ==> final(self)@.wf(),
    {
        if caller != self.manager {
            return EscrowEvent { operator: caller, status: EscrowStatus::EmitError(Error::BadOrigin) };
        }
        self.status = CLOSED;
        EscrowEvent {
            operator: caller,
            status: EscrowStatus::EmitSuccess(Success::EscrowCloseSuccess),
        }
    }

    /// Opens the ledger, when `caller` is its manager.
    pub fn open(&mut self, caller: AccountId) -> (r: EscrowEvent)
        ensures
            final(self)@ == old(self)@.after_open(caller),
            r == event(caller, old(self)@.open_status(caller)),
            old(self)@.wf() ==> final(self)@.wf(),
    {
        if caller != self.manager {
            return EscrowEvent { operator: caller, status: EscrowStatus::EmitError(Error::BadOrigin) };
        }
        self.status = OPEN;
        EscrowEvent {
            operator: caller,
            status: EscrowStatus::EmitSuccess(Success::EscrowOpenSuccess),
        }
    }

    /// The first position of an account whose holder is `holder`.
    fn position(&self, holder: AccountId) -> (r: Option<usize>)
        ensures
            r is None <==> !has_holder(self.accounts@, holder),
            r matches Some(i) ==> is_first(self.accounts@, holder, i as int) && i == first_index(
                self.accounts@,
                holder,
            ),
    {
        let mut i: usize = 0;
        while i < self.accounts.len()
            invariant
                i <= self.accounts@.len(),
                forall|j: int| 0 <= j < i ==> self.accounts@[j].account != holder,
            decreases self.accounts@.len() - i,
        {
            if self.accounts[i].account == holder {
                proof {
                    lemma_first_index(self.accounts@, holder, i as int);
                }
                return Some(i);
            }
            i = i + 1;
        }
        None
    }

    /// Adds an account for `account`, when `caller` is the manager, the ledger
    /// is open, `account` holds none yet and there is room.
    pub fn add(
        &mut self,
        caller: AccountId,
        reference: u16,
        account: AccountId,
        amount: u128,
        recipient: AccountId,
    ) -> (r: EscrowEvent)
        ensures
            final(self)@ == old(self)@.after_add(caller, reference, account, amount, recipient),
            r == event(caller, old(self)@.add_status(caller, account)),
            old(self)@.wf() ==> final(self)@.wf(),
    {
        proof {
            if old(self)@.wf() {
                lemma_steps_keep_wf(old(self)@, caller, 0, caller, 0, reference, account, amount, recipient);
            }
        }
        if caller != self.manager {
            return EscrowEvent { operator: caller, status: EscrowStatus::EmitError(Error::BadOrigin) };
        }
        if self.status != OPEN {
            return EscrowEvent {
                operator: caller,
                status: EscrowStatus::EmitError(Error::EscrowIsClose),
            };
        }
        if self.position(account).is_some() {
            return EscrowEvent {
                operator: caller,
                status: EscrowStatus::EmitError(Error::EscrowAccountDuplicate),
            };
        }
        if self.accounts.len() >= self.maximum_accounts as usize {
            return EscrowEvent {
                operator: caller,
                status: EscrowStatus::EmitError(Error::EscrowAccountMax),
            };
        }
        self.accounts.push(
            Account { reference, account, balance: amount, recipient, status: LIQUID },
        );
        EscrowEvent {
            operator: caller,
            status: EscrowStatus::EmitSuccess(Success::EscrowAccountAdded),
        }
    }

    /// What releasing the caller's own account asks for. The caller is the
    /// holder; the balance goes to the account's recipient.
    pub fn release(&self, caller: AccountId) -> (r: Release)
        ensures
            r == self@.release_step(caller),
    {
        if self.status != OPEN {
            return Release::Done(
                EscrowEvent { operator: caller, status: EscrowStatus::EmitError(Error::EscrowIsClose) },
            );
        }
        match self.position(caller) {
            Some(i) => Release::Transfer(
                Transfer {
                    operator: caller,
                    holder: caller,
                    asset_id: self.asset_id,
                    target: self.accounts[i].recipient,
                    amount: self.accounts[i].balance,
                },
            ),
            None => Release::Done(
                EscrowEvent {
                    operator: caller,
                    status: EscrowStatus::EmitError(Error::EscrowAccountNotFound),
                },
            ),
        }
    }

    /// What releasing the account of `account` to `recipient` asks for, when
    /// `caller` is the manager.
    pub fn force_release(&self, caller: AccountId, account: AccountId, recipient: AccountId) -> (r:
        Release)
        ensures
            r == self@.force_release_step(caller, account, recipient),
    {
        if caller != self.manager {
            return Release::Done(
                EscrowEvent { operator: caller, status: EscrowStatus::EmitError(Error::BadOrigin) },
            );
        }
        if self.status != OPEN {
            return Release::Done(
                EscrowEvent { operator: caller, status: EscrowStatus::EmitError(Error::EscrowIsClose) },
            );
        }
        match self.position(account) {
            Some(i) => Release::Transfer(
                Transfer {
                    operator: caller,
                    holder: account,
                    asset_id: self.asset_id,
                    target: recipient,
                    amount: self.accounts[i].balance,
                },
            ),
            None => Release::Done(
                EscrowEvent {
                    operator: caller,
                    status: EscrowStatus::EmitError(Error::EscrowAccountNotFound),
                },
            ),
        }
    }

    /// Settles a transfer that `release` or `force_release` ordered. When it
    /// failed, the failure aborts the release and the ledger is unchanged;
    /// when it succeeded, the holder's account is removed.
    pub fn finish_release(&mut self, order: &Transfer, outcome: Result<(), RuntimeError>) -> (r:
        Result<EscrowEvent, ContractError>)
        ensures
            outcome matches Err(e) ==> r == Err::<EscrowEvent, ContractError>(
                ContractError::Runtime(e),
            ) && final(self)@ == old(self)@,
            outcome is Ok ==> final(self)@ == old(self)@.after_release(order.holder) && r == Ok::<
                EscrowEvent,
                ContractError,
            >(event(order.operator, old(self)@.release_status(order.holder))),
            old(self)@.wf() ==> final(self)@.wf(),
    {
        if let Err(e) = outcome {
            return Err(ContractError::Runtime(e));
        }
        match self.position(order.holder) {
            Some(i) => {
                proof {
                    lemma_has_first(self.accounts@, order.holder);
                    if self@.wf() {
                        lemma_remove_at(self.accounts@, i as int);
                    }
                }
                self.accounts.swap_remove(i);
                Ok(
                    EscrowEvent {
                        operator: order.operator,
                        status: EscrowStatus::EmitSuccess(Success::EscrowAccountReleased),
                    },
                )
            },
            None => Ok(
                EscrowEvent {
                    operator: order.operator,
                    status: EscrowStatus::EmitError(Error::EscrowAccountNotFound),
                },
            ),
        }
    }
}

} // verus!
