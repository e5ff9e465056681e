use escrow::escrow::LIQUID;
use escrow::types::{Account, ContractError, Error, EscrowEvent, EscrowStatus, RuntimeError, Success};
use escrow::{AccountId, Escrow, Release, Transfer};

fn id(last: u8) -> AccountId {
    let mut b = [0u8; 32];
    b[31] = last;
    AccountId(b)
}

fn ok(caller: AccountId, s: Success) -> EscrowEvent {
    EscrowEvent { operator: caller, status: EscrowStatus::EmitSuccess(s) }
}

fn err(caller: AccountId, e: Error) -> EscrowEvent {
    EscrowEvent { operator: caller, status: EscrowStatus::EmitError(e) }
}

fn transfer_of(r: Release) -> Transfer {
    match r {
        Release::Transfer(t) => t,
        Release::Done(e) => panic!("expected a transfer, got {:?}", e),
    }
}

const OWNER: u8 = 1;
const M: u8 = 2;
const A: u8 = 3;
const B: u8 = 4;
const C: u8 = 5;
const R: u8 = 6;
const R2: u8 = 7;
const R3: u8 = 8;

#[test]
fn lib_default_works() {
    let e = Escrow::default(id(OWNER));
    assert_eq!(e.get(), (0, id(OWNER), id(OWNER), 0, 0));
    assert!(e.accounts.is_empty());
}

#[test]
fn new_sets_owner_and_manager() {
    let e = Escrow::new(id(OWNER), 7, 2);
    assert_eq!(e.get(), (7, id(OWNER), id(OWNER), 2, 0));
}

#[test]
fn account_ids_differ_by_last_byte() {
    assert_ne!(id(A), id(B));
    assert_eq!(id(A), id(A));
    let mut first = [0u8; 32];
    first[0] = 9;
    assert_ne!(AccountId(first), id(0));
}

#[test]
fn walkthrough_scenario() {
    let owner = id(OWNER);
    let m = id(M);
    let mut e = Escrow::new(owner, 7, 2);
    assert_eq!(e.setup(owner, 7, m, 2), ok(owner, Success::EscrowSetupSuccess));
    assert_eq!(e.add(m, 1, id(A), 100, id(R)), ok(m, Success::EscrowAccountAdded));
    assert_eq!(e.add(m, 2, id(A), 50, id(R2)), err(m, Error::EscrowAccountDuplicate));
    assert_eq!(e.add(m, 3, id(B), 10, id(R3)), ok(m, Success::EscrowAccountAdded));
    assert_eq!(e.add(m, 4, id(C), 5, id(R3)), err(m, Error::EscrowAccountMax));
    assert_eq!(e.close(m), ok(m, Success::EscrowCloseSuccess));
    assert_eq!(e.release(id(A)), Release::Done(err(id(A), Error::EscrowIsClose)));
    assert_eq!(e.open(m), ok(m, Success::EscrowOpenSuccess));
    let t = transfer_of(e.release(id(A)));
    assert_eq!(
        t,
        Transfer { operator: id(A), holder: id(A), asset_id: 7, target: id(R), amount: 100 }
    );
    assert_eq!(e.finish_release(&t, Ok(())), Ok(ok(id(A), Success::EscrowAccountReleased)));
    assert_eq!(
        e.accounts,
        vec![Account { reference: 3, account: id(B), balance: 10, recipient: id(R3), status: LIQUID }]
    );
}

#[test]
fn setup_by_non_owner_is_bad_origin() {
    let mut e = Escrow::new(id(OWNER), 7, 2);
    assert_eq!(e.setup(id(M), 9, id(M), 5), err(id(M), Error::BadOrigin));
    assert_eq!(e.get(), (7, id(OWNER), id(OWNER), 2, 0));
}

#[test]
fn non_manager_is_bad_origin() {
    let owner = id(OWNER);
    let m = id(M);
    let mut e = Escrow::new(owner, 7, 2);
    e.setup(owner, 7, m, 2);
    e.add(m, 1, id(A), 100, id(R));
    let before = e.accounts.clone();
    assert_eq!(e.close(owner), err(owner, Error::BadOrigin));
    assert_eq!(e.open(owner), err(owner, Error::BadOrigin));
    assert_eq!(e.add(owner, 2, id(B), 1, id(R)), err(owner, Error::BadOrigin));
    assert_eq!(e.force_release(owner, id(A), id(R2)), Release::Done(err(owner, Error::BadOrigin)));
    assert_eq!(e.get(), (7, owner, m, 2, 0));
    assert_eq!(e.accounts, before);
}

#[test]
fn setup_twice_is_setup_once() {
    let owner = id(OWNER);
    let mut once = Escrow::new(owner, 1, 3);
    once.add(owner, 1, id(A), 100, id(R));
    let mut twice = Escrow::new(owner, 1, 3);
    twice.add(owner, 1, id(A), 100, id(R));
    assert_eq!(once.setup(owner, 4, id(M), 6), ok(owner, Success::EscrowSetupSuccess));
    twice.setup(owner, 4, id(M), 6);
    assert_eq!(twice.setup(owner, 4, id(M), 6), ok(owner, Success::EscrowSetupSuccess));
    assert_eq!(once.get(), twice.get());
    assert_eq!(once.get(), (4, owner, id(M), 6, 0));
    assert!(once.accounts.is_empty());
    assert!(twice.accounts.is_empty());
}

#[test]
fn setup_clears_accounts_and_reopens() {
    let owner = id(OWNER);
    let mut e = Escrow::new(owner, 1, 3);
    e.add(owner, 1, id(A), 100, id(R));
    e.close(owner);
    e.setup(owner, 2, owner, 3);
    assert_eq!(e.get(), (2, owner, owner, 3, 0));
    assert!(e.accounts.is_empty());
}

#[test]
fn capacity_is_never_exceeded() {
    let owner = id(OWNER);
    let mut e = Escrow::new(owner, 1, 3);
    for k in 0..10u8 {
        let r = e.add(owner, k as u16, id(20 + k), 1, id(R));
        if k < 3 {
            assert_eq!(r, ok(owner, Success::EscrowAccountAdded));
        } else {
            assert_eq!(r, err(owner, Error::EscrowAccountMax));
        }
        assert!(e.accounts.len() <= 3);
    }
    assert_eq!(e.accounts.len(), 3);
}

#[test]
fn default_ledger_holds_nothing() {
    let owner = id(OWNER);
    let mut e = Escrow::default(owner);
    assert_eq!(e.add(owner, 1, id(A), 1, id(R)), err(owner, Error::EscrowAccountMax));
    assert!(e.accounts.is_empty());
}

#[test]
fn add_checks_in_order() {
    let owner = id(OWNER);
    let mut e = Escrow::new(owner, 1, 1);
    e.add(owner, 1, id(A), 1, id(R));
    // full and duplicate: the duplicate is reported
    assert_eq!(e.add(owner, 2, id(A), 1, id(R)), err(owner, Error::EscrowAccountDuplicate));
    e.close(owner);
    // closed and duplicate: closed is reported
    assert_eq!(e.add(owner, 2, id(A), 1, id(R)), err(owner, Error::EscrowIsClose));
    // closed and wrong caller: the origin is reported
    assert_eq!(e.add(id(M), 2, id(A), 1, id(R)), err(id(M), Error::BadOrigin));
    assert_eq!(e.accounts.len(), 1);
}

#[test]
fn holders_stay_unique() {
    let owner = id(OWNER);
    let mut e = Escrow::new(owner, 1, 10);
    for _ in 0..3 {
        e.add(owner, 1, id(A), 1, id(R));
        e.add(owner, 2, id(B), 1, id(R));
    }
    assert_eq!(e.accounts.iter().filter(|a| a.account == id(A)).count(), 1);
    assert_eq!(e.accounts.iter().filter(|a| a.account == id(B)).count(), 1);
}

#[test]
fn close_and_open_are_idempotent() {
    let owner = id(OWNER);
    let mut e = Escrow::new(owner, 1, 1);
    assert_eq!(e.close(owner), ok(owner, Success::EscrowCloseSuccess));
    assert_eq!(e.close(owner), ok(owner, Success::EscrowCloseSuccess));
    assert_eq!(e.get().4, 1);
    assert_eq!(e.open(owner), ok(owner, Success::EscrowOpenSuccess));
    assert_eq!(e.open(owner), ok(owner, Success::EscrowOpenSuccess));
    assert_eq!(e.get().4, 0);
}

#[test]
fn failed_transfer_keeps_the_account() {
    let owner = id(OWNER);
    let mut e = Escrow::new(owner, 1, 2);
    e.add(owner, 1, id(A), 100, id(R));
    let before = e.accounts.clone();
    let t = transfer_of(e.release(id(A)));
    assert_eq!(
        e.finish_release(&t, Err(RuntimeError::CallRuntimeFailed)),
        Err(ContractError::Runtime(RuntimeError::CallRuntimeFailed))
    );
    assert_eq!(e.accounts, before);
}

#[test]
fn release_of_unknown_holder_is_not_found() {
    let owner = id(OWNER);
    let mut e = Escrow::new(owner, 1, 2);
    e.add(owner, 1, id(A), 100, id(R));
    assert_eq!(e.release(id(B)), Release::Done(err(id(B), Error::EscrowAccountNotFound)));
    assert_eq!(
        e.force_release(owner, id(B), id(R)),
        Release::Done(err(owner, Error::EscrowAccountNotFound))
    );
    let stale = Transfer { operator: owner, holder: id(B), asset_id: 1, target: id(R), amount: 1 };
    assert_eq!(e.finish_release(&stale, Ok(())), Ok(err(owner, Error::EscrowAccountNotFound)));
    assert_eq!(e.accounts.len(), 1);
}

#[test]
fn force_release_pays_the_given_recipient() {
    let owner = id(OWNER);
    let m = id(M);
    let mut e = Escrow::new(owner, 3, 3);
    e.setup(owner, 5, m, 3);
    e.add(m, 1, id(A), 100, id(R));
    e.add(m, 2, id(B), 20, id(R));
    e.add(m, 3, id(C), 30, id(R));
    let t = transfer_of(e.force_release(m, id(A), id(R2)));
    assert_eq!(t, Transfer { operator: m, holder: id(A), asset_id: 5, target: id(R2), amount: 100 });
    assert_eq!(e.finish_release(&t, Ok(())), Ok(ok(m, Success::EscrowAccountReleased)));
    // the last entry takes the removed one's place
    let holders: Vec<AccountId> = e.accounts.iter().map(|a| a.account).collect();
    assert_eq!(holders, vec![id(C), id(B)]);
}

#[test]
fn force_release_on_closed_ledger() {
    let owner = id(OWNER);
    let mut e = Escrow::new(owner, 3, 3);
    e.add(owner, 1, id(A), 100, id(R));
    e.close(owner);
    assert_eq!(e.force_release(owner, id(A), id(R2)), Release::Done(err(owner, Error::EscrowIsClose)));
    assert_eq!(e.accounts.len(), 1);
}
