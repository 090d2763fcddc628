use civ_relay::registration::{next_action, register, registration_reply, RegisterError, TxAction, WriteStep};
use civ_relay::relay::resolve;
use civ_relay::store::IdentityStore;

fn s(x: &str) -> String {
    x.to_string()
}

#[test]
fn register_twice_keeps_one_row_each() {
    let mut store = IdentityStore::new();
    assert_eq!(register(&mut store, &s("A"), &s("x"), None), Ok(()));
    assert_eq!(register(&mut store, &s("A"), &s("x"), None), Ok(()));
    assert_eq!(store.account_count(), 1);
    assert_eq!(store.binding_count(), 1);
    assert!(store.has_account(&s("A")));
    assert!(store.has_binding(&s("A"), &s("x")));
}

#[test]
fn failed_binding_insert_rolls_back_account() {
    let mut store = IdentityStore::new();
    let r = register(&mut store, &s("A"), &s("x"), Some(WriteStep::BindingInsert));
    assert_eq!(r, Err(RegisterError::WriteFailed(WriteStep::BindingInsert)));
    assert!(!store.has_account(&s("A")));
    assert_eq!(store.account_count(), 0);
    assert_eq!(store.binding_count(), 0);
}

#[test]
fn failed_begin_account_insert_and_commit_write_nothing() {
    let mut store = IdentityStore::new();
    assert_eq!(
        register(&mut store, &s("A"), &s("x"), Some(WriteStep::AccountInsert)),
        Err(RegisterError::WriteFailed(WriteStep::AccountInsert))
    );
    assert_eq!(
        register(&mut store, &s("A"), &s("x"), Some(WriteStep::Begin)),
        Err(RegisterError::WriteFailed(WriteStep::Begin))
    );
    assert_eq!(
        register(&mut store, &s("A"), &s("x"), Some(WriteStep::Commit)),
        Err(RegisterError::WriteFailed(WriteStep::Commit))
    );
    assert_eq!(store.account_count(), 0);
    assert_eq!(store.binding_count(), 0);
}

#[test]
fn failure_keeps_earlier_registrations() {
    let mut store = IdentityStore::new();
    assert_eq!(register(&mut store, &s("A"), &s("x"), None), Ok(()));
    let r = register(&mut store, &s("B"), &s("y"), Some(WriteStep::BindingInsert));
    assert!(r.is_err());
    assert!(store.has_binding(&s("A"), &s("x")));
    assert!(!store.has_account(&s("B")));
    assert_eq!(store.account_count(), 1);
}

#[test]
fn alias_shared_by_two_accounts() {
    let mut store = IdentityStore::new();
    assert_eq!(register(&mut store, &s("A"), &s("x"), None), Ok(()));
    assert_eq!(register(&mut store, &s("B"), &s("x"), None), Ok(()));
    assert!(store.has_binding(&s("A"), &s("x")));
    assert!(store.has_binding(&s("B"), &s("x")));
    assert_eq!(store.account_count(), 2);
    assert_eq!(store.binding_count(), 2);
    // the earliest registration wins the lookup
    assert_eq!(resolve(&store, &s("X")), "<@A>");
}

#[test]
fn one_account_many_aliases() {
    let mut store = IdentityStore::new();
    assert_eq!(register(&mut store, &s("A"), &s("x"), None), Ok(()));
    assert_eq!(register(&mut store, &s("A"), &s("y"), None), Ok(()));
    assert_eq!(store.account_count(), 1);
    assert_eq!(store.binding_count(), 2);
}

#[test]
fn step_machine_order() {
    assert_eq!(next_action(WriteStep::Begin, true), TxAction::Execute(WriteStep::AccountInsert));
    assert_eq!(next_action(WriteStep::Begin, false), TxAction::Rollback);
    assert_eq!(next_action(WriteStep::AccountInsert, true), TxAction::Execute(WriteStep::BindingInsert));
    assert_eq!(next_action(WriteStep::BindingInsert, true), TxAction::Execute(WriteStep::Commit));
    assert_eq!(next_action(WriteStep::Commit, true), TxAction::Finish);
    assert_eq!(next_action(WriteStep::AccountInsert, false), TxAction::Rollback);
    assert_eq!(next_action(WriteStep::BindingInsert, false), TxAction::Rollback);
    assert_eq!(next_action(WriteStep::Commit, false), TxAction::Rollback);
}

#[test]
fn replies() {
    assert_eq!(registration_reply(&Ok(())), "Successfully registered your Civ username.");
    assert_eq!(
        registration_reply(&Err(RegisterError::WriteFailed(WriteStep::Commit))),
        "Failed to register your Civ username."
    );
}
