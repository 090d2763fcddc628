use vstd::prelude::*;
use vstd::string::StringExecFns;

use crate::store::{IdentityStore, StoreView};

verus! {

/// One durable step of the registration transaction, in the order they run.
#[derive(Clone, Copy, Debug, PartialEq, Eq, Structural)]
pub enum WriteStep {
    Begin,
    AccountInsert,
    BindingInsert,
    Commit,
}

/// Why a registration did not take effect.
#[derive(Clone, Copy, Debug, PartialEq, Eq, Structural)]
pub enum RegisterError {
    /// The given step failed; the transaction was rolled back.
    WriteFailed(WriteStep),
}

/// What the driver of a registration transaction does next.
#[derive(Clone, Copy, Debug, PartialEq, Eq, Structural)]
pub enum TxAction {
    Execute(WriteStep),
    Rollback,
    Finish,
}

pub open spec fn step_rank(s: WriteStep) -> nat {
    match s {
        WriteStep::Begin => 0,
        WriteStep::AccountInsert => 1,
        WriteStep::BindingInsert => 2,
        WriteStep::Commit => 3,
    }
}

pub open spec fn next_action_spec(step: WriteStep, ok: bool) -> TxAction {
    if !ok {
        TxAction::Rollback
    } else {
        match step {
            WriteStep::Begin => TxAction::Execute(WriteStep::AccountInsert),
            WriteStep::AccountInsert => TxAction::Execute(WriteStep::BindingInsert),
            WriteStep::BindingInsert => TxAction::Execute(WriteStep::Commit),
            WriteStep::Commit => TxAction::Finish,
        }
    }
}

/// The decision after `step` ran and reported `ok`: a failed step rolls the
/// transaction back (after a failed begin there is nothing to undo); a
/// successful one moves to the next step, and a successful commit finishes.
pub fn next_action(step: WriteStep, ok: bool) -> (r: TxAction)
    ensures
        r == next_action_spec(step, ok),
{
    if !ok {
        TxAction::Rollback
    } else {
        match step {
            WriteStep::Begin => TxAction::Execute(WriteStep::AccountInsert),
            WriteStep::AccountInsert => TxAction::Execute(WriteStep::BindingInsert),
            WriteStep::BindingInsert => TxAction::Execute(WriteStep::Commit),
            WriteStep::Commit => TxAction::Finish,
        }
    }
}

/// The store and the result after registering (`id`, `alias`), where
/// `fail_at` names the step that fails, if any.
pub open spec fn register_outcome(
    v: StoreView,
    id: Seq<char>,
    alias: Seq<char>,
    fail_at: Option<WriteStep>,
) -> (StoreView, Result<(), RegisterError>) {
    match fail_at {
        None => (v.with_account(id).with_binding(id, alias), Ok(())),
        Some(s) => (v, Err(RegisterError::WriteFailed(s))),
    }
}

fn fails_at(fail_at: Option<WriteStep>, step: WriteStep) -> (r: bool)
    ensures
        r == (fail_at == Some(step)),
{
    match fail_at {
        Some(s) => s == step,
        None => false,
    }
}

/// Registers `alias` for the account `account_id` in one transaction: once
/// it has begun, the account row is inserted if absent, then the binding if that exact
/// pair is absent. Both writes take effect only when every step, commit
/// included, has succeeded; a failing step leaves the store as it
/// was. `fail_at` makes the named step fail, which exercises the rollback.
pub fn register(
    store: &mut IdentityStore,
    account_id: &String,
    alias: &String,
    fail_at: Option<WriteStep>,
) -> (r: Result<(), RegisterError>)
    requires
        old(store).wf(),
    ensures
        final(store).wf(),
        (final(store)@, r) == register_outcome(old(store)@, account_id@, alias@, fail_at),
{
    let mut step = WriteStep::Begin;
    loop
        invariant
            store.wf(),
            store@ == old(store)@,
            step_rank(step) >= 1 ==> fail_at != Some(WriteStep::Begin),
            step_rank(step) >= 2 ==> fail_at != Some(WriteStep::AccountInsert),
            step_rank(step) >= 3 ==> fail_at != Some(WriteStep::BindingInsert),
        decreases 4 - step_rank(step),
    {
        let ok = !fails_at(fail_at, step);
        match next_action(step, ok) {
            TxAction::Execute(s) => {
                step = s;
            },
            TxAction::Rollback => {
                return Err(RegisterError::WriteFailed(step));
            },
            TxAction::Finish => {
                store.insert_account_if_absent(account_id);
                assert(store@.accounts.contains(account_id@)) by {
                    if !old(store)@.accounts.contains(account_id@) {
                        assert(store@.accounts[store@.accounts.len() - 1] == account_id@);
                    }
                }
                store.insert_binding_if_absent(account_id, alias);
                return Ok(());
            },
        }
    }
}

/// The message shown to the person who asked to register.
pub fn registration_reply(r: &Result<(), RegisterError>) -> (s: String)
    ensures
        r.is_ok() ==> s@ == "Successfully registered your Civ username."@,
        r.is_err() ==> s@ == "Failed to register your Civ username."@,
{
    proof {
        reveal_strlit("Successfully registered your Civ username.");
        reveal_strlit("Failed to register your Civ username.");
    }
    match r {
        Ok(()) => String::from_str("Successfully registered your Civ username."),
        Err(_) => String::from_str("Failed to register your Civ username."),
    }
}

} // verus!
