use vstd::prelude::*;

use crate::alias::lower_of;
use crate::registration::{register_outcome, RegisterError, WriteStep};
use crate::relay::{mention_of, resolve_spec};
use crate::store::{
    first_match, lemma_first_match_push, lemma_with_account_wf, lemma_with_binding_wf, StoreView,
};

verus! {

/// Registering the same account and alias twice succeeds both times, the
/// second registration changes nothing, and the store then holds exactly one
/// row for the account and exactly one binding for the pair.
pub proof fn register_twice_is_register_once(v: StoreView, id: Seq<char>, alias: Seq<char>)
    requires
        v.wf(),
    ensures
        register_outcome(v, id, alias, None).1 is Ok,
        register_outcome(register_outcome(v, id, alias, None).0, id, alias, None)
            == register_outcome(v, id, alias, None),
        register_outcome(v, id, alias, None).0.accounts.to_multiset().count(id) == 1,
        register_outcome(v, id, alias, None).0.bindings.to_multiset().count((id, alias)) == 1,
{
    broadcast use vstd::seq_lib::to_multiset_contains;

    let v1 = register_outcome(v, id, alias, None).0;
    lemma_with_account_wf(v, id);
    lemma_with_binding_wf(v.with_account(id), id, alias);
    assert(v1.accounts.contains(id));
    assert(v1.with_account(id) == v1);
    assert(v1.with_binding(id, alias) == v1);
    v1.accounts.lemma_multiset_has_no_duplicates();
    v1.bindings.lemma_multiset_has_no_duplicates();
}

/// A registration in which any step fails, the binding insert after a
/// successful account insert included, leaves the store exactly as it was:
/// no account row appears that was not there before.
pub proof fn failed_register_writes_nothing(
    v: StoreView,
    id: Seq<char>,
    alias: Seq<char>,
    step: WriteStep,
)
    ensures
        register_outcome(v, id, alias, Some(step)).0 == v,
        register_outcome(v, id, alias, Some(step)).1 == Err::<(), RegisterError>(
            RegisterError::WriteFailed(step),
        ),
        !v.accounts.contains(id) ==> !register_outcome(v, id, alias, Some(step)).0.accounts.contains(id),
{
}

/// Once an alias is registered for an account, and no earlier binding has an
/// alias with the same lowercase form, every alias with that lowercase form
/// resolves to the account's mention.
pub proof fn registered_alias_resolves_to_mention(
    v: StoreView,
    id: Seq<char>,
    alias: Seq<char>,
    query: Seq<char>,
)
    requires
        v.wf(),
        first_match(v.bindings, lower_of(alias)) is None,
        lower_of(query) == lower_of(alias),
    ensures
        resolve_spec(register_outcome(v, id, alias, None).0, query) == mention_of(id),
{
    let va = v.with_account(id);
    assert(va.bindings == v.bindings);
    if va.bindings.contains((id, alias)) {
        let k = choose|k: int| 0 <= k < va.bindings.len() && va.bindings[k] == (id, alias);
        lemma_first_match_some(va.bindings, lower_of(alias), k);
        assert(false);
    }
    lemma_first_match_push(va.bindings, (id, alias), lower_of(alias));
}

/// An alias that no binding matches, up to case, resolves to its own
/// lowercase form.
pub proof fn unbound_alias_resolves_to_itself(v: StoreView, query: Seq<char>)
    requires
        first_match(v.bindings, lower_of(query)) is None,
    ensures
        resolve_spec(v, query) == lower_of(query),
{
}

/// An alias is not unique across accounts: registering it for one account
/// and then for another succeeds both times, and both bindings are kept.
pub proof fn alias_may_be_shared(v: StoreView, a: Seq<char>, b: Seq<char>, alias: Seq<char>)
    requires
        v.wf(),
    ensures
        register_outcome(v, a, alias, None).1 is Ok,
        register_outcome(register_outcome(v, a, alias, None).0, b, alias, None).1 is Ok,
        register_outcome(register_outcome(v, a, alias, None).0, b, alias, None).0.bindings.contains(
            (a, alias),
        ),
        register_outcome(register_outcome(v, a, alias, None).0, b, alias, None).0.bindings.contains(
            (b, alias),
        ),
{
    let v1 = register_outcome(v, a, alias, None).0;
    lemma_with_account_wf(v, a);
    lemma_with_binding_wf(v.with_account(a), a, alias);
    let w = v1.with_account(b);
    lemma_with_account_wf(v1, b);
    assert(w.bindings.contains((a, alias)));
    lemma_with_binding_wf(w, b, alias);
    let v2 = w.with_binding(b, alias);
    if !w.bindings.contains((b, alias)) {
        let k = choose|k: int| 0 <= k < w.bindings.len() && w.bindings[k] == (a, alias);
        assert(v2.bindings[k] == (a, alias));
    }
}

/// Some binding matches where the one at index `k` has the key.
proof fn lemma_first_match_some(bs: Seq<(Seq<char>, Seq<char>)>, key: Seq<char>, k: int)
    requires
        0 <= k < bs.len(),
        lower_of(bs[k].1) == key,
    ensures
        first_match(bs, key) is Some,
    decreases bs.len(),
{
    if k > 0 && lower_of(bs[0].1) != key {
        assert(bs.drop_first()[k - 1] == bs[k]);
        lemma_first_match_some(bs.drop_first(), key, k - 1);
    }
}

} // verus!
