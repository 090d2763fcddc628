use vstd::prelude::*;

use crate::alias::{lower_of, normalize_alias};

verus! {

/// An association between an account and one of its game aliases.
pub struct AliasBinding {
    pub account_id: String,
    pub alias: String,
}

impl View for AliasBinding {
    type V = (Seq<char>, Seq<char>);

    open spec fn view(&self) -> (Seq<char>, Seq<char>) {
        (self.account_id@, self.alias@)
    }
}

/// The abstract content of an identity store: account rows and alias
/// bindings, each in the order in which it was first written.
pub struct StoreView {
    pub accounts: Seq<Seq<char>>,
    pub bindings: Seq<(Seq<char>, Seq<char>)>,
}

impl StoreView {
    /// Account rows are unique, binding pairs are unique, and every binding
    /// refers to an existing account.
    pub open spec fn wf(self) -> bool {
        &&& self.accounts.no_duplicates()
        &&& self.bindings.no_duplicates()
        &&& forall|i: int| 0 <= i < self.bindings.len()
            ==> #[trigger] self.accounts.contains(self.bindings[i].0)
    }

    pub open spec fn with_account(self, id: Seq<char>) -> StoreView {
        if self.accounts.contains(id) {
            self
        } else {
            StoreView { accounts: self.accounts.push(id), bindings: self.bindings }
        }
    }

    pub open spec fn with_binding(self, id: Seq<char>, alias: Seq<char>) -> StoreView {
        if self.bindings.contains((id, alias)) {
            self
        } else {
            StoreView { accounts: self.accounts, bindings: self.bindings.push((id, alias)) }
        }
    }
}

/// The account of the first binding, in order of registration, whose alias
/// has the lowercase form `key`. Ties between accounts that share an alias
/// go to the earliest registration.
pub open spec fn first_match(bs: Seq<(Seq<char>, Seq<char>)>, key: Seq<char>) -> Option<Seq<char>>
    decreases bs.len(),
{
    if bs.len() == 0 {
        None
    } else if lower_of(bs[0].1) == key {
        Some(bs[0].0)
    } else {
        first_match(bs.drop_first(), key)
    }
}

/// Adding an account row keeps a store well formed.
pub proof fn lemma_with_account_wf(v: StoreView, id: Seq<char>)
    requires
        v.wf(),
    ensures
        v.with_account(id).wf(),
        v.with_account(id).accounts.contains(id),
{
    let w = v.with_account(id);
    if !v.accounts.contains(id) {
        assert(w.accounts[w.accounts.len() - 1] == id);
        assert forall|i: int| 0 <= i < w.bindings.len()
            implies #[trigger] w.accounts.contains(w.bindings[i].0) by {
            assert(v.accounts.contains(v.bindings[i].0));
            let k = choose|k: int| 0 <= k < v.accounts.len() && v.accounts[k] == v.bindings[i].0;
            assert(w.accounts[k] == w.bindings[i].0);
        }
    }
}

/// Adding a binding for an existing account keeps a store well formed.
pub proof fn lemma_with_binding_wf(v: StoreView, id: Seq<char>, alias: Seq<char>)
    requires
        v.wf(),
        v.accounts.contains(id),
    ensures
        v.with_binding(id, alias).wf(),
        v.with_binding(id, alias).bindings.contains((id, alias)),
{
    let w = v.with_binding(id, alias);
    if !v.bindings.contains((id, alias)) {
        assert(w.bindings[w.bindings.len() - 1] == (id, alias));
        assert forall|i: int| 0 <= i < w.bindings.len()
            implies #[trigger] w.accounts.contains(w.bindings[i].0) by {
            if i < v.bindings.len() {
                assert(w.bindings[i] == v.bindings[i]);
            }
        }
    }
}

/// The first match in a sequence with one more binding at its end.
pub proof fn lemma_first_match_push(
    bs: Seq<(Seq<char>, Seq<char>)>,
    e: (Seq<char>, Seq<char>),
    key: Seq<char>,
)
    ensures
        first_match(bs.push(e), key) == (if first_match(bs, key).is_some() {
            first_match(bs, key)
        } else if lower_of(e.1) == key {
            Some(e.0)
        } else {
            None
        }),
    decreases bs.len(),
{
    if bs.len() > 0 {
        assert(bs.push(e)[0] == bs[0]);
        assert(bs.push(e).drop_first() =~= bs.drop_first().push(e));
        lemma_first_match_push(bs.drop_first(), e, key);
    } else {
        assert(bs.push(e)[0] == e);
        assert(bs.push(e).drop_first() =~= bs);
    }
}

/// The durable mapping between chat accounts and game aliases, insert-only.
pub struct IdentityStore {
    accounts: Vec<String>,
    bindings: Vec<AliasBinding>,
}

impl View for IdentityStore {
    type V = StoreView;

    closed spec fn view(&self) -> StoreView {
        StoreView {
            accounts: self.accounts@.map_values(|a: String| a@),
            bindings: self.bindings@.map_values(|b: AliasBinding| b@),
        }
    }
}

impl IdentityStore {
    pub open spec fn wf(&self) -> bool {
        self@.wf()
    }

    /// An empty store.
    pub fn new() -> (r: IdentityStore)
        ensures
            r.wf(),
            r@.accounts.len() == 0,
            r@.bindings.len() == 0,
    {
        IdentityStore { accounts: Vec::new(), bindings: Vec::new() }
    }

    /// Whether an account row exists for `id`.
    pub fn has_account(&self, id: &String) -> (r: bool)
        ensures
            r == self@.accounts.contains(id@),
    {
        let mut i: usize = 0;
        while i < self.accounts.len()
            invariant
                i <= self.accounts.len(),
                forall|j: int| 0 <= j < i ==> self@.accounts[j] != id@,
            decreases self.accounts.len() - i,
        {
            if self.accounts[i] == *id {
                assert(self@.accounts[i as int] == id@);
                return true;
            }
            i += 1;
        }
        false
    }

    /// Whether the binding (`id`, `alias`) exists.
    pub fn has_binding(&self, id: &String, alias: &String) -> (r: bool)
        ensures
            r == self@.bindings.contains((id@, alias@)),
    {
        let mut i: usize = 0;
        while i < self.bindings.len()
            invariant
                i <= self.bindings.len(),
                forall|j: int| 0 <= j < i ==> self@.bindings[j] != (id@, alias@),
            decreases self.bindings.len() - i,
        {
            if self.bindings[i].account_id == *id && self.bindings[i].alias == *alias {
                assert(self@.bindings[i as int] == (id@, alias@));
                return true;
            }
            i += 1;
        }
        false
    }

    /// The account bound to an alias whose lowercase form is `key`; the
    /// earliest such binding wins.
    pub fn lookup(&self, key: &String) -> (r: Option<String>)
        ensures
            r.is_some() == first_match(self@.bindings, key@).is_some(),
            r.is_some() ==> r.unwrap()@ == first_match(self@.bindings, key@).unwrap(),
    {
        let ghost bs = self@.bindings;
        let mut i: usize = 0;
        assert(bs.subrange(0, bs.len() as int) =~= bs);
        while i < self.bindings.len()
            invariant
                i <= self.bindings.len(),
                bs == self@.bindings,
                first_match(bs, key@) == first_match(bs.subrange(i as int, bs.len() as int), key@),
            decreases self.bindings.len() - i,
        {
            let folded = normalize_alias(&self.bindings[i].alias);
            assert(bs[i as int] == self.bindings@[i as int]@);
            assert(bs.subrange(i as int, bs.len() as int).drop_first()
                =~= bs.subrange(i + 1, bs.len() as int));
            if folded == *key {
                return Some(self.bindings[i].account_id.clone());
            }
            i += 1;
        }
        None
    }

    /// The number of account rows.
    pub fn account_count(&self) -> (r: usize)
        ensures
            r == self@.accounts.len(),
    {
        self.accounts.len()
    }

    /// The number of alias bindings.
    pub fn binding_count(&self) -> (r: usize)
        ensures
            r == self@.bindings.len(),
    {
        self.bindings.len()
    }

    /// Adds an account row for `id` unless one exists.
    pub fn insert_account_if_absent(&mut self, id: &String)
        requires
            old(self).wf(),
        ensures
            final(self).wf(),
            final(self)@ == old(self)@.with_account(id@),
    {
        proof {
            lemma_with_account_wf(old(self)@, id@);
        }
        if !self.has_account(id) {
            self.accounts.push(id.clone());
            assert(self@.accounts =~= old(self)@.accounts.push(id@));
            assert(self@.bindings =~= old(self)@.bindings);
        }
    }

    /// Adds the binding (`id`, `alias`) unless that exact pair exists.
    pub fn insert_binding_if_absent(&mut self, id: &String, alias: &String)
        requires
            old(self).wf(),
            old(self)@.accounts.contains(id@),
        ensures
            final(self).wf(),
            final(self)@ == old(self)@.with_binding(id@, alias@),
    {
        proof {
            lemma_with_binding_wf(old(self)@, id@, alias@);
        }
        if !self.has_binding(id, alias) {
            self.bindings.push(AliasBinding { account_id: id.clone(), alias: alias.clone() });
            assert(self@.bindings =~= old(self)@.bindings.push((id@, alias@)));
            assert(self@.accounts =~= old(self)@.accounts);
        }
    }
}

} // verus!
