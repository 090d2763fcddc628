use vstd::prelude::*;
use vstd::string::StringExecFns;

use crate::alias::{lower_of, normalize_alias};
use crate::store::{first_match, IdentityStore, StoreView};

verus! {

/// A turn notification as the game's webhook posts it.
pub struct CivCloudHook {
    pub game_name: String,
    pub player_name: String,
    pub turn_number: String,
}

/// What an alias lookup against the identity store came back with.
pub enum Lookup {
    /// The alias is bound to this account.
    Found(String),
    /// No binding matches the alias.
    Missing,
    /// The store could not answer.
    Failed,
}

/// The chat platform's mention of an account: `<@id>`.
pub open spec fn mention_of(id: Seq<char>) -> Seq<char> {
    "<@"@ + id + ">"@
}

/// The identity to show for a lookup: the mention of the account found, and
/// otherwise, a failed lookup included, the normalized alias itself.
pub open spec fn display_of(found: Option<Seq<char>>, normalized: Seq<char>) -> Seq<char> {
    match found {
        Some(id) => mention_of(id),
        None => normalized,
    }
}

/// The notification sent for a turn.
pub open spec fn message_text(identity: Seq<char>, game: Seq<char>, turn: Seq<char>) -> Seq<char> {
    "Hey "@ + identity + ", it's time to take your turn in "@ + game
        + "! Game is currently on turn "@ + turn
}

/// The identity shown for `alias` with the store in state `v`.
pub open spec fn resolve_spec(v: StoreView, alias: Seq<char>) -> Seq<char> {
    display_of(first_match(v.bindings, lower_of(alias)), lower_of(alias))
}

pub open spec fn lookup_account(found: Lookup) -> Option<Seq<char>> {
    match found {
        Lookup::Found(id) => Some(id@),
        _ => None,
    }
}

/// The mention of the account `id`.
pub fn mention(id: &String) -> (r: String)
    ensures
        r@ == mention_of(id@),
{
    proof {
        reveal_strlit("<@");
        reveal_strlit(">");
    }
    let mut r = String::from_str("<@");
    r.append(id.as_str());
    r.append(">");
    r
}

/// The identity to show for the outcome of a lookup of `normalized`. A lookup
/// that failed is treated as one that found nothing.
pub fn display_identity(found: Lookup, normalized: String) -> (r: String)
    ensures
        r@ == display_of(lookup_account(found), normalized@),
{
    match found {
        Lookup::Found(id) => mention(&id),
        Lookup::Missing | Lookup::Failed => normalized,
    }
}

/// Fills the notification template.
pub fn compose_message(identity: &String, game: &String, turn: &String) -> (r: String)
    ensures
        r@ == message_text(identity@, game@, turn@),
{
    proof {
        reveal_strlit("Hey ");
        reveal_strlit(", it's time to take your turn in ");
        reveal_strlit("! Game is currently on turn ");
    }
    let mut r = String::from_str("Hey ");
    r.append(identity.as_str());
    r.append(", it's time to take your turn in ");
    r.append(game.as_str());
    r.append("! Game is currently on turn ");
    r.append(turn.as_str());
    r
}

/// The identity shown for `alias`: the mention of the account of the first
/// binding whose alias has the same lowercase form, else the lowercase alias.
pub fn resolve(store: &IdentityStore, alias: &String) -> (r: String)
    ensures
        r@ == resolve_spec(store@, alias@),
{
    let key = normalize_alias(alias);
    let found = match store.lookup(&key) {
        Some(id) => Lookup::Found(id),
        None => Lookup::Missing,
    };
    display_identity(found, key)
}

/// The notification for `hook`, given what the lookup of its normalized
/// player alias came back with.
pub fn relay_message(hook: &CivCloudHook, found: Lookup) -> (r: String)
    ensures
        r@ == message_text(
            display_of(lookup_account(found), lower_of(hook.player_name@)),
            hook.game_name@,
            hook.turn_number@,
        ),
{
    let key = normalize_alias(&hook.player_name);
    let identity = display_identity(found, key);
    compose_message(&identity, &hook.game_name, &hook.turn_number)
}

/// The notification for `hook`, with its player resolved against `store`.
pub fn translate(store: &IdentityStore, hook: &CivCloudHook) -> (r: String)
    ensures
        r@ == message_text(resolve_spec(store@, hook.player_name@), hook.game_name@, hook.turn_number@),
{
    let identity = resolve(store, &hook.player_name);
    compose_message(&identity, &hook.game_name, &hook.turn_number)
}

} // verus!
