use civ_relay::alias::normalize_alias;
use civ_relay::registration::register;
use civ_relay::relay::{compose_message, display_identity, mention, relay_message, resolve, translate, CivCloudHook, Lookup};
use civ_relay::store::IdentityStore;

fn s(x: &str) -> String {
    x.to_string()
}

fn hook(game: &str, player: &str, turn: &str) -> CivCloudHook {
    CivCloudHook { game_name: s(game), player_name: s(player), turn_number: s(turn) }
}

#[test]
fn resolve_is_case_insensitive() {
    let mut store = IdentityStore::new();
    assert_eq!(register(&mut store, &s("A"), &s("bob"), None), Ok(()));
    assert_eq!(resolve(&store, &s("BOB")), "<@A>");
    assert_eq!(resolve(&store, &s("unknown")), "unknown");
}

#[test]
fn unknown_alias_is_lowercased() {
    let store = IdentityStore::new();
    assert_eq!(resolve(&store, &s("Ghost")), "ghost");
}

#[test]
fn failed_lookup_falls_back_to_alias() {
    assert_eq!(display_identity(Lookup::Failed, s("bob")), "bob");
    assert_eq!(display_identity(Lookup::Missing, s("bob")), "bob");
    assert_eq!(display_identity(Lookup::Found(s("42")), s("bob")), "<@42>");
    assert_eq!(
        relay_message(&hook("G", "Bob", "3"), Lookup::Failed),
        "Hey bob, it's time to take your turn in G! Game is currently on turn 3"
    );
}

#[test]
fn registered_player_is_mentioned() {
    let mut store = IdentityStore::new();
    assert_eq!(register(&mut store, &s("111"), &s("playerOne"), None), Ok(()));
    assert_eq!(
        translate(&store, &hook("Game1", "playerone", "5")),
        "Hey <@111>, it's time to take your turn in Game1! Game is currently on turn 5"
    );
}

#[test]
fn unregistered_player_is_named() {
    let store = IdentityStore::new();
    assert_eq!(
        translate(&store, &hook("Game2", "ghost", "1")),
        "Hey ghost, it's time to take your turn in Game2! Game is currently on turn 1"
    );
}

#[test]
fn relay_message_with_found_account() {
    assert_eq!(
        relay_message(&hook("Game1", "PlayerOne", "5"), Lookup::Found(s("111"))),
        "Hey <@111>, it's time to take your turn in Game1! Game is currently on turn 5"
    );
}

#[test]
fn turn_number_is_text() {
    assert_eq!(
        compose_message(&s("x"), &s("G"), &s("ten")),
        "Hey x, it's time to take your turn in G! Game is currently on turn ten"
    );
}

#[test]
fn normalize_lowercases() {
    assert_eq!(normalize_alias(&s("PlayerOne")), "playerone");
    assert_eq!(normalize_alias(&s("")), "");
}

#[test]
fn mention_form() {
    assert_eq!(mention(&s("111")), "<@111>");
}
