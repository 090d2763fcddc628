//! Relay of turn notifications from a game's webhook to a chat channel,
//! with a registry that maps game aliases to chat accounts.
pub mod alias;
pub mod laws;
pub mod registration;
pub mod relay;
pub mod store;
