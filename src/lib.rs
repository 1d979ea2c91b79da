//! Ticket-resale registration service: users register interest in buying or
//! selling tickets, confirm themselves with a one-time token delivered out of
//! band, and then list, update or delete their entry.
//!
//! - `user`: the record and its mathematical view.
//! - `table`: the relation of records keyed by `(token, username)`.
//! - `handler`: registration: the token to deliver, then the record that holds it.
//! - `notify`: the confirmation message and the discarding notifier.
//! - `token`: decimal reading and writing of tokens, and their source.
//! - `web`: the confirmation link's request and the marker it sets.
//! - `settings`: startup configuration.
//! - `error`: the failure kinds.
//! - `laws`: properties that hold across operations.

pub mod error;
pub mod user;
pub mod table;
pub mod token;
pub mod notify;
pub mod handler;
pub mod settings;
pub mod web;
pub mod laws;
