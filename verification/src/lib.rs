//! The account-lifecycle core of a federated messaging server: interactive
//! multi-stage authentication, the per-room mutation serializer, and the
//! account operations that are built from the two.
//!
//! The core never touches storage or the network. Each account operation is a
//! transition function: the host hands it the reply to the effect it asked for
//! last, and gets back the next effect to perform or the final result.

pub mod account;
pub mod database;
pub mod error;
pub mod events;
pub mod host;
pub mod identifiers;
pub mod serializer;
pub mod uiaa;
