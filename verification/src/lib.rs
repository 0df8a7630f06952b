//! A cross-chain token settlement receiver.
//!
//! The library accepts relayed messages that assert tokens were locked on a
//! remote chain, validates their provenance against a configured trusted
//! gateway and an optional allow-list of remote senders, decodes a binary
//! token-transfer payload, guards against replays, and produces exactly one
//! balance-transfer instruction per distinct settled message.

pub mod auth;
pub mod codec;
pub mod config;
pub mod engine;
pub mod errors;
pub mod identity;
pub mod replay;
