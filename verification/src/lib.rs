//! A verified record store for a number-guessing game.
//!
//! Players live in a durable keyed store with auto-incrementing ids. Each
//! player carries a per-round secret value and an attempts budget; a pure,
//! verified state machine governs how a guess moves the round forward. The
//! durable regions themselves are held by `ic_stable_structures` behind a
//! small trusted boundary.

pub mod player;
pub mod engine;
mod codec;
mod storage;
pub mod service;
