//! Chat-bot core: a persistent content store with deduplication and
//! randomized-retrieval semantics.
//!
//! Three features share the store: a repost detector that canonicalizes
//! links and counts re-shares, a crowd-sourced one-liner store with tiered
//! substring search and uniform random sampling, and a numbered append-only
//! quote ledger. The dispatch loop and the chat-platform connection are
//! collaborators outside this crate; they hand in plain values and get plain
//! values back.

pub mod canonical;
pub mod commands;
pub mod db;
pub mod rng;
pub mod search;
pub mod text;
pub mod utils;
