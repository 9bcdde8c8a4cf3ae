//! A verified feed-polling and deduplication engine.
//!
//! The engine watches a syndication feed on a fixed cadence and announces
//! genuinely new items into a chat channel, suppressing re-announcement of
//! content already posted.  Each tick fetches the feed, compares its newest
//! item against the most recent message in the destination channel, and —
//! only when the item is novel — renders exactly one announcement.
//!
//! The channel itself is the dedup ledger: the engine keeps no store of its
//! own and re-reads the last announcement before every decision, so a
//! restart loses nothing.  All network traffic (the feed fetch, the history
//! query, the send) is performed by the surrounding program, which hands the
//! results to the verified decision functions in this crate.

use vstd::prelude::*;

pub mod detect;
pub mod errors;
pub mod feed;
pub mod item;
pub mod render;
pub mod schedule;
pub mod tick;

verus! {

/// Shared user data handed to every command of the hosting chat framework.
/// The engine itself keeps no per-command state.
pub struct Data {}

} // verus!
