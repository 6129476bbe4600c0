//! Core of a team-based puzzle competition backend: a TTL-tiered
//! read-through/write-through cache engine, the domain caches built on it, a
//! transactional token-economy ledger with idempotent purchases, the
//! wrong-answer penalty state machine, and puzzle answer resolution.
//!
//! All time is passed in explicitly as seconds since the Unix epoch, and all
//! backing-store reads and writes are performed by the caller: each operation
//! here either answers from its own state or tells the caller exactly what to
//! fetch or persist.
use vstd::prelude::*;

pub mod auto_fetch;
pub mod cache;
pub mod cipher_util;
pub mod economy;
pub mod flows;
pub mod models;
pub mod oracle;
pub mod penalty;
pub mod puzzle;
pub mod stat;
pub mod team;

verus! {

/// Length of the verification code a user must present when joining a team.
pub const VERICODE_LENGTH: usize = 16;

} // verus!
