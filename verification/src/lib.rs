//! Event-sourced scoring engine for superblock mining claims.
//!
//! Participants ("identities") submit evidence that they mined or witnessed a
//! proof-of-work artifact whose difficulty tier exceeds a threshold. The
//! engine tracks a per-identity score through a generic command-execution
//! contract (initialize / execute / rollback), awards points from a tiered
//! table, and authenticates witness claims with a Merkle inclusion proof
//! before any state change.

pub mod episode;
pub mod events;
pub mod game;
pub mod health;
pub mod hexstr;
pub mod leaderboard;
pub mod merkle;
pub mod pki;
pub mod registry;
pub mod session;
pub mod strutil;
pub mod submit;
pub mod tier;
