//! Core scheduling and mirror-selection engine of a caching download proxy.
//!
//! Client requests ("orders") for immutable artifacts are served once from one
//! of several upstream providers (mirrors) and then cached. This crate holds
//! the engine that deduplicates concurrent requests for the same order, picks
//! a provider by a dynamic score, retries on failure across the remaining
//! providers, reuses open channels, and maintains the cache-state index.
//! The transport itself (what a job actually does on the wire) is supplied by
//! the embedding program through the [`job::Job`] trait.

pub mod attempt;
pub mod context;
pub mod job;
pub mod kvmap;
pub mod mirrors;
pub mod order_state;
pub mod registry;
pub mod score;
pub mod str_path;
pub mod supervisor;
pub mod tally;
