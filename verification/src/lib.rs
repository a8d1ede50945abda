//! A capability-gated lock-state tracker for a transaction that coordinates
//! access to a fixed set of named resource domains (topics).
//!
//! A [`Transaction`] carries a [`LockState`]: the total mapping from each
//! [`Topic`] to the [`Kind`] of lock currently held on it. Acquisitions go
//! through [`Transaction::lock`], which applies the per-topic transition
//! policy and either returns the updated transaction or reports a
//! [`ConflictError`] alongside the unchanged one. The capability gate
//! (read, write, delete) is a pure predicate over the current lock state.

mod capability;
mod kind;
mod topic;
mod tracker;

pub use capability::DeleteChunk;
pub use capability::ReadChunk;
pub use capability::WriteChunk;
pub use capability::lemma_capability_soundness;
pub use kind::Kind;
pub use topic::Policy;
pub use topic::Topic;
pub use topic::policy_of;
pub use topic::spec_policy_of;
pub use tracker::ConflictError;
pub use tracker::Lock;
pub use tracker::LockState;
pub use tracker::Transaction;
pub use tracker::acquired;
pub use tracker::conflicts;
pub use tracker::lemma_conflict_detection;
pub use tracker::lemma_kinds_determine_state;
pub use tracker::lemma_overwrite_acquisition;
pub use tracker::lemma_overwrite_idempotent;
