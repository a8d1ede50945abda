//! The closed set of lockable resource domains and their acquisition
//! policies.

use vstd::prelude::*;

verus! {

/// A lockable resource domain within a transaction.
///
/// The set of topics is fixed per deployment of the tracker: adding a topic
/// is a schema change, not a runtime event.
#[derive(Clone, Copy, Debug, PartialEq, Eq, Structural)]
pub enum Topic {
    /// Bulk chunk storage; re-acquisition is always safe here.
    Chunks,
    /// The shared index structure; re-acquiring the kind already held
    /// indicates a caller bug.
    Index,
}

/// The per-topic transition policy applied on acquisition.
#[derive(Clone, Copy, Debug, PartialEq, Eq, Structural)]
pub enum Policy {
    /// Acquisition always succeeds and overwrites the previously held kind.
    Overwrite,
    /// Acquisition fails when the requested kind is exactly the kind already
    /// held; any other request (upgrade or downgrade) succeeds.
    RejectRedundant,
}

/// The policy table: which transition policy governs each topic.
pub open spec fn spec_policy_of(topic: Topic) -> Policy {
    match topic {
        Topic::Chunks => Policy::Overwrite,
        Topic::Index => Policy::RejectRedundant,
    }
}

/// Looks up the transition policy that governs `topic`.
#[verifier::when_used_as_spec(spec_policy_of)]
pub fn policy_of(topic: Topic) -> (p: Policy)
    ensures
        p == spec_policy_of(topic),
{
    match topic {
        Topic::Chunks => Policy::Overwrite,
        Topic::Index => Policy::RejectRedundant,
    }
}

} // verus!
