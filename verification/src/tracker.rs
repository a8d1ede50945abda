//! The lock-state record, the transaction that carries it, and the
//! acquisition protocol with its conflict detection.

use vstd::prelude::*;

use crate::kind::Kind;
use crate::topic::Policy;
use crate::topic::Topic;
use crate::topic::policy_of;

verus! {

/// An immutable snapshot mapping each topic to the kind of lock currently
/// held on it. The mapping is total: absence of a lock is represented by
/// `Kind::Unlocked`, not by omission. A record is never mutated in place;
/// every successful acquisition produces a new one.
pub struct LockState {
    chunks: Kind,
    index: Kind,
}

impl LockState {
    /// The kind held on `topic`, as a mathematical function of the record.
    pub closed spec fn spec_kind_of(&self, topic: Topic) -> Kind {
        match topic {
            Topic::Chunks => self.chunks,
            Topic::Index => self.index,
        }
    }

    /// The record identical to `self` except that `topic` maps to `kind`.
    pub closed spec fn spec_with_kind(self, topic: Topic, kind: Kind) -> LockState {
        match topic {
            Topic::Chunks => LockState { chunks: kind, ..self },
            Topic::Index => LockState { index: kind, ..self },
        }
    }

    /// A record with every topic unlocked.
    pub fn new() -> (s: LockState)
        ensures
            forall|topic: Topic| s.kind_of(topic) == Kind::Unlocked,
    {
        LockState { chunks: Kind::Unlocked, index: Kind::Unlocked }
    }

    /// The kind currently held on `topic`; total and pure.
    #[verifier::when_used_as_spec(spec_kind_of)]
    pub fn kind_of(&self, topic: Topic) -> (k: Kind)
        ensures
            k == self.spec_kind_of(topic),
    {
        match topic {
            Topic::Chunks => self.chunks,
            Topic::Index => self.index,
        }
    }

    /// Returns a new record identical to `self` except that `topic` now maps
    /// to `kind`; every other topic keeps its previous kind.
    pub fn with_kind(&self, topic: Topic, kind: Kind) -> (r: LockState)
        ensures
            r == self.spec_with_kind(topic, kind),
            r.kind_of(topic) == kind,
            forall|other: Topic| other != topic ==> r.kind_of(other) == self.kind_of(other),
    {
        match topic {
            Topic::Chunks => LockState { chunks: kind, index: self.index },
            Topic::Index => LockState { chunks: self.chunks, index: kind },
        }
    }
}

impl Default for LockState {
    /// A record with every topic unlocked.
    fn default() -> (s: LockState)
        ensures
            forall|topic: Topic| s.kind_of(topic) == Kind::Unlocked,
    {
        LockState::new()
    }
}

/// The single error kind of the tracker, raised only by the
/// reject-redundant policy when the requested kind exactly matches the kind
/// currently held on the topic.
#[derive(Clone, Copy, Debug, PartialEq, Eq, Structural)]
pub struct ConflictError {
    /// The topic on which the conflicting acquisition was attempted.
    pub topic: Topic,
    /// The kind that was requested and found to be already held.
    pub requested: Kind,
}

impl ConflictError {
    /// A human-readable, topic-specific description of the conflict.
    pub fn message(&self) -> (m: &'static str)
        ensures
            self.topic is Chunks ==> m@ == "already holding requested kind for chunks"@,
            self.topic is Index ==> m@ == "already holding requested kind for index"@,
    {
        match self.topic {
            Topic::Chunks => "already holding requested kind for chunks",
            Topic::Index => "already holding requested kind for index",
        }
    }
}

/// The unit of work; owns exactly one lock-state record. Acquisition
/// consumes the transaction and produces a new one, or returns the original
/// value unchanged alongside the error.
pub struct Transaction {
    locks: LockState,
}

/// Whether acquiring `kind` on `topic` conflicts with the state of `t`:
/// only a topic governed by the reject-redundant policy can conflict, and
/// only when the requested kind is exactly the kind already held.
pub open spec fn conflicts(t: Transaction, topic: Topic, kind: Kind) -> bool {
    policy_of(topic) is RejectRedundant && t.kind_of(topic) == kind
}

/// The transaction produced by a successful acquisition of `kind` on
/// `topic` from `t`: `topic` now maps to `kind` and every other topic keeps
/// its previous kind.
pub closed spec fn acquired(t: Transaction, topic: Topic, kind: Kind) -> Transaction {
    Transaction { locks: t.locks.spec_with_kind(topic, kind) }
}

/// The acquisition protocol, abstracted over the carrier of the lock state.
///
/// A carrier exposes the kind it holds on each topic; `aquire_lock` applies
/// the per-topic transition policy: it either consumes the carrier and
/// produces one whose kind on the requested topic is the requested kind, or
/// reports a conflict and hands the carrier back unchanged.
pub trait Lock: Sized {
    /// The kind currently held on `topic` by this carrier.
    spec fn held(&self, topic: Topic) -> Kind;

    /// Applies the acquisition policy of `topic` for a request of `kind`.
    fn aquire_lock(self, topic: Topic, kind: Kind) -> (r: Result<Self, (Self, ConflictError)>)
        ensures
            r is Ok <==> !(policy_of(topic) is RejectRedundant && self.held(topic) == kind),
            r matches Ok(next) ==> next.held(topic) == kind && (forall|other: Topic|
                other != topic ==> next.held(other) == self.held(other)),
            r matches Err(fail) ==> {
                &&& fail.0 == self
                &&& fail.1 == (ConflictError { topic, requested: kind })
            },
    ;
}

impl Lock for Transaction {
    open spec fn held(&self, topic: Topic) -> Kind {
        self.spec_kind_of(topic)
    }

    fn aquire_lock(self, topic: Topic, kind: Kind) -> (r: Result<
        Transaction,
        (Transaction, ConflictError),
    >) {
        match policy_of(topic) {
            Policy::Overwrite => Ok(Transaction { locks: self.locks.with_kind(topic, kind) }),
            Policy::RejectRedundant => {
                if self.locks.kind_of(topic) == kind {
                    Err((self, ConflictError { topic, requested: kind }))
                } else {
                    Ok(Transaction { locks: self.locks.with_kind(topic, kind) })
                }
            },
        }
    }
}

impl Transaction {
    /// The kind this transaction currently holds on `topic`.
    pub closed spec fn spec_kind_of(&self, topic: Topic) -> Kind {
        self.locks.spec_kind_of(topic)
    }

    /// A transaction with the externally supplied initial lock state.
    pub fn new(initial: LockState) -> (t: Transaction)
        ensures
            forall|topic: Topic| t.kind_of(topic) == initial.kind_of(topic),
    {
        Transaction { locks: initial }
    }

    /// The kind this transaction currently holds on `topic`.
    #[verifier::when_used_as_spec(spec_kind_of)]
    pub fn kind_of(&self, topic: Topic) -> (k: Kind)
        ensures
            k == self.spec_kind_of(topic),
    {
        self.locks.kind_of(topic)
    }

    /// Acquires `kind` on `topic` under the policy that governs the topic.
    ///
    /// Under the overwrite policy this always succeeds; under the
    /// reject-redundant policy it fails exactly when `kind` is already the
    /// kind held on `topic`. On success the returned transaction holds
    /// `kind` on `topic` and is otherwise unchanged; on failure the original
    /// transaction is handed back untouched beside the error.
    pub fn lock(self, topic: Topic, kind: Kind) -> (r: Result<
        Transaction,
        (Transaction, ConflictError),
    >)
        ensures
            r is Ok <==> !conflicts(self, topic, kind),
            r matches Ok(elevated) ==> {
                &&& elevated == acquired(self, topic, kind)
                &&& elevated.kind_of(topic) == kind
                &&& forall|other: Topic|
                    other != topic ==> elevated.kind_of(other) == self.kind_of(other)
            },
            r matches Err(fail) ==> {
                &&& fail.0 == self
                &&& fail.1 == (ConflictError { topic, requested: kind })
            },
    {
        let ghost orig = self;
        let r = self.aquire_lock(topic, kind);
        proof {
            if r is Ok {
                let elevated = r->Ok_0;
                assert forall|t: Topic|
                    elevated.kind_of(t) == acquired(orig, topic, kind).kind_of(t) by {
                    assert(elevated.held(t) == elevated.kind_of(t));
                    if t != topic {
                        assert(elevated.held(t) == orig.held(t));
                    }
                };
                lemma_kinds_determine_state(elevated, acquired(orig, topic, kind));
            }
        }
        r
    }

    /// Runs `body` on a scoped elevation of this transaction.
    ///
    /// The current lock state is copied; the acquisition protocol runs
    /// against the copy. On conflict the error is returned at once, `body`
    /// is never invoked, and on every path the caller's transaction is left
    /// exactly as it was before the call: elevation never leaks into the
    /// caller's persistent state.
    pub fn with_lock<F: Fn(Transaction)>(
        &mut self,
        topic: Topic,
        kind: Kind,
        body: F,
    ) -> (r: Result<(), (Transaction, ConflictError)>)
        requires
            !conflicts(*old(self), topic, kind) ==> call_requires(
                body,
                (acquired(*old(self), topic, kind),),
            ),
        ensures
            *final(self) == *old(self),
            r is Ok <==> !conflicts(*old(self), topic, kind),
            r is Ok ==> call_ensures(body, (acquired(*old(self), topic, kind),), ()),
            r matches Err(fail) ==> {
                &&& fail.0 == *old(self)
                &&& fail.1 == (ConflictError { topic, requested: kind })
            },
    {
        let snapshot = Transaction {
            locks: LockState { chunks: self.locks.chunks, index: self.locks.index },
        };
        match snapshot.lock(topic, kind) {
            Ok(elevated) => {
                body(elevated);
                Ok(())
            },
            Err(fail) => Err(fail),
        }
    }
}

impl Default for Transaction {
    /// A transaction with every topic unlocked.
    fn default() -> (t: Transaction)
        ensures
            forall|topic: Topic| t.kind_of(topic) == Kind::Unlocked,
    {
        Transaction { locks: LockState::new() }
    }
}

/// Two transactions that hold the same kind on every topic are equal: a
/// transaction is nothing but its lock state, so a transaction handed back
/// unchanged on failure is observationally identical to the one passed in.
pub proof fn lemma_kinds_determine_state(a: Transaction, b: Transaction)
    requires
        forall|topic: Topic| a.kind_of(topic) == b.kind_of(topic),
    ensures
        a == b,
{
    assert(a.kind_of(Topic::Chunks) == b.kind_of(Topic::Chunks));
    assert(a.kind_of(Topic::Index) == b.kind_of(Topic::Index));
}

/// Acquisition correctness for the overwrite policy: on a topic governed by
/// it, acquiring any kind never conflicts, the resulting state holds
/// exactly the requested kind on that topic, and every other topic keeps
/// its previous kind.
pub proof fn lemma_overwrite_acquisition(t: Transaction, topic: Topic, kind: Kind)
    requires
        policy_of(topic) is Overwrite,
    ensures
        !conflicts(t, topic, kind),
        acquired(t, topic, kind).kind_of(topic) == kind,
        forall|other: Topic|
            other != topic ==> acquired(t, topic, kind).kind_of(other) == t.kind_of(other),
{
}

/// Conflict detection: on a topic governed by the reject-redundant policy,
/// acquiring `kind` conflicts exactly when `kind` is already the kind held
/// on that topic; upgrades and downgrades never conflict.
pub proof fn lemma_conflict_detection(t: Transaction, topic: Topic, kind: Kind)
    requires
        policy_of(topic) is RejectRedundant,
    ensures
        conflicts(t, topic, kind) <==> t.kind_of(topic) == kind,
{
}

/// Idempotent overwrite: on a topic governed by the overwrite policy,
/// acquiring the same kind twice in sequence leaves exactly the state that
/// acquiring it once leaves, and the second acquisition never conflicts.
pub proof fn lemma_overwrite_idempotent(t: Transaction, topic: Topic, kind: Kind)
    requires
        policy_of(topic) is Overwrite,
    ensures
        !conflicts(acquired(t, topic, kind), topic, kind),
        acquired(acquired(t, topic, kind), topic, kind) == acquired(t, topic, kind),
{
}

} // verus!
