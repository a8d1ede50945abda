//! The lattice of lock strengths a transaction can hold on a topic.

use vstd::prelude::*;

verus! {

/// The strength of a lock held on a topic.
///
/// `Unlocked` means no lock is held; `Shared` and `Exclusive` both satisfy the
/// "any lock held" predicate, while only `Exclusive` satisfies the
/// "exclusive lock held" predicate. There is no kind stronger than
/// `Exclusive`.
#[derive(Clone, Copy, Debug, PartialEq, Eq, Structural)]
pub enum Kind {
    Unlocked,
    Shared,
    Exclusive,
}

impl Kind {
    /// True for `Shared` and `Exclusive`: some lock is held.
    pub open spec fn spec_is_locked(&self) -> bool {
        self is Shared || self is Exclusive
    }

    /// True only for `Exclusive`.
    pub open spec fn spec_is_exclusive(&self) -> bool {
        self is Exclusive
    }

    /// Whether any lock is held: true for `Shared` and `Exclusive`.
    #[verifier::when_used_as_spec(spec_is_locked)]
    pub fn is_locked(&self) -> (b: bool)
        ensures
            b == self.spec_is_locked(),
    {
        match self {
            Kind::Unlocked => false,
            Kind::Shared => true,
            Kind::Exclusive => true,
        }
    }

    /// Whether an exclusive lock is held: true only for `Exclusive`.
    #[verifier::when_used_as_spec(spec_is_exclusive)]
    pub fn is_exclusive(&self) -> (b: bool)
        ensures
            b == self.spec_is_exclusive(),
    {
        match self {
            Kind::Unlocked => false,
            Kind::Shared => false,
            Kind::Exclusive => true,
        }
    }
}

} // verus!
