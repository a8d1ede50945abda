//! The capability gate: whether read, write or delete may proceed is a pure
//! predicate over the kind currently held on the chunks topic.

use vstd::prelude::*;

use crate::kind::Kind;
use crate::topic::Topic;
use crate::tracker::LockState;
use crate::tracker::Transaction;

verus! {

/// The capability to read chunk data: granted by any lock (`Shared` or
/// `Exclusive`) on the chunks topic.
pub trait ReadChunk {
    /// Whether reading is permitted in the current state.
    spec fn read_allowed(&self) -> bool;

    /// A read probe, standing in for real chunk I/O performed one level up;
    /// unreachable unless the capability predicate holds.
    fn read(&self)
        requires
            self.read_allowed(),
    ;
}

/// The capability to write chunk data: granted by any lock (`Shared` or
/// `Exclusive`) on the chunks topic.
pub trait WriteChunk {
    /// Whether writing is permitted in the current state.
    spec fn write_allowed(&self) -> bool;

    /// A write probe, standing in for real chunk I/O performed one level up;
    /// unreachable unless the capability predicate holds.
    fn write(&self)
        requires
            self.write_allowed(),
    ;
}

/// The capability to delete chunk data: granted only by an `Exclusive` lock
/// on the chunks topic.
pub trait DeleteChunk {
    /// Whether deleting is permitted in the current state.
    spec fn delete_allowed(&self) -> bool;

    /// A delete probe, standing in for real chunk I/O performed one level
    /// up; unreachable unless the capability predicate holds.
    fn delete(&self)
        requires
            self.delete_allowed(),
    ;
}

impl ReadChunk for Transaction {
    open spec fn read_allowed(&self) -> bool {
        self.kind_of(Topic::Chunks).is_locked()
    }

    fn read(&self) {
    }
}

impl WriteChunk for Transaction {
    open spec fn write_allowed(&self) -> bool {
        self.kind_of(Topic::Chunks).is_locked()
    }

    fn write(&self) {
    }
}

impl DeleteChunk for Transaction {
    open spec fn delete_allowed(&self) -> bool {
        self.kind_of(Topic::Chunks).is_exclusive()
    }

    fn delete(&self) {
    }
}

impl LockState {
    /// Whether a read of chunk data may proceed under this record: true iff
    /// any lock is held on the chunks topic.
    pub fn can_read(&self) -> (b: bool)
        ensures
            b == self.kind_of(Topic::Chunks).is_locked(),
    {
        self.kind_of(Topic::Chunks).is_locked()
    }

    /// Whether a write of chunk data may proceed under this record: the
    /// same predicate as for reading; `Shared` is sufficient for writing.
    pub fn can_write(&self) -> (b: bool)
        ensures
            b == self.kind_of(Topic::Chunks).is_locked(),
    {
        self.kind_of(Topic::Chunks).is_locked()
    }

    /// Whether a delete of chunk data may proceed under this record: true
    /// iff an exclusive lock is held on the chunks topic.
    pub fn can_delete(&self) -> (b: bool)
        ensures
            b == self.kind_of(Topic::Chunks).is_exclusive(),
    {
        self.kind_of(Topic::Chunks).is_exclusive()
    }
}

impl Transaction {
    /// Whether this transaction may read chunk data: true iff any lock is
    /// held on the chunks topic.
    pub fn can_read(&self) -> (b: bool)
        ensures
            b == self.kind_of(Topic::Chunks).is_locked(),
    {
        self.kind_of(Topic::Chunks).is_locked()
    }

    /// Whether this transaction may write chunk data: the same predicate as
    /// for reading; `Shared` is sufficient for writing.
    pub fn can_write(&self) -> (b: bool)
        ensures
            b == self.kind_of(Topic::Chunks).is_locked(),
    {
        self.kind_of(Topic::Chunks).is_locked()
    }

    /// Whether this transaction may delete chunk data: true iff an
    /// exclusive lock is held on the chunks topic.
    pub fn can_delete(&self) -> (b: bool)
        ensures
            b == self.kind_of(Topic::Chunks).is_exclusive(),
    {
        self.kind_of(Topic::Chunks).is_exclusive()
    }
}

/// Capability soundness: each operation is permitted exactly when its
/// predicate over the kind held on the chunks topic holds — any lock for
/// read and write, an exclusive lock for delete.
pub proof fn lemma_capability_soundness(t: Transaction)
    ensures
        t.read_allowed() <==> t.kind_of(Topic::Chunks) == Kind::Shared || t.kind_of(
            Topic::Chunks,
        ) == Kind::Exclusive,
        t.write_allowed() <==> t.read_allowed(),
        t.delete_allowed() <==> t.kind_of(Topic::Chunks) == Kind::Exclusive,
{
}

} // verus!

