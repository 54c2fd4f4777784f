//! Multi-version concurrency-control records reported for a key.

use crate::kv::{RawKey, Value};
use vstd::prelude::*;

verus! {

/// A logical timestamp assigned by the transaction oracle; commit and
/// start timestamps are drawn from the same totally ordered domain.
#[derive(Debug, Clone, Copy, PartialEq, Eq, Structural, Hash)]
pub struct TimeStamp(pub u64);

impl TimeStamp {
    /// Wraps a raw timestamp value.
    pub fn new(ts: u64) -> (r: TimeStamp)
        ensures
            r == TimeStamp(ts),
    {
        TimeStamp(ts)
    }

    /// The raw timestamp value.
    pub fn into_inner(self) -> (r: u64)
        ensures
            r == self.0,
    {
        self.0
    }
}

/// An outstanding lock on a key, as an owned copy of engine state (not
/// a reference into the engine).
#[derive(Debug, Clone, PartialEq, Eq)]
pub struct Lock {
    /// The primary key of the transaction that holds the lock.
    pub primary: RawKey,
    /// The start timestamp of that transaction.
    pub ts: TimeStamp,
    /// Time-to-live of the lock, after which it may be rolled back.
    pub ttl: u64,
}

/// A commit record retained for a key.
#[derive(Debug, Clone, PartialEq, Eq)]
pub struct Write {
    /// The start timestamp of the transaction that wrote the record.
    pub start_ts: TimeStamp,
    /// A small value stored inline in the record, if any.
    pub short_value: Option<Value>,
}

/// One entry of a lock listing, as reported to inspection callers.
#[derive(Debug, Clone, PartialEq, Eq)]
pub struct LockInfo {
    /// The primary key of the locking transaction.
    pub primary_lock: RawKey,
    /// The start timestamp of the locking transaction.
    pub lock_version: u64,
    /// The locked key itself.
    pub key: RawKey,
    /// Time-to-live of the lock.
    pub lock_ttl: u64,
}

/// All multi-version information held for one key: the current lock,
/// the visible commit records, and the retained historical values.
///
/// `writes` and `values` are independently populated: a write record
/// may survive with its value already reclaimed by compaction, and
/// vice versa during the scan window, so no cross-consistency holds
/// between the two sequences beyond what the engine snapshot provided.
/// Both are ordered by descending timestamp, the order of the engine's
/// backward scan.
#[derive(Debug, Clone, PartialEq)]
pub struct MvccInfo {
    /// The current outstanding lock on the key, if any.
    pub lock: Option<Lock>,
    /// Commit records, each paired with its commit timestamp.
    pub writes: Vec<(TimeStamp, Write)>,
    /// Historical values, each paired with the start timestamp of the
    /// transaction that wrote it.
    pub values: Vec<(TimeStamp, Value)>,
}

impl MvccInfo {
    /// Whether the report carries no lock, no writes and no values.
    pub open spec fn spec_is_empty(self) -> bool {
        &&& self.lock is None
        &&& self.writes@ == Seq::<(TimeStamp, Write)>::empty()
        &&& self.values@ == Seq::<(TimeStamp, Value)>::empty()
    }
}

impl Default for MvccInfo {
    /// The empty report: no lock, no writes, no values.
    fn default() -> (r: MvccInfo)
        ensures
            r.spec_is_empty(),
    {
        MvccInfo { lock: None, writes: Vec::new(), values: Vec::new() }
    }
}

} // verus!
