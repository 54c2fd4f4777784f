//! Structured storage failures, propagated to callers unchanged.

use crate::kv::RawKey;
use crate::mvcc::TimeStamp;
use vstd::prelude::*;

verus! {

/// A failure produced by command execution.
///
/// Errors of this kind are expected, recoverable-by-caller outcomes;
/// the dispatch bridge delivers them inside `Err(..)` without retrying,
/// translating or suppressing them.
#[derive(Debug, Clone, PartialEq, Eq)]
pub enum StorageError {
    /// An `Insert` found a visible value already present under the key.
    AlreadyExist { key: RawKey },
    /// A conflicting lock held by another transaction blocked the
    /// command.
    LockConflict { key: RawKey, locked_by: TimeStamp },
    /// The underlying engine failed.
    Engine { message: String },
}

} // verus!
