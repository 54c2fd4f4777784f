//! The observable status of a transaction's primary lock.

use crate::mvcc::TimeStamp;
use vstd::prelude::*;

verus! {

/// The status of a transaction, as observed by one lock inspection.
///
/// Each inspection produces a fresh, terminal snapshot value; no
/// instance transitions in place. The two parametrized variants are
/// built through [`TxnStatus::uncommitted`] and
/// [`TxnStatus::committed`].
#[derive(Debug, Clone, Copy, PartialEq, Eq, Structural)]
pub enum TxnStatus {
    /// The transaction was already rolled back before this inspection.
    Rollbacked,
    /// This inspection rolled the lock back because its time-to-live
    /// had elapsed.
    TtlExpire,
    /// No lock was found, and no commit record exists either.
    LockNotExist,
    /// The lock is live; `min_commit_ts` is the earliest timestamp at
    /// which commit may legally occur.
    Uncommitted { lock_ttl: u64, min_commit_ts: TimeStamp },
    /// The transaction committed at `commit_ts`.
    Committed { commit_ts: TimeStamp },
}

impl TxnStatus {
    /// Builds the status of a live, uncommitted lock.
    pub fn uncommitted(lock_ttl: u64, min_commit_ts: TimeStamp) -> (r: TxnStatus)
        ensures
            r == (TxnStatus::Uncommitted { lock_ttl, min_commit_ts }),
    {
        TxnStatus::Uncommitted { lock_ttl, min_commit_ts }
    }

    /// Builds the status of a transaction committed at `commit_ts`.
    pub fn committed(commit_ts: TimeStamp) -> (r: TxnStatus)
        ensures
            r == (TxnStatus::Committed { commit_ts }),
    {
        TxnStatus::Committed { commit_ts }
    }
}

/// Two `Uncommitted` statuses are equal exactly when both their
/// time-to-live and their minimum commit timestamp agree, and an
/// `Uncommitted` status differs from every status of another variant.
pub proof fn lemma_uncommitted_equality(
    a_ttl: u64,
    a_ts: TimeStamp,
    b_ttl: u64,
    b_ts: TimeStamp,
    other: TxnStatus,
)
    ensures
        ((TxnStatus::Uncommitted { lock_ttl: a_ttl, min_commit_ts: a_ts }) == (TxnStatus::Uncommitted {
            lock_ttl: b_ttl,
            min_commit_ts: b_ts,
        })) <==> (a_ttl == b_ttl && a_ts == b_ts),
        other !is Uncommitted ==> other != (TxnStatus::Uncommitted {
            lock_ttl: a_ttl,
            min_commit_ts: a_ts,
        }),
{
}

/// Two `Committed` statuses are equal exactly when their commit
/// timestamps agree, and a `Committed` status differs from every
/// status of another variant.
pub proof fn lemma_committed_equality(a_ts: TimeStamp, b_ts: TimeStamp, other: TxnStatus)
    ensures
        ((TxnStatus::Committed { commit_ts: a_ts }) == (TxnStatus::Committed { commit_ts: b_ts }))
            <==> a_ts == b_ts,
        other !is Committed ==> other != (TxnStatus::Committed { commit_ts: a_ts }),
{
}

} // verus!
