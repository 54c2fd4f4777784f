//! The dispatch bridge from command outcomes to typed continuations.
//!
//! A caller registers a [`StorageCallback`] naming the result shape of
//! the request it issued; the execution pipeline later produces one
//! [`ProcessResult`] per command. [`StorageCallback::execute`] matches
//! the two and turns the outcome into the typed [`Delivery`] the
//! caller's continuation consumes — exactly once, enforced by moving
//! the callback. A pairing outside the dispatch table is a fatal
//! programming error of the submission layer: it is excluded by
//! precondition and never coerced to a default; the runtime that holds
//! the actual continuations checks [`StorageCallback::accepts`] first
//! and aborts on a mismatch.

use crate::errors::StorageError;
use crate::kv::Key;
use crate::mvcc::{LockInfo, MvccInfo};
use crate::process::ProcessResult;
use crate::txn::TxnStatus;
use vstd::prelude::*;

verus! {

/// The shape of continuation a caller registered for a command: one
/// variant per success-payload type, each either single-shot or
/// batched (keyed by an integer command id).
#[derive(Debug, Clone, Copy, PartialEq, Eq, Structural)]
pub enum StorageCallback {
    /// Expects a bare success.
    Boolean,
    /// Batched form of `Boolean`.
    BatchBoolean,
    /// Expects one result per sub-operation.
    Booleans,
    /// Batched form of `Booleans`.
    BatchBooleans,
    /// Expects the multi-version report of a known key.
    MvccInfoByKey,
    /// Expects the key found by a start-timestamp scan, with its
    /// report.
    MvccInfoByStartTs,
    /// Expects a listing of outstanding locks.
    Locks,
    /// Expects the observed status of a transaction.
    TxnStatus,
}

/// The typed value a callback hands its continuation: the success
/// payload of the matching result inside `Ok(..)`, or the structured
/// error of a `Failed` result inside `Err(..)`, unchanged either way.
#[derive(Debug, PartialEq)]
pub enum Delivery {
    /// Delivered by a `Boolean` or `BatchBoolean` callback.
    Boolean(Result<(), StorageError>),
    /// Delivered by a `Booleans` or `BatchBooleans` callback.
    Booleans(Result<Vec<Result<(), StorageError>>, StorageError>),
    /// Delivered by an `MvccInfoByKey` callback.
    MvccInfoByKey(Result<MvccInfo, StorageError>),
    /// Delivered by an `MvccInfoByStartTs` callback.
    MvccInfoByStartTs(Result<Option<(Key, MvccInfo)>, StorageError>),
    /// Delivered by a `Locks` callback.
    Locks(Result<Vec<LockInfo>, StorageError>),
    /// Delivered by a `TxnStatus` callback.
    TxnStatus(Result<TxnStatus, StorageError>),
}

impl StorageCallback {
    /// The dispatch table: the delivery this callback makes of `pr`,
    /// or `None` when the pairing violates the bridge's contract.
    ///
    /// Each single-shot callback accepts exactly its own success shape
    /// and `Failed`; batch callbacks accept nothing single-shot, and
    /// `NextCommand` is accepted by no callback.
    pub open spec fn spec_delivery(self, pr: ProcessResult) -> Option<Delivery> {
        match (self, pr) {
            (StorageCallback::Boolean, ProcessResult::Res) => Some(
                Delivery::Boolean(Ok(())),
            ),
            (StorageCallback::Boolean, ProcessResult::Failed { err }) => Some(
                Delivery::Boolean(Err(err)),
            ),
            (StorageCallback::Booleans, ProcessResult::MultiRes { results }) => Some(
                Delivery::Booleans(Ok(results)),
            ),
            (StorageCallback::Booleans, ProcessResult::Failed { err }) => Some(
                Delivery::Booleans(Err(err)),
            ),
            (StorageCallback::MvccInfoByKey, ProcessResult::MvccKey { mvcc }) => Some(
                Delivery::MvccInfoByKey(Ok(mvcc)),
            ),
            (StorageCallback::MvccInfoByKey, ProcessResult::Failed { err }) => Some(
                Delivery::MvccInfoByKey(Err(err)),
            ),
            (StorageCallback::MvccInfoByStartTs, ProcessResult::MvccStartTs { mvcc }) => Some(
                Delivery::MvccInfoByStartTs(Ok(mvcc)),
            ),
            (StorageCallback::MvccInfoByStartTs, ProcessResult::Failed { err }) => Some(
                Delivery::MvccInfoByStartTs(Err(err)),
            ),
            (StorageCallback::Locks, ProcessResult::Locks { locks }) => Some(
                Delivery::Locks(Ok(locks)),
            ),
            (StorageCallback::Locks, ProcessResult::Failed { err }) => Some(
                Delivery::Locks(Err(err)),
            ),
            (StorageCallback::TxnStatus, ProcessResult::TxnStatus { txn_status }) => Some(
                Delivery::TxnStatus(Ok(txn_status)),
            ),
            (StorageCallback::TxnStatus, ProcessResult::Failed { err }) => Some(
                Delivery::TxnStatus(Err(err)),
            ),
            _ => None,
        }
    }

    /// Whether `pr` is a result shape this callback may be executed
    /// with.
    pub open spec fn spec_accepts(self, pr: ProcessResult) -> bool {
        self.spec_delivery(pr) is Some
    }

    /// Whether `pr` is exactly this callback's success shape.
    pub open spec fn spec_matches_success(self, pr: ProcessResult) -> bool {
        match (self, pr) {
            (StorageCallback::Boolean, ProcessResult::Res) => true,
            (StorageCallback::Booleans, ProcessResult::MultiRes { .. }) => true,
            (StorageCallback::MvccInfoByKey, ProcessResult::MvccKey { .. }) => true,
            (StorageCallback::MvccInfoByStartTs, ProcessResult::MvccStartTs { .. }) => true,
            (StorageCallback::Locks, ProcessResult::Locks { .. }) => true,
            (StorageCallback::TxnStatus, ProcessResult::TxnStatus { .. }) => true,
            _ => false,
        }
    }

    /// The single-shot callback a batch callback applies to each
    /// member of a batch; `None` for the single-shot callbacks
    /// themselves.
    pub open spec fn spec_unbatched(self) -> Option<StorageCallback> {
        match self {
            StorageCallback::BatchBoolean => Some(StorageCallback::Boolean),
            StorageCallback::BatchBooleans => Some(StorageCallback::Booleans),
            _ => None,
        }
    }

    /// Whether `pr` is a result shape this callback accepts. The
    /// submission layer checks this before dispatching; a `false`
    /// answer means the command pipeline and the callback registration
    /// have drifted out of sync, which the runtime must treat as fatal
    /// rather than coerce.
    pub fn accepts(&self, pr: &ProcessResult) -> (r: bool)
        ensures
            r == self.spec_accepts(*pr),
    {
        match (self, pr) {
            (StorageCallback::Boolean, ProcessResult::Res) => true,
            (StorageCallback::Booleans, ProcessResult::MultiRes { .. }) => true,
            (StorageCallback::MvccInfoByKey, ProcessResult::MvccKey { .. }) => true,
            (StorageCallback::MvccInfoByStartTs, ProcessResult::MvccStartTs { .. }) => true,
            (StorageCallback::Locks, ProcessResult::Locks { .. }) => true,
            (StorageCallback::TxnStatus, ProcessResult::TxnStatus { .. }) => true,
            (StorageCallback::BatchBoolean, _) => false,
            (StorageCallback::BatchBooleans, _) => false,
            (_, ProcessResult::Failed { .. }) => true,
            _ => false,
        }
    }

    /// Delivers the process result of a command to the storage
    /// callback, as the typed value its continuation consumes.
    ///
    /// Consuming `self` makes delivery at-most-once by ownership. The
    /// precondition excludes every pairing outside the dispatch table:
    /// such a pairing is a bug in the submission/execution pairing, and
    /// the runtime aborts on it instead of calling this function.
    pub fn execute(self, pr: ProcessResult) -> (d: Delivery)
        requires
            self.spec_accepts(pr),
        ensures
            Some(d) == self.spec_delivery(pr),
    {
        match (self, pr) {
            (StorageCallback::Boolean, ProcessResult::Res) => Delivery::Boolean(Ok(())),
            (StorageCallback::Boolean, ProcessResult::Failed { err }) => Delivery::Boolean(
                Err(err),
            ),
            (StorageCallback::Booleans, ProcessResult::MultiRes { results }) => Delivery::Booleans(
                Ok(results),
            ),
            (StorageCallback::Booleans, ProcessResult::Failed { err }) => Delivery::Booleans(
                Err(err),
            ),
            (StorageCallback::MvccInfoByKey, ProcessResult::MvccKey { mvcc }) => Delivery::MvccInfoByKey(
                Ok(mvcc),
            ),
            (StorageCallback::MvccInfoByKey, ProcessResult::Failed { err }) => Delivery::MvccInfoByKey(
                Err(err),
            ),
            (StorageCallback::MvccInfoByStartTs, ProcessResult::MvccStartTs { mvcc }) => Delivery::MvccInfoByStartTs(
                Ok(mvcc),
            ),
            (StorageCallback::MvccInfoByStartTs, ProcessResult::Failed { err }) => Delivery::MvccInfoByStartTs(
                Err(err),
            ),
            (StorageCallback::Locks, ProcessResult::Locks { locks }) => Delivery::Locks(Ok(locks)),
            (StorageCallback::Locks, ProcessResult::Failed { err }) => Delivery::Locks(Err(err)),
            (StorageCallback::TxnStatus, ProcessResult::TxnStatus { txn_status }) => Delivery::TxnStatus(
                Ok(txn_status),
            ),
            (StorageCallback::TxnStatus, ProcessResult::Failed { err }) => Delivery::TxnStatus(
                Err(err),
            ),
            _ => vstd::pervasive::unreached(),
        }
    }

    /// Delivers one completion wave of a pipelined batch: every
    /// command id of `pr` appears in the output exactly once, in the
    /// input's order, paired with the delivery its result maps to
    /// under the per-member dispatch table of this batch callback.
    ///
    /// The callback is borrowed mutably, not consumed, because a batch
    /// callback is legitimately invoked again as later waves of the
    /// same pipelined group complete; it is left unchanged.
    pub fn execute_batch(&mut self, pr: Vec<(u64, ProcessResult)>) -> (out: Vec<(u64, Delivery)>)
        requires
            old(self).spec_unbatched() is Some,
            forall|i: int|
                0 <= i < pr@.len() ==> old(self).spec_unbatched()->Some_0.spec_accepts(pr@[i].1),
        ensures
            *final(self) == *old(self),
            out@.len() == pr@.len(),
            forall|i: int|
                0 <= i < pr@.len() ==> out@[i].0 == pr@[i].0 && Some(out@[i].1) == old(
                    self,
                ).spec_unbatched()->Some_0.spec_delivery(pr@[i].1),
    {
        let item_cb: StorageCallback = match self {
            StorageCallback::BatchBoolean => StorageCallback::Boolean,
            StorageCallback::BatchBooleans => StorageCallback::Booleans,
            _ => vstd::pervasive::unreached(),
        };
        let mut rest = pr;
        let mut out: Vec<(u64, Delivery)> = Vec::new();
        while rest.len() > 0
            invariant
                Some(item_cb) == old(self).spec_unbatched(),
                out@.len() + rest@.len() == pr@.len(),
                rest@ == pr@.subrange(out@.len() as int, pr@.len() as int),
                forall|i: int|
                    0 <= i < pr@.len() ==> item_cb.spec_accepts(pr@[i].1),
                forall|i: int|
                    0 <= i < out@.len() ==> out@[i].0 == pr@[i].0 && Some(out@[i].1)
                        == item_cb.spec_delivery(pr@[i].1),
            decreases rest@.len(),
        {
            proof {
                assert(rest@[0] == pr@[out@.len() as int]);
            }
            let (id, r) = rest.remove(0);
            let d = item_cb.execute(r);
            out.push((id, d));
            proof {
                assert(rest@ =~= pr@.subrange(out@.len() as int, pr@.len() as int));
            }
        }
        out
    }
}

/// Law: a callback paired with its matching success result delivers
/// exactly the success payload, unmodified, inside `Ok(..)` — one row
/// per single-shot callback.
pub proof fn lemma_matched_success_delivers_payload(
    results: Vec<Result<(), StorageError>>,
    mvcc: MvccInfo,
    mvcc_by_start_ts: Option<(Key, MvccInfo)>,
    locks: Vec<LockInfo>,
    txn_status: TxnStatus,
)
    ensures
        StorageCallback::Boolean.spec_delivery(ProcessResult::Res) == Some(
            Delivery::Boolean(Ok(())),
        ),
        StorageCallback::Booleans.spec_delivery((ProcessResult::MultiRes { results })) == Some(
            Delivery::Booleans(Ok(results)),
        ),
        StorageCallback::MvccInfoByKey.spec_delivery((ProcessResult::MvccKey { mvcc })) == Some(
            Delivery::MvccInfoByKey(Ok(mvcc)),
        ),
        StorageCallback::MvccInfoByStartTs.spec_delivery(
            (ProcessResult::MvccStartTs { mvcc: mvcc_by_start_ts }),
        ) == Some(Delivery::MvccInfoByStartTs(Ok(mvcc_by_start_ts))),
        StorageCallback::Locks.spec_delivery((ProcessResult::Locks { locks })) == Some(
            Delivery::Locks(Ok(locks)),
        ),
        StorageCallback::TxnStatus.spec_delivery((ProcessResult::TxnStatus { txn_status })) == Some(
            Delivery::TxnStatus(Ok(txn_status)),
        ),
{
}

/// Law: every single-shot callback paired with a `Failed` result
/// delivers the identical structured error inside `Err(..)`.
pub proof fn lemma_failure_delivers_error(err: StorageError)
    ensures
        StorageCallback::Boolean.spec_delivery((ProcessResult::Failed { err })) == Some(
            Delivery::Boolean(Err(err)),
        ),
        StorageCallback::Booleans.spec_delivery((ProcessResult::Failed { err })) == Some(
            Delivery::Booleans(Err(err)),
        ),
        StorageCallback::MvccInfoByKey.spec_delivery((ProcessResult::Failed { err })) == Some(
            Delivery::MvccInfoByKey(Err(err)),
        ),
        StorageCallback::MvccInfoByStartTs.spec_delivery((ProcessResult::Failed { err })) == Some(
            Delivery::MvccInfoByStartTs(Err(err)),
        ),
        StorageCallback::Locks.spec_delivery((ProcessResult::Failed { err })) == Some(
            Delivery::Locks(Err(err)),
        ),
        StorageCallback::TxnStatus.spec_delivery((ProcessResult::Failed { err })) == Some(
            Delivery::TxnStatus(Err(err)),
        ),
{
}

/// Law: the dispatch table accepts exactly the matching pairings — a
/// single-shot callback takes its own success shape or `Failed`, a
/// batch callback takes nothing single-shot, and a `NextCommand`
/// result is accepted by no callback. Everything else is refused, so
/// a mismatch can never be silently delivered as wrong or default
/// data.
pub proof fn lemma_mismatch_refused(cb: StorageCallback, pr: ProcessResult)
    ensures
        cb.spec_accepts(pr) <==> (cb.spec_matches_success(pr) || (pr is Failed && cb
            !is BatchBoolean && cb !is BatchBooleans)),
        pr is NextCommand ==> !cb.spec_accepts(pr),
{
}

} // verus!

