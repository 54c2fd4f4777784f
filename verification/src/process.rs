//! Outcomes produced by the command-execution pipeline.

use crate::errors::StorageError;
use crate::kv::Key;
use crate::mutation::Mutation;
use crate::mvcc::{LockInfo, MvccInfo, TimeStamp};
use crate::txn::TxnStatus;
use vstd::prelude::*;

verus! {

/// A follow-up command scheduled by the execution pipeline after a
/// completed one. The dispatch bridge forwards it without inspecting
/// it, so only the data a scheduler re-submits is modeled here.
#[derive(Debug, PartialEq, Eq)]
pub struct Command {
    /// The start timestamp of the transaction the command belongs to.
    pub start_ts: TimeStamp,
    /// The mutations the command carries.
    pub mutations: Vec<Mutation>,
}

/// The result of one completed command: exactly one variant is
/// produced per command.
#[derive(Debug, PartialEq)]
pub enum ProcessResult {
    /// Bare success.
    Res,
    /// One result per sub-operation of the command.
    MultiRes { results: Vec<Result<(), StorageError>> },
    /// The multi-version report for a known key.
    MvccKey { mvcc: MvccInfo },
    /// The key found by a start-timestamp scan, with its report, if
    /// any.
    MvccStartTs { mvcc: Option<(Key, MvccInfo)> },
    /// A listing of outstanding locks.
    Locks { locks: Vec<LockInfo> },
    /// The observed status of a transaction.
    TxnStatus { txn_status: TxnStatus },
    /// A request to continue with a follow-up command.
    NextCommand { cmd: Command },
    /// Terminal failure, carrying the structured error.
    Failed { err: StorageError },
}

} // verus!
