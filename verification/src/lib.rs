//! Result-typing and transaction-state core of an MVCC transactional
//! key-value store.
//!
//! The library defines the canonical representation of a row-level write
//! intent ([`mutation::Mutation`]), the observable states of a
//! transaction's primary lock ([`txn::TxnStatus`]), the per-key
//! multi-version snapshot ([`mvcc::MvccInfo`]), and the dispatch bridge
//! that connects the outcome of an asynchronously executed command
//! ([`process::ProcessResult`]) to the strongly-typed continuation the
//! caller registered ([`callback::StorageCallback`]), including the
//! batched form keyed by command identity.

pub mod callback;
pub mod errors;
pub mod kv;
pub mod mutation;
pub mod mvcc;
pub mod process;
pub mod txn;
