//! Row-level write intents submitted as part of a transaction.

use crate::kv::{Key, RawKey, Value};
use vstd::prelude::*;

verus! {

/// A row mutation: one write intent against a target key.
///
/// The optional `Vec<RawKey>` of each variant lists the other keys
/// participating in the same transaction; its presence marks the
/// mutation as eligible for the async/one-phase commit optimization.
/// When present, the list excludes the mutation's own key and holds
/// each secondary key at most once; duplicates are a caller error.
/// A mutation is immutable after construction and is consumed exactly
/// once, by [`Mutation::into_inner`], when execution completes.
#[derive(Debug, PartialEq, Eq)]
pub enum Mutation {
    /// Put `Value` into `Key`, overwriting any existing value.
    Put((Key, Value, Option<Vec<RawKey>>)),
    /// Delete `Key`.
    Delete((Key, Option<Vec<RawKey>>)),
    /// Set a lock on `Key` with no value change (read-for-update).
    Lock((Key, Option<Vec<RawKey>>)),
    /// Put `Value` into `Key` only if `Key` has no visible value; the
    /// eventual outcome signals an already-exists error otherwise.
    Insert((Key, Value, Option<Vec<RawKey>>)),
}

impl Mutation {
    /// The target key of the mutation.
    pub open spec fn spec_key(self) -> Key {
        match self {
            Mutation::Put((key, _, _)) => key,
            Mutation::Delete((key, _)) => key,
            Mutation::Lock((key, _)) => key,
            Mutation::Insert((key, _, _)) => key,
        }
    }

    /// The value the mutation writes: present for `Put` and `Insert`,
    /// absent for `Delete` and `Lock`.
    pub open spec fn spec_value(self) -> Option<Value> {
        match self {
            Mutation::Put((_, value, _)) => Some(value),
            Mutation::Delete(_) => None,
            Mutation::Lock(_) => None,
            Mutation::Insert((_, value, _)) => Some(value),
        }
    }

    /// The secondary-key list of the mutation, if the caller supplied
    /// one.
    pub open spec fn spec_secondary_keys(self) -> Option<Vec<RawKey>> {
        match self {
            Mutation::Put((_, _, secondary_keys)) => secondary_keys,
            Mutation::Delete((_, secondary_keys)) => secondary_keys,
            Mutation::Lock((_, secondary_keys)) => secondary_keys,
            Mutation::Insert((_, _, secondary_keys)) => secondary_keys,
        }
    }

    /// The mutation's target key, without consuming the mutation.
    pub fn key(&self) -> (r: &Key)
        ensures
            *r == self.spec_key(),
    {
        match self {
            Mutation::Put((ref key, _, _)) => key,
            Mutation::Delete((ref key, _)) => key,
            Mutation::Lock((ref key, _)) => key,
            Mutation::Insert((ref key, _, _)) => key,
        }
    }

    /// Consumes the mutation into `(key, value-or-none, secondary
    /// keys)`, losing the variant tag; callers that need the tag query
    /// [`Mutation::is_insert`] before consuming.
    pub fn into_inner(self) -> (r: (Key, Option<Value>, Option<Vec<RawKey>>))
        ensures
            r.0 == self.spec_key(),
            r.1 == self.spec_value(),
            r.2 == self.spec_secondary_keys(),
    {
        match self {
            Mutation::Put((key, value, secondary_keys)) => (key, Some(value), secondary_keys),
            Mutation::Delete((key, secondary_keys)) => (key, None, secondary_keys),
            Mutation::Lock((key, secondary_keys)) => (key, None, secondary_keys),
            Mutation::Insert((key, value, secondary_keys)) => (key, Some(value), secondary_keys),
        }
    }

    /// Whether the mutation is an `Insert`: the one discriminant that
    /// downstream write logic needs after consumption, for the
    /// existence check.
    pub fn is_insert(&self) -> (r: bool)
        ensures
            r == (self is Insert),
    {
        match self {
            Mutation::Insert(_) => true,
            _ => false,
        }
    }
}

/// A mutation decomposes with a value exactly when it is a `Put` or an
/// `Insert`; `Delete` and `Lock` decompose with no value.
pub proof fn lemma_value_presence(m: Mutation)
    ensures
        m.spec_value() is Some <==> (m is Put || m is Insert),
{
}

} // verus!
