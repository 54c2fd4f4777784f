//! Opaque byte-string identifiers for rows and raw keys.

use vstd::prelude::*;

verus! {

/// The engine's encoded, versioned row identifier.
///
/// A `Key` is an immutable byte-string handle; its view is the byte
/// sequence it wraps. The engine's iteration order is the total order
/// on these bytes; no other semantics are attached here.
#[derive(Debug, Clone, PartialEq, Eq, Hash)]
pub struct Key {
    encoded: Vec<u8>,
}

impl View for Key {
    type V = Seq<u8>;

    closed spec fn view(&self) -> Seq<u8> {
        self.encoded@
    }
}

impl Key {
    /// Wraps an already-encoded byte string as a key.
    pub fn from_encoded(encoded: Vec<u8>) -> (k: Key)
        ensures
            k@ == encoded@,
    {
        Key { encoded }
    }

    /// The encoded bytes of the key, borrowed.
    pub fn as_encoded(&self) -> (r: &Vec<u8>)
        ensures
            r@ == self@,
    {
        &self.encoded
    }

    /// Consumes the key and yields its encoded bytes.
    pub fn into_encoded(self) -> (r: Vec<u8>)
        ensures
            r@ == self@,
    {
        self.encoded
    }
}

/// A caller-supplied, unencoded row identifier, used when referencing
/// the other keys of a transaction across commands.
pub type RawKey = Vec<u8>;

/// A raw value stored under a key.
pub type Value = Vec<u8>;

/// A key paired with the value read from it.
pub type KvPair = (Key, Value);

} // verus!
