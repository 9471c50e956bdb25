//! Opaque ledger identities.

use vstd::prelude::*;

verus! {

/// A 32-byte ledger identity (a wallet address, an asset identifier, or a
/// token-account address), held as four 64-bit words.  The protocol never
/// inspects an identity beyond comparing it for equality and testing it
/// against the all-zero placeholder.
#[derive(Clone, Copy, PartialEq, Eq, Structural, Debug)]
pub struct Key {
    pub w0: u64,
    pub w1: u64,
    pub w2: u64,
    pub w3: u64,
}

impl Key {
    /// The all-zero identity, marking an unoccupied registry slot.
    pub open spec fn spec_empty() -> Key {
        Key { w0: 0, w1: 0, w2: 0, w3: 0 }
    }

    /// Builds the all-zero identity.
    pub fn empty() -> (k: Key)
        ensures
            k == Key::spec_empty(),
    {
        Key { w0: 0, w1: 0, w2: 0, w3: 0 }
    }

    /// Builds an identity from its four 64-bit words.
    pub fn from_words(w0: u64, w1: u64, w2: u64, w3: u64) -> (k: Key)
        ensures
            k == (Key { w0, w1, w2, w3 }),
    {
        Key { w0, w1, w2, w3 }
    }
}

} // verus!
