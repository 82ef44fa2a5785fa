//! Plain-value models of the 32-byte keys that flow through the engine.
//!
//! Caller identities and off-chain references are opaque 32-byte values that
//! the engine only ever compares for equality or zeroes out. They are held
//! here as two 128-bit words so that equality is structural and contracts can
//! speak about them directly.

use vstd::prelude::*;

verus! {

/// An authenticated caller or account identity: an opaque 32-byte key,
/// held as two 128-bit words and compared only for equality.
#[derive(Clone, Copy, PartialEq, Eq, Structural, Debug)]
pub struct Identity {
    pub hi: u128,
    pub lo: u128,
}

impl Identity {
    /// The all-zero identity, used where no particular key is meant.
    pub fn zero() -> (r: Identity)
        ensures
            r == (Identity { hi: 0, lo: 0 }),
    {
        Identity { hi: 0, lo: 0 }
    }
}

/// An opaque 32-byte reference to an off-chain document, such as a
/// governance proposal, policy or migration note.
#[derive(Clone, Copy, PartialEq, Eq, Structural, Debug)]
pub struct NoteRef {
    pub hi: u128,
    pub lo: u128,
}

impl NoteRef {
    /// The all-zero reference, used when no document is attached.
    pub fn zero() -> (r: NoteRef)
        ensures
            r == (NoteRef { hi: 0, lo: 0 }),
    {
        NoteRef { hi: 0, lo: 0 }
    }
}

} // verus!
