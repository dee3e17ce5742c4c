//! The running digest accumulator.
//!
//! The device hashes every raw byte of the transaction payload as it
//! streams through, and signs the finalized hash; the hash is the
//! integrity anchor linking what is displayed to what is signed.  This
//! library models the accumulator at the level of the exact byte
//! transcript it was fed: two accumulators agree exactly when they were
//! fed the same bytes, so every property of interest — above all that
//! chunk boundaries cannot change what is signed — is stated and proved
//! about the transcript.  The device-specific hash primitive itself runs
//! outside the library, over this same transcript.

use vstd::prelude::*;

verus! {

/// Incremental digest accumulator, modeled by its byte transcript.
pub struct Hasher {
    pub bytes: Vec<u8>,
}

impl Hasher {
    /// An accumulator that has seen nothing.
    pub fn new() -> (r: Hasher)
        ensures
            r.bytes@ == Seq::<u8>::empty(),
    {
        Hasher { bytes: Vec::new() }
    }

    /// Feeds one byte.
    pub fn update(&mut self, b: u8)
        ensures
            final(self).bytes@ == old(self).bytes@.push(b),
    {
        self.bytes.push(b);
    }

    /// Feeds a whole run of bytes.
    pub fn update_vec(&mut self, v: &Vec<u8>)
        ensures
            final(self).bytes@ == old(self).bytes@ + v@,
    {
        crate::base::extend_bytes(&mut self.bytes, v);
    }

    /// The finalized digest value: the full transcript.
    pub fn finalize(&self) -> (r: Vec<u8>)
        ensures
            r@ == self.bytes@,
    {
        self.bytes.clone()
    }
}

} // verus!
