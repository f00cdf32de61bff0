//! A streaming SHA-256 accumulator, backed by the `sha2` crate.
//!
//! The hash state is modelled by the sequence of all bytes it has absorbed so
//! far, named by [`absorbed_bytes`]; the digest of a byte sequence is named by
//! [`sha256_of`]. Both are left uninterpreted: spelling the algorithm out
//! here would neither be run nor be checked against `sha2`.
//!
//! The `sha2::Sha256` state is held inside an opaque struct: Verus refuses a
//! declaration of that type, whose `typenum`-parameterised expansion would
//! need every trait in its bounds declared as well.

use sha2::Digest;
use vstd::prelude::*;

verus! {

/// The SHA-256 digest (32 bytes) of a byte sequence, as `sha2` computes it.
pub uninterp spec fn sha256_of(input: Seq<u8>) -> Seq<u8>;

/// A hash state that has absorbed some sequence of bytes, cannot be rewound,
/// and is consumed exactly once to yield the digest of that sequence.
#[verifier::external_body]
pub struct Sha256Accumulator {
    inner: sha2::Sha256,
}

/// All bytes an accumulator has absorbed, in order.
pub uninterp spec fn absorbed_bytes(acc: Sha256Accumulator) -> Seq<u8>;

impl Sha256Accumulator {
    /// Relies on sha2's `Digest::new` for `Sha256`: a fresh hash state that
    /// has absorbed nothing.
    #[verifier::external_body]
    pub fn new() -> (acc: Self)
        ensures
            absorbed_bytes(acc) == Seq::<u8>::empty(),
    {
        Sha256Accumulator { inner: sha2::Sha256::new() }
    }

    /// Relies on sha2's `Digest::update` for `Sha256`: absorbs the given
    /// bytes after everything absorbed so far.
    #[verifier::external_body]
    pub fn update(&mut self, data: &[u8])
        ensures
            absorbed_bytes(*final(self)) == absorbed_bytes(*old(self)) + data@,
    {
        self.inner.update(data);
    }

    /// Relies on sha2's `Digest::finalize` for `Sha256`: consumes the state
    /// and returns the 32-byte SHA-256 digest of all absorbed bytes.
    #[verifier::external_body]
    pub fn finalize(self) -> (digest: Vec<u8>)
        ensures
            digest@ == sha256_of(absorbed_bytes(self)),
            digest@.len() == 32,
    {
        self.inner.finalize().to_vec()
    }
}

} // verus!
