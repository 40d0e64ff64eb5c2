//! SHA-384 behind the `Hasher` seam.
use vstd::prelude::*;
use crate::backend::primitives::{sha384, sha384_digest};
use crate::crypto::{Digest, HashAlg, Hasher};

verus! {

/// The SHA-384 hasher.
pub struct Sha384Hasher;

impl Hasher for Sha384Hasher {
    fn algorithm(&self) -> (a: HashAlg)
        ensures
            a == HashAlg::Sha384,
    {
        HashAlg::Sha384
    }

    fn hash(&self, msg: &[u8]) -> (d: Digest)
        ensures
            d.alg == HashAlg::Sha384,
            d.bytes@ == sha384_digest(msg@),
            d.bytes@.len() == 48,
    {
        Digest { alg: HashAlg::Sha384, bytes: sha384(msg) }
    }
}

} // verus!
