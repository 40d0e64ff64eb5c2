//! The cryptographic seam: typed algorithm identifiers, opaque signature and digest
//! values, and the traits a backend implements. Algorithm identifiers are typed enums,
//! never strings.
use vstd::prelude::*;
use crate::ids::{Nonce, SubjectId};

verus! {

/// Signature algorithm identifier.
#[derive(Debug, Clone, Copy, PartialEq, Eq, PartialOrd, Ord, Hash, Structural)]
pub enum SignatureAlg {
    MlDsa44,
    MlDsa65,
    MlDsa87,
    SlhDsaSha2_128s,
    SlhDsaSha2_192s,
    SlhDsaSha2_256s,
    SlhDsaShake128s,
    SlhDsaShake192s,
    SlhDsaShake256s,
    EcdsaP256,
    EcdsaP384,
    /// RSASSA-PKCS#1 v1.5 with SHA-256: named so that a bill of materials can declare
    /// (and a policy can refuse) an RSA-verifying timestamp path. Never used to sign.
    RsaPkcs1Sha256,
}

/// Hash algorithm identifier.
#[derive(Debug, Clone, Copy, PartialEq, Eq, PartialOrd, Ord, Hash, Structural)]
pub enum HashAlg {
    Sha256,
    Sha384,
    Sha512,
    Shake128,
    Shake256,
}

/// Key-encapsulation algorithm identifier.
#[derive(Debug, Clone, Copy, PartialEq, Eq, PartialOrd, Ord, Hash, Structural)]
pub enum KemAlg {
    MlKem512,
    MlKem768,
    MlKem1024,
}

/// Opaque signature bytes bound to a typed algorithm identifier.
#[derive(Debug, Clone, PartialEq, Eq, Hash)]
pub struct Signature {
    pub alg: SignatureAlg,
    pub bytes: Vec<u8>,
}

/// Opaque digest bytes bound to a typed algorithm identifier.
#[derive(Debug, Clone, PartialEq, Eq, Hash)]
pub struct Digest {
    pub alg: HashAlg,
    pub bytes: Vec<u8>,
}

impl Digest {
    /// Two digests are the same value: same algorithm, same bytes.
    pub open spec fn same(self, other: Digest) -> bool {
        self.alg == other.alg && self.bytes@ == other.bytes@
    }

    /// Compares two digests by algorithm and bytes.
    pub fn matches(&self, other: &Digest) -> (r: bool)
        ensures
            r == self.same(*other),
    {
        self.alg == other.alg && crate::canon::bytes_eq(self.bytes.as_slice(), other.bytes.as_slice())
    }
}

/// A dual-family signature: one lattice (ML-DSA) and one hash-based (SLH-DSA).
#[derive(Debug, Clone, PartialEq, Eq, Hash)]
pub struct DualSignature {
    pub lattice: Signature,
    pub hash_based: Signature,
}

/// An empty dual signature (ML-DSA-65 and SLH-DSA-SHAKE-192s identifiers, no bytes).
pub fn placeholder_signature() -> (s: DualSignature)
    ensures
        s.lattice.alg == SignatureAlg::MlDsa65,
        s.hash_based.alg == SignatureAlg::SlhDsaShake192s,
        s.lattice.bytes@.len() == 0,
        s.hash_based.bytes@.len() == 0,
{
    DualSignature {
        lattice: Signature { alg: SignatureAlg::MlDsa65, bytes: Vec::new() },
        hash_based: Signature { alg: SignatureAlg::SlhDsaShake192s, bytes: Vec::new() },
    }
}

/// An identity attestation: subject, measurement digest, freshness nonce, signatures.
#[derive(Debug, Clone, PartialEq, Eq)]
pub struct Attestation {
    pub subject: SubjectId,
    pub measurements: Digest,
    pub freshness: Nonce,
    pub signatures: DualSignature,
}

/// Errors surfaced by a cryptographic backend.
#[derive(Debug, Clone, Copy, PartialEq, Eq, Structural)]
pub enum CryptoError {
    AlgorithmMismatch,
    VerificationFailed,
    MalformedKey,
    MalformedSignature,
    Backend,
}

impl CryptoError {
    /// The human-readable message of this error.
    pub open spec fn message(&self) -> Seq<char> {
        match self {
            CryptoError::AlgorithmMismatch => "signer/verifier algorithm mismatch"@,
            CryptoError::VerificationFailed => "signature verification failed"@,
            CryptoError::MalformedKey => "malformed key material"@,
            CryptoError::MalformedSignature => "malformed signature"@,
            CryptoError::Backend => "cryptographic backend error"@,
        }
    }

    /// The human-readable message of this error.
    pub fn to_string(&self) -> (s: String)
        ensures
            s@ == self.message(),
    {
        let m = match self {
            CryptoError::AlgorithmMismatch => "signer/verifier algorithm mismatch",
            CryptoError::VerificationFailed => "signature verification failed",
            CryptoError::MalformedKey => "malformed key material",
            CryptoError::MalformedSignature => "malformed signature",
            CryptoError::Backend => "cryptographic backend error",
        };
        m.to_owned()
    }
}

/// Produces signatures.
pub trait Signer {
    /// The algorithm this signer signs with.
    spec fn signing_alg(&self) -> SignatureAlg;

    fn algorithm(&self) -> (r: SignatureAlg)
        ensures
            r == self.signing_alg(),
    ;

    fn sign(&self, msg: &[u8]) -> Result<Signature, CryptoError>;
}

/// Verifies signatures.
pub trait Verifier {
    /// The algorithm this verifier checks.
    spec fn verifying_alg(&self) -> SignatureAlg;

    fn algorithm(&self) -> (r: SignatureAlg)
        ensures
            r == self.verifying_alg(),
    ;

    fn verify(&self, msg: &[u8], sig: &Signature) -> Result<(), CryptoError>;
}

/// Computes digests.
pub trait Hasher {
    fn algorithm(&self) -> HashAlg;

    fn hash(&self, msg: &[u8]) -> Digest;
}

} // verus!
