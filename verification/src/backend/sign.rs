//! ML-DSA-65 and SLH-DSA-SHAKE-192s signers, and the dual-family key pair and public
//! key. A dual signature verifies only when both families verify, each under its own
//! algorithm identifier.
use vstd::prelude::*;
use crate::backend::keys::{MlDsa65, MlDsa65Public, SlhDsaShake192s, SlhDsaShake192sPublic};
use crate::backend::primitives::{
    MLDSA65_PUBLIC_LEN, MLDSA65_SIG_LEN, SLH192S_PUBLIC_LEN, SLH192S_SIG_LEN, mldsa65_accepts,
    mldsa65_public_key, mldsa65_sign_succeeds, mldsa65_signature,
    mldsa65_verify, slh192s_accepts, slh192s_public_of, slh192s_signature, slh192s_verify,
};
use crate::crypto::{CryptoError, DualSignature, Signature, SignatureAlg, Signer, Verifier};

verus! {

/// Whether a dual signature verifies under a pair of public keys: both algorithm
/// identifiers are the expected ones and both families accept.
pub open spec fn dual_accepts(
    mldsa_public: Seq<u8>,
    slh_public: Seq<u8>,
    msg: Seq<u8>,
    dual: DualSignature,
) -> bool {
    &&& dual.lattice.alg == SignatureAlg::MlDsa65
    &&& dual.hash_based.alg == SignatureAlg::SlhDsaShake192s
    &&& mldsa65_accepts(mldsa_public, msg, dual.lattice.bytes@)
    &&& slh192s_accepts(slh_public, msg, dual.hash_based.bytes@)
}

/// Whether a dual signature carries the expected pair of algorithm identifiers.
pub open spec fn dual_algs_ok(dual: DualSignature) -> bool {
    dual.lattice.alg == SignatureAlg::MlDsa65 && dual.hash_based.alg == SignatureAlg::SlhDsaShake192s
}

/// What dual verification returns for a signature under a pair of public keys.
pub open spec fn dual_verdict(
    mldsa_public: Seq<u8>,
    slh_public: Seq<u8>,
    msg: Seq<u8>,
    dual: DualSignature,
) -> Result<(), CryptoError> {
    if !dual_algs_ok(dual) {
        Err(CryptoError::AlgorithmMismatch)
    } else if dual_accepts(mldsa_public, slh_public, msg, dual) {
        Ok(())
    } else {
        Err(CryptoError::VerificationFailed)
    }
}

/// What a key pair signs verifies under its public keys alone: a dual signature that the
/// pair produced (both families accept it, as `DualKeyPair::sign_dual` ensures) verifies,
/// through `DualPublicKey::verify_dual`, under any public key that holds the pair's two
/// encoded public keys.
pub proof fn lemma_signed_verifies_under_public(
    kp: DualKeyPair,
    pk: DualPublicKey,
    msg: Seq<u8>,
    d: DualSignature,
)
    requires
        pk.mldsa_view() == kp.mldsa_public_view(),
        pk.slh_view() == kp.slh_public_view(),
        dual_accepts(kp.mldsa_public_view(), kp.slh_public_view(), msg, d),
    ensures
        dual_verdict(pk.mldsa_view(), pk.slh_view(), msg, d) == Ok::<(), CryptoError>(()),
        dual_verdict(pk.mldsa_view(), pk.slh_view(), msg, d) == dual_verdict(
            kp.mldsa_public_view(),
            kp.slh_public_view(),
            msg,
            d,
        ),
{
}

/// What a key pair signs, its own verification accepts: a dual signature that both
/// families accept under the pair's public keys, as `DualKeyPair::sign_dual` ensures of
/// what it returns, verifies through `DualKeyPair::verify_dual`.
pub proof fn lemma_signed_verifies(kp: DualKeyPair, msg: Seq<u8>, d: DualSignature)
    requires
        dual_accepts(kp.mldsa_public_view(), kp.slh_public_view(), msg, d),
    ensures
        dual_verdict(kp.mldsa_public_view(), kp.slh_public_view(), msg, d) == Ok::<(), CryptoError>(()),
{
}

pub(crate) fn verify_dual_under(mldsa_public: &[u8], slh_public: &[u8], msg: &[u8], dual: &DualSignature) -> (r:
    Result<(), CryptoError>)
    requires
        mldsa_public@.len() == MLDSA65_PUBLIC_LEN,
        slh_public@.len() == SLH192S_PUBLIC_LEN,
    ensures
        r == dual_verdict(mldsa_public@, slh_public@, msg@, *dual),
{
    if dual.lattice.alg != SignatureAlg::MlDsa65 || dual.hash_based.alg != SignatureAlg::SlhDsaShake192s {
        return Err(CryptoError::AlgorithmMismatch);
    }
    let lattice_ok = mldsa65_verify(mldsa_public, msg, dual.lattice.bytes.as_slice());
    let hash_ok = slh192s_verify(slh_public, msg, dual.hash_based.bytes.as_slice());
    if lattice_ok && hash_ok {
        Ok(())
    } else {
        Err(CryptoError::VerificationFailed)
    }
}

/// An ML-DSA-65 signer: a key pair of the lattice family.
pub struct MlDsaSigner {
    key: MlDsa65,
}

impl MlDsaSigner {
    pub closed spec fn seed_view(&self) -> Seq<u8> {
        self.key.seed_view()
    }

    /// The encoded public key.
    pub open spec fn public_view(&self) -> Seq<u8> {
        mldsa65_public_key(self.seed_view())
    }

    /// A fresh key from the operating system's generator; `Backend` when it fails.
    pub fn generate() -> (r: Result<Self, CryptoError>)
        ensures
            r matches Err(e) ==> e == CryptoError::Backend,
    {
        match MlDsa65::generate() {
            Ok(key) => Ok(MlDsaSigner { key }),
            Err(_) => Err(CryptoError::Backend),
        }
    }
}

impl Signer for MlDsaSigner {
    open spec fn signing_alg(&self) -> SignatureAlg {
        SignatureAlg::MlDsa65
    }

    fn algorithm(&self) -> (r: SignatureAlg) {
        SignatureAlg::MlDsa65
    }

    fn sign(&self, msg: &[u8]) -> (r: Result<Signature, CryptoError>)
        ensures
            r is Ok <==> mldsa65_sign_succeeds(self.seed_view(), msg@),
            r matches Ok(s) ==> s.alg == SignatureAlg::MlDsa65 && s.bytes@ == mldsa65_signature(
                self.seed_view(),
                msg@,
            ),
            r matches Err(e) ==> e == CryptoError::Backend,
    {
        match self.key.sign(msg) {
            Ok(bytes) => Ok(Signature { alg: SignatureAlg::MlDsa65, bytes }),
            Err(_) => Err(CryptoError::Backend),
        }
    }
}

impl Verifier for MlDsaSigner {
    open spec fn verifying_alg(&self) -> SignatureAlg {
        SignatureAlg::MlDsa65
    }

    fn algorithm(&self) -> (r: SignatureAlg) {
        SignatureAlg::MlDsa65
    }

    fn verify(&self, msg: &[u8], sig: &Signature) -> (r: Result<(), CryptoError>)
        ensures
            r == (if sig.alg != SignatureAlg::MlDsa65 {
                Err(CryptoError::AlgorithmMismatch)
            } else if mldsa65_accepts(self.public_view(), msg@, sig.bytes@) {
                Ok(())
            } else {
                Err(CryptoError::VerificationFailed)
            }),
    {
        if sig.alg != SignatureAlg::MlDsa65 {
            return Err(CryptoError::AlgorithmMismatch);
        }
        if self.key.verify(msg, sig.bytes.as_slice()) {
            Ok(())
        } else {
            Err(CryptoError::VerificationFailed)
        }
    }
}

/// An SLH-DSA-SHAKE-192s signer: a key pair of the hash-based family.
pub struct SlhDsaSigner {
    key: SlhDsaShake192s,
}

impl SlhDsaSigner {
    pub closed spec fn secret_view(&self) -> Seq<u8> {
        self.key.secret_view()
    }

    /// A fresh key from the operating system's generator; `Backend` when it fails.
    pub fn generate() -> (r: Result<Self, CryptoError>)
        ensures
            r matches Err(e) ==> e == CryptoError::Backend,
    {
        match SlhDsaShake192s::generate() {
            Ok(key) => Ok(SlhDsaSigner { key }),
            Err(_) => Err(CryptoError::Backend),
        }
    }
}

impl Signer for SlhDsaSigner {
    open spec fn signing_alg(&self) -> SignatureAlg {
        SignatureAlg::SlhDsaShake192s
    }

    fn algorithm(&self) -> (r: SignatureAlg) {
        SignatureAlg::SlhDsaShake192s
    }

    fn sign(&self, msg: &[u8]) -> (r: Result<Signature, CryptoError>)
        ensures
            r is Ok,
            r matches Ok(s) ==> s.alg == SignatureAlg::SlhDsaShake192s && s.bytes@
                == slh192s_signature(self.secret_view(), msg@),
            r matches Err(e) ==> e == CryptoError::Backend,
    {
        match self.key.sign(msg) {
            Ok(bytes) => Ok(Signature { alg: SignatureAlg::SlhDsaShake192s, bytes }),
            Err(_) => Err(CryptoError::Backend),
        }
    }
}

impl Verifier for SlhDsaSigner {
    open spec fn verifying_alg(&self) -> SignatureAlg {
        SignatureAlg::SlhDsaShake192s
    }

    fn algorithm(&self) -> (r: SignatureAlg) {
        SignatureAlg::SlhDsaShake192s
    }

    fn verify(&self, msg: &[u8], sig: &Signature) -> (r: Result<(), CryptoError>)
        ensures
            r == (if sig.alg != SignatureAlg::SlhDsaShake192s {
                Err(CryptoError::AlgorithmMismatch)
            } else if slh192s_accepts(slh192s_public_of(self.secret_view()), msg@, sig.bytes@) {
                Ok(())
            } else {
                Err(CryptoError::VerificationFailed)
            }),
    {
        if sig.alg != SignatureAlg::SlhDsaShake192s {
            return Err(CryptoError::AlgorithmMismatch);
        }
        if self.key.verify(msg, sig.bytes.as_slice()) {
            Ok(())
        } else {
            Err(CryptoError::VerificationFailed)
        }
    }
}

/// A dual-family key pair: one ML-DSA-65 key and one SLH-DSA-SHAKE-192s key.
pub struct DualKeyPair {
    mldsa: MlDsa65,
    slhdsa: SlhDsaShake192s,
}

impl DualKeyPair {
    /// The encoded ML-DSA-65 public key.
    pub open spec fn mldsa_public_view(&self) -> Seq<u8> {
        mldsa65_public_key(self.mldsa_seed_view())
    }

    /// The encoded SLH-DSA-SHAKE-192s public key.
    pub open spec fn slh_public_view(&self) -> Seq<u8> {
        slh192s_public_of(self.slh_secret_view())
    }

    pub closed spec fn mldsa_seed_view(&self) -> Seq<u8> {
        self.mldsa.seed_view()
    }

    pub closed spec fn slh_secret_view(&self) -> Seq<u8> {
        self.slhdsa.secret_view()
    }

    /// A fresh dual key pair from the operating system's generator; `Backend` when it fails.
    pub fn generate() -> (r: Result<Self, CryptoError>)
        ensures
            r matches Err(e) ==> e == CryptoError::Backend,
    {
        let mldsa = match MlDsa65::generate() {
            Ok(k) => k,
            Err(_) => {
                return Err(CryptoError::Backend);
            },
        };
        let slhdsa = match SlhDsaShake192s::generate() {
            Ok(k) => k,
            Err(_) => {
                return Err(CryptoError::Backend);
            },
        };
        Ok(DualKeyPair { mldsa, slhdsa })
    }

    /// Signs with both families. The lattice signature is ML-DSA-65, the hash-based one
    /// SLH-DSA-SHAKE-192s; `Backend` when either signer fails.
    pub fn sign_dual(&self, msg: &[u8]) -> (r: Result<DualSignature, CryptoError>)
        ensures
            r matches Ok(d) ==> d.lattice.alg == SignatureAlg::MlDsa65 && d.lattice.bytes@
                == mldsa65_signature(self.mldsa_seed_view(), msg@) && d.hash_based.alg
                == SignatureAlg::SlhDsaShake192s && d.hash_based.bytes@ == slh192s_signature(
                self.slh_secret_view(),
                msg@,
            ) && dual_accepts(self.mldsa_public_view(), self.slh_public_view(), msg@, d),
            r matches Ok(d) ==> d.lattice.bytes@.len() == MLDSA65_SIG_LEN && d.hash_based.bytes@.len()
                == SLH192S_SIG_LEN,
            r is Ok <==> mldsa65_sign_succeeds(self.mldsa_seed_view(), msg@),
            r matches Err(e) ==> e == CryptoError::Backend,
    {
        let lattice = match self.mldsa.sign(msg) {
            Ok(bytes) => Signature { alg: SignatureAlg::MlDsa65, bytes },
            Err(_) => {
                return Err(CryptoError::Backend);
            },
        };
        let hash_based = match self.slhdsa.sign(msg) {
            Ok(bytes) => Signature { alg: SignatureAlg::SlhDsaShake192s, bytes },
            Err(_) => {
                return Err(CryptoError::Backend);
            },
        };
        Ok(DualSignature { lattice, hash_based })
    }

    /// Verifies a dual signature under this pair's public keys.
    pub fn verify_dual(&self, msg: &[u8], dual: &DualSignature) -> (r: Result<(), CryptoError>)
        ensures
            r == dual_verdict(self.mldsa_public_view(), self.slh_public_view(), msg@, *dual),
    {
        if dual.lattice.alg != SignatureAlg::MlDsa65 || dual.hash_based.alg
            != SignatureAlg::SlhDsaShake192s {
            return Err(CryptoError::AlgorithmMismatch);
        }
        let lattice_ok = self.mldsa.verify(msg, dual.lattice.bytes.as_slice());
        let hash_ok = self.slhdsa.verify(msg, dual.hash_based.bytes.as_slice());
        if lattice_ok && hash_ok {
            Ok(())
        } else {
            Err(CryptoError::VerificationFailed)
        }
    }

    /// The two encoded public keys (ML-DSA-65, SLH-DSA-SHAKE-192s).
    pub fn public_key_bytes(&self) -> (r: Result<(Vec<u8>, Vec<u8>), CryptoError>)
        ensures
            r matches Ok(p) && p.0@ == self.mldsa_public_view() && p.1@ == self.slh_public_view()
                && p.0@.len() == MLDSA65_PUBLIC_LEN && p.1@.len() == SLH192S_PUBLIC_LEN,
    {
        Ok((crate::canon::slice_to_vec(self.mldsa.export_public()), crate::canon::slice_to_vec(self.slhdsa.export_public())))
    }

    /// The encoded ML-DSA-65 public key.
    pub fn mldsa_bytes(&self) -> (r: &[u8])
        ensures
            r@ == self.mldsa_public_view(),
            r@.len() == MLDSA65_PUBLIC_LEN,
    {
        self.mldsa.export_public()
    }

    /// The encoded SLH-DSA-SHAKE-192s public key.
    pub fn slh_bytes(&self) -> (r: &[u8])
        ensures
            r@ == self.slh_public_view(),
            r@.len() == SLH192S_PUBLIC_LEN,
    {
        self.slhdsa.export_public()
    }

    /// The public half of this pair.
    pub fn public(&self) -> (p: DualPublicKey)
        ensures
            p.mldsa_view() == self.mldsa_public_view(),
            p.slh_view() == self.slh_public_view(),
    {
        let m = self.mldsa.export_public();
        let s = self.slhdsa.export_public();
        DualPublicKey {
            mldsa: MlDsa65Public::from_checked(m),
            slhdsa: SlhDsaShake192sPublic::from_checked(s),
        }
    }
}

/// A dual-family public key, for verification without the private keys.
pub struct DualPublicKey {
    mldsa: MlDsa65Public,
    slhdsa: SlhDsaShake192sPublic,
}

impl DualPublicKey {
    /// The encoded ML-DSA-65 public key.
    pub closed spec fn mldsa_view(&self) -> Seq<u8> {
        self.mldsa.view_bytes()
    }

    /// The encoded SLH-DSA-SHAKE-192s public key.
    pub closed spec fn slh_view(&self) -> Seq<u8> {
        self.slhdsa.view_bytes()
    }

    /// Builds a public key from its two encodings; `MalformedKey` unless the ML-DSA-65 key
    /// is 1952 bytes and the SLH-DSA-SHAKE-192s key 48 bytes.
    pub fn from_public_bytes(mldsa_pub: &[u8], slhdsa_pub: &[u8]) -> (r: Result<Self, CryptoError>)
        ensures
            r is Ok <==> (mldsa_pub@.len() == MLDSA65_PUBLIC_LEN && slhdsa_pub@.len()
                == SLH192S_PUBLIC_LEN),
            r matches Ok(k) ==> k.mldsa_view() == mldsa_pub@ && k.slh_view() == slhdsa_pub@,
            r matches Err(e) ==> e == CryptoError::MalformedKey,
    {
        let mldsa = match MlDsa65Public::from_public_bytes(mldsa_pub) {
            Ok(k) => k,
            Err(_) => {
                return Err(CryptoError::MalformedKey);
            },
        };
        let slhdsa = match SlhDsaShake192sPublic::from_public_bytes(slhdsa_pub) {
            Ok(k) => k,
            Err(_) => {
                return Err(CryptoError::MalformedKey);
            },
        };
        Ok(DualPublicKey { mldsa, slhdsa })
    }

    /// The encoded ML-DSA-65 public key.
    pub fn mldsa_bytes(&self) -> (r: &[u8])
        ensures
            r@ == self.mldsa_view(),
            r@.len() == MLDSA65_PUBLIC_LEN,
    {
        self.mldsa.as_bytes()
    }

    /// The encoded SLH-DSA-SHAKE-192s public key.
    pub fn slh_bytes(&self) -> (r: &[u8])
        ensures
            r@ == self.slh_view(),
            r@.len() == SLH192S_PUBLIC_LEN,
    {
        self.slhdsa.as_bytes()
    }

    /// Verifies a dual signature: `AlgorithmMismatch` unless the identifiers are ML-DSA-65
    /// and SLH-DSA-SHAKE-192s, `Ok` only when both families accept.
    pub fn verify_dual(&self, msg: &[u8], dual: &DualSignature) -> (r: Result<(), CryptoError>)
        ensures
            r == dual_verdict(self.mldsa_view(), self.slh_view(), msg@, *dual),
    {
        if dual.lattice.alg != SignatureAlg::MlDsa65 || dual.hash_based.alg
            != SignatureAlg::SlhDsaShake192s {
            return Err(CryptoError::AlgorithmMismatch);
        }
        let lattice_ok = self.mldsa.verify(msg, dual.lattice.bytes.as_slice());
        let hash_ok = self.slhdsa.verify(msg, dual.hash_based.bytes.as_slice());
        if lattice_ok && hash_ok {
            Ok(())
        } else {
            Err(CryptoError::VerificationFailed)
        }
    }
}

} // verus!
