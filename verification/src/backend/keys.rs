//! The key objects of the two signature families: an ML-DSA-65 key pair, an
//! SLH-DSA-SHAKE-192s key pair, their public halves built from encoded bytes, and the
//! operating system's random generator.
use vstd::prelude::*;
use crate::backend::primitives::{
    MLDSA65_PUBLIC_LEN, MLDSA65_SEED_LEN, MLDSA65_SIG_LEN, SLH192S_PUBLIC_LEN, SLH192S_SECRET_LEN,
    SLH192S_SIG_LEN, mldsa65_accepts, mldsa65_public, mldsa65_public_key, mldsa65_sign, mldsa65_sign_succeeds,
    mldsa65_signature, mldsa65_verify, random_bytes, slh192s_accepts, slh192s_decodes, slh192s_keygen,
    slh192s_public_of, slh192s_sign, slh192s_signature, slh192s_verify,
};
use crate::crypto::CryptoError;

verus! {

/// The operating system's random generator.
pub struct Rng;

impl Rng {
    pub fn new() -> (r: Result<Self, CryptoError>)
        ensures
            r is Ok,
    {
        Ok(Rng)
    }

    /// Fills a buffer with random bytes; `Backend` when the generator fails, and then the
    /// buffer is unchanged.
    pub fn fill(&self, buf: &mut [u8]) -> (r: Result<(), CryptoError>)
        ensures
            final(buf)@.len() == old(buf)@.len(),
            r matches Err(e) ==> e == CryptoError::Backend && final(buf)@ == old(buf)@,
    {
        let bytes = match random_bytes(buf.len()) {
            Some(b) => b,
            None => {
                return Err(CryptoError::Backend);
            },
        };
        let mut i: usize = 0;
        while i < buf.len()
            invariant
                0 <= i <= buf@.len(),
                bytes@.len() == buf@.len(),
                buf@.len() == old(buf)@.len(),
            decreases buf@.len() - i,
        {
            buf[i] = bytes[i];
            i = i + 1;
        }
        Ok(())
    }
}

/// An ML-DSA-65 key pair, held as its key-generation seed with its encoded public key.
pub struct MlDsa65 {
    seed: Vec<u8>,
    public: Vec<u8>,
}

impl MlDsa65 {
    /// The seed has the right length and the public key is the one it generates.
    #[verifier::type_invariant]
    closed spec fn wf(&self) -> bool {
        &&& self.seed@.len() == MLDSA65_SEED_LEN
        &&& self.public@ == mldsa65_public_key(self.seed@)
        &&& self.public@.len() == MLDSA65_PUBLIC_LEN
    }

    pub closed spec fn seed_view(&self) -> Seq<u8> {
        self.seed@
    }

    /// The encoded public key: the one the seed generates.
    pub open spec fn public_view(&self) -> Seq<u8> {
        mldsa65_public_key(self.seed_view())
    }


    /// A fresh key pair from the operating system's generator; `Backend` when it fails.
    pub fn generate() -> (r: Result<Self, CryptoError>)
        ensures
            r matches Err(e) ==> e == CryptoError::Backend,
    {
        match random_bytes(MLDSA65_SEED_LEN) {
            Some(seed) => {
                let public = mldsa65_public(seed.as_slice());
                Ok(MlDsa65 { seed, public })
            },
            None => Err(CryptoError::Backend),
        }
    }

    /// The signature length, 3309 bytes.
    pub fn sig_size(&self) -> (r: usize)
        ensures
            r == MLDSA65_SIG_LEN,
    {
        MLDSA65_SIG_LEN
    }

    /// Signs a message (deterministic, empty context); `Backend` when signing fails.
    pub fn sign(&self, msg: &[u8]) -> (r: Result<Vec<u8>, CryptoError>)
        ensures
            r is Ok <==> mldsa65_sign_succeeds(self.seed_view(), msg@),
            r matches Ok(s) ==> s@ == mldsa65_signature(self.seed_view(), msg@) && s@.len()
                == MLDSA65_SIG_LEN && mldsa65_accepts(self.public_view(), msg@, s@),
            r matches Err(e) ==> e == CryptoError::Backend,
    {
        proof {
            use_type_invariant(self);
        }
        match mldsa65_sign(self.seed.as_slice(), msg) {
            Some(s) => Ok(s),
            None => Err(CryptoError::Backend),
        }
    }

    /// Whether a signature on a message verifies under this key's public half.
    pub fn verify(&self, msg: &[u8], sig: &[u8]) -> (r: bool)
        ensures
            r == mldsa65_accepts(self.public_view(), msg@, sig@),
    {
        proof {
            use_type_invariant(self);
        }
        mldsa65_verify(self.public.as_slice(), msg, sig)
    }

    /// The encoded public key.
    pub fn export_public(&self) -> (r: &[u8])
        ensures
            r@ == self.public_view(),
            r@.len() == MLDSA65_PUBLIC_LEN,
    {
        proof {
            use_type_invariant(self);
        }
        self.public.as_slice()
    }
}

/// An SLH-DSA-SHAKE-192s key pair, held as its encoded private key (which holds the
/// public key as its last half).
pub struct SlhDsaShake192s {
    secret: Vec<u8>,
    public: Vec<u8>,
}

impl SlhDsaShake192s {
    #[verifier::type_invariant]
    closed spec fn wf(&self) -> bool {
        &&& self.secret@.len() == SLH192S_SECRET_LEN
        &&& self.public@ == slh192s_public_of(self.secret@)
        &&& slh192s_decodes(self.secret@)
    }

    pub closed spec fn secret_view(&self) -> Seq<u8> {
        self.secret@
    }

    /// The encoded public key.
    pub open spec fn public_view(&self) -> Seq<u8> {
        slh192s_public_of(self.secret_view())
    }


    /// A fresh key pair from the operating system's generator; `Backend` when key
    /// generation fails.
    pub fn generate() -> (r: Result<Self, CryptoError>)
        ensures
            r matches Err(e) ==> e == CryptoError::Backend,
    {
        match slh192s_keygen() {
            Some(secret) => {
                let public = crate::canon::slice_range(secret.as_slice(), 48, 96);
                Ok(SlhDsaShake192s { secret, public })
            },
            None => Err(CryptoError::Backend),
        }
    }

    /// The signature length, 16224 bytes.
    pub fn sig_size(&self) -> (r: usize)
        ensures
            r == SLH192S_SIG_LEN,
    {
        SLH192S_SIG_LEN
    }

    /// Signs a message (deterministic, empty context); `Backend` when signing fails.
    pub fn sign(&self, msg: &[u8]) -> (r: Result<Vec<u8>, CryptoError>)
        ensures
            r is Ok,
            r matches Ok(s) ==> s@ == slh192s_signature(self.secret_view(), msg@) && s@.len()
                == SLH192S_SIG_LEN && slh192s_accepts(self.public_view(), msg@, s@),
            r matches Err(e) ==> e == CryptoError::Backend,
    {
        proof {
            use_type_invariant(self);
        }
        match slh192s_sign(self.secret.as_slice(), msg) {
            Some(s) => Ok(s),
            None => Err(CryptoError::Backend),
        }
    }

    /// Whether a signature on a message verifies under this key's public half.
    pub fn verify(&self, msg: &[u8], sig: &[u8]) -> (r: bool)
        ensures
            r == slh192s_accepts(self.public_view(), msg@, sig@),
    {
        slh192s_verify(self.export_public(), msg, sig)
    }

    /// The encoded public key.
    pub fn export_public(&self) -> (r: &[u8])
        ensures
            r@ == self.public_view(),
            r@.len() == SLH192S_PUBLIC_LEN,
    {
        proof {
            use_type_invariant(self);
        }
        self.public.as_slice()
    }
}

/// An ML-DSA-65 public key, from its 1952-byte encoding.
pub struct MlDsa65Public {
    bytes: Vec<u8>,
}

impl MlDsa65Public {
    #[verifier::type_invariant]
    closed spec fn wf(&self) -> bool {
        self.bytes@.len() == MLDSA65_PUBLIC_LEN
    }

    pub closed spec fn view_bytes(&self) -> Seq<u8> {
        self.bytes@
    }


    /// A public key from its encoding; `MalformedKey` unless it is 1952 bytes.
    pub fn from_public_bytes(pubkey: &[u8]) -> (r: Result<Self, CryptoError>)
        ensures
            r is Ok <==> pubkey@.len() == MLDSA65_PUBLIC_LEN,
            r matches Ok(k) ==> k.view_bytes() == pubkey@,
            r matches Err(e) ==> e == CryptoError::MalformedKey,
    {
        if pubkey.len() != MLDSA65_PUBLIC_LEN {
            return Err(CryptoError::MalformedKey);
        }
        Ok(MlDsa65Public::from_checked(pubkey))
    }

    /// A public key from an encoding already known to have the right length.
    pub(crate) fn from_checked(pubkey: &[u8]) -> (r: Self)
        requires
            pubkey@.len() == MLDSA65_PUBLIC_LEN,
        ensures
            r.view_bytes() == pubkey@,
    {
        MlDsa65Public { bytes: crate::canon::slice_to_vec(pubkey) }
    }

    /// Whether a signature on a message verifies under this key.
    pub fn verify(&self, msg: &[u8], sig: &[u8]) -> (r: bool)
        ensures
            r == mldsa65_accepts(self.view_bytes(), msg@, sig@),
    {
        proof {
            use_type_invariant(self);
        }
        mldsa65_verify(self.bytes.as_slice(), msg, sig)
    }

    /// The encoding.
    pub fn as_bytes(&self) -> (r: &[u8])
        ensures
            r@ == self.view_bytes(),
            r@.len() == MLDSA65_PUBLIC_LEN,
    {
        proof {
            use_type_invariant(self);
        }
        self.bytes.as_slice()
    }
}

/// An SLH-DSA-SHAKE-192s public key, from its 48-byte encoding.
pub struct SlhDsaShake192sPublic {
    bytes: Vec<u8>,
}

impl SlhDsaShake192sPublic {
    #[verifier::type_invariant]
    closed spec fn wf(&self) -> bool {
        self.bytes@.len() == SLH192S_PUBLIC_LEN
    }

    pub closed spec fn view_bytes(&self) -> Seq<u8> {
        self.bytes@
    }


    /// A public key from its encoding; `MalformedKey` unless it is 48 bytes.
    pub fn from_public_bytes(pubkey: &[u8]) -> (r: Result<Self, CryptoError>)
        ensures
            r is Ok <==> pubkey@.len() == SLH192S_PUBLIC_LEN,
            r matches Ok(k) ==> k.view_bytes() == pubkey@,
            r matches Err(e) ==> e == CryptoError::MalformedKey,
    {
        if pubkey.len() != SLH192S_PUBLIC_LEN {
            return Err(CryptoError::MalformedKey);
        }
        Ok(SlhDsaShake192sPublic::from_checked(pubkey))
    }

    /// A public key from an encoding already known to have the right length.
    pub(crate) fn from_checked(pubkey: &[u8]) -> (r: Self)
        requires
            pubkey@.len() == SLH192S_PUBLIC_LEN,
        ensures
            r.view_bytes() == pubkey@,
    {
        SlhDsaShake192sPublic { bytes: crate::canon::slice_to_vec(pubkey) }
    }

    /// Whether a signature on a message verifies under this key.
    pub fn verify(&self, msg: &[u8], sig: &[u8]) -> (r: bool)
        ensures
            r == slh192s_accepts(self.view_bytes(), msg@, sig@),
    {
        proof {
            use_type_invariant(self);
        }
        slh192s_verify(self.bytes.as_slice(), msg, sig)
    }

    /// The encoding.
    pub fn as_bytes(&self) -> (r: &[u8])
        ensures
            r@ == self.view_bytes(),
            r@.len() == SLH192S_PUBLIC_LEN,
    {
        proof {
            use_type_invariant(self);
        }
        self.bytes.as_slice()
    }
}

} // verus!
