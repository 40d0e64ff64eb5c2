//! An ML-KEM-768 key pair that can be destroyed: encapsulation to its public part,
//! decapsulation with its private part, and durable destruction of the private part.
use vstd::prelude::*;
use crate::backend::primitives::random_bytes;
use crate::backend::seal::{
    KEY32_LEN, MLKEM768_CIPHERTEXT_LEN, MLKEM768_SEED_LEN, mlkem768_decapsulate,
    mlkem768_decapsulation, mlkem768_encapsulate, mlkem768_encapsulation,
};
use crate::crypto::CryptoError;

verus! {

/// Whether a ciphertext and shared secret come from some encapsulation to the key made
/// from `seed`.
pub open spec fn encapsulates(seed: Seq<u8>, ct: Seq<u8>, ss: Seq<u8>) -> bool {
    exists|m: Seq<u8>|
        #![trigger mlkem768_encapsulation(seed, m)]
        m.len() == KEY32_LEN && (ct, ss) == mlkem768_encapsulation(seed, m)
}

/// An ML-KEM-768 key pair, held as its 64-byte seed until it is destroyed.
pub struct MlKem768 {
    seed: Option<Vec<u8>>,
}

impl MlKem768 {
    #[verifier::type_invariant]
    closed spec fn wf(&self) -> bool {
        self.seed matches Some(s) ==> s@.len() == MLKEM768_SEED_LEN
    }

    /// Whether the private key still exists.
    pub closed spec fn live(&self) -> bool {
        self.seed is Some
    }

    /// The seed while the key lives.
    pub closed spec fn seed_view(&self) -> Seq<u8> {
        match self.seed {
            Some(s) => s@,
            None => Seq::empty(),
        }
    }

    /// A fresh key pair from the operating system's generator; `Backend` when it fails.
    pub fn generate() -> (r: Result<Self, CryptoError>)
        ensures
            r matches Ok(k) ==> k.live(),
            r matches Err(e) ==> e == CryptoError::Backend,
    {
        match random_bytes(MLKEM768_SEED_LEN) {
            Some(seed) => Ok(MlKem768 { seed: Some(seed) }),
            None => Err(CryptoError::Backend),
        }
    }

    /// The ciphertext length, 1088 bytes; `MalformedKey` once destroyed.
    pub fn ciphertext_size(&self) -> (r: Result<usize, CryptoError>)
        ensures
            self.live() ==> r == Ok::<usize, CryptoError>(MLKEM768_CIPHERTEXT_LEN),
            !self.live() ==> r == Err::<usize, CryptoError>(CryptoError::MalformedKey),
    {
        if self.seed.is_none() {
            return Err(CryptoError::MalformedKey);
        }
        Ok(MLKEM768_CIPHERTEXT_LEN)
    }

    /// The shared-secret length, 32 bytes; `MalformedKey` once destroyed.
    pub fn shared_secret_size(&self) -> (r: Result<usize, CryptoError>)
        ensures
            self.live() ==> r == Ok::<usize, CryptoError>(KEY32_LEN),
            !self.live() ==> r == Err::<usize, CryptoError>(CryptoError::MalformedKey),
    {
        if self.seed.is_none() {
            return Err(CryptoError::MalformedKey);
        }
        Ok(KEY32_LEN)
    }

    /// Encapsulates to this key's public part with fresh randomness: the ciphertext and the
    /// shared secret. `MalformedKey` once destroyed, `Backend` when the generator fails.
    pub fn encapsulate(&self) -> (r: Result<(Vec<u8>, Vec<u8>), CryptoError>)
        ensures
            r matches Ok((ct, ss)) ==> self.live() && encapsulates(self.seed_view(), ct@, ss@)
                && ct@.len() == MLKEM768_CIPHERTEXT_LEN && ss@.len() == KEY32_LEN,
            !self.live() ==> r == Err::<(Vec<u8>, Vec<u8>), CryptoError>(CryptoError::MalformedKey),
            r matches Err(e) ==> (e == CryptoError::MalformedKey && !self.live()) || e
                == CryptoError::Backend,
    {
        proof {
            use_type_invariant(self);
        }
        let seed = match &self.seed {
            Some(s) => s,
            None => {
                return Err(CryptoError::MalformedKey);
            },
        };
        let m = match random_bytes(KEY32_LEN) {
            Some(b) => b,
            None => {
                return Err(CryptoError::Backend);
            },
        };
        let (ct, ss) = mlkem768_encapsulate(seed.as_slice(), m.as_slice());
        assert(mlkem768_encapsulation(seed@, m@) == (ct@, ss@));
        Ok((ct, ss))
    }

    /// Decapsulates a ciphertext with this key's private part: the shared secret.
    /// `MalformedKey` once destroyed or for a ciphertext of the wrong length.
    pub fn decapsulate(&self, ct: &[u8]) -> (r: Result<Vec<u8>, CryptoError>)
        ensures
            r is Ok <==> self.live() && ct@.len() == MLKEM768_CIPHERTEXT_LEN,
            r matches Ok(ss) ==> ss@ == mlkem768_decapsulation(self.seed_view(), ct@)
                && ss@.len() == KEY32_LEN,
            r matches Err(e) ==> e == CryptoError::MalformedKey,
    {
        proof {
            use_type_invariant(self);
        }
        let seed = match &self.seed {
            Some(s) => s,
            None => {
                return Err(CryptoError::MalformedKey);
            },
        };
        if ct.len() != MLKEM768_CIPHERTEXT_LEN {
            return Err(CryptoError::MalformedKey);
        }
        Ok(mlkem768_decapsulate(seed.as_slice(), ct))
    }

    /// Destroys the private key, irreversibly; destroying it again changes nothing.
    pub fn destroy(&mut self)
        ensures
            !final(self).live(),
    {
        self.seed = None;
    }
}

} // verus!
