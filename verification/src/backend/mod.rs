//! The signature and digest backend: SHA-384, ML-DSA-65, SLH-DSA-SHAKE-192s, and the
//! ML-KEM-768 / AES-256-GCM crypto-shredding primitive.
pub mod primitives;
pub mod hash;
pub mod keys;
pub mod sign;
pub mod tstinfo;
pub mod cms;
pub mod seal;
pub mod kem;
pub mod shred;
