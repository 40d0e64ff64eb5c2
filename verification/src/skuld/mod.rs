//! SKULD: the signed intent provenance chain. Canonical encodings of the root and each
//! hop, signing, and verification of a whole chain (expiry, root signature, hash links,
//! narrowing scopes, hop signatures).
pub mod canonical;
pub mod chain;
