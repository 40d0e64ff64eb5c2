//! The sentinel organ: the resolution engine and the signed encodings of the Self Set
//! corpus, tolerance grants and signals.
pub mod canonical;
pub mod eir;
pub mod observation;
pub mod heimdall;
