//! BROKKR — the governance spine of an agent: typed registers, signed canonical
//! encodings, the intent provenance chain, the costimulation gate, the promotion gate,
//! the resolution engine, and the dual-family signature backend they rest on.
pub mod canon;
pub mod text;
pub mod ids;
pub mod classification;
pub mod crypto;
pub mod backend;
pub mod sset;
pub mod intent;
pub mod skuld;
pub mod personal_data;
pub mod signal;
pub mod risk;
pub mod tolerance;
pub mod gate;
pub mod barrier;
pub mod capability;
pub mod genome;
pub mod resolution;
pub mod reasoner;
pub mod adapt;
pub mod explanation;
pub mod regin;
pub mod durations;
pub mod sentinel;
pub mod mimir;
pub mod sindri;
