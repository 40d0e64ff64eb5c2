//! SINDRI: the costimulation gate. Signal one binds the presented identity to a declared
//! key and to the chain's current holder; signal two verifies the whole intent chain
//! under keys resolved from the registry. Only when both hold does the provided
//! `authorize` mint an authorized action.
pub mod resolver;
pub mod gate;
