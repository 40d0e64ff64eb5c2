//! MIMIR: the reasoner. It proposes only from cleared context, only through a registered
//! endpoint, and reads a model's output with a strict action grammar.
pub mod ollama;
pub mod backend;
pub mod registry;
pub mod reasoner;
