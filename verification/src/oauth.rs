//! The authorization-code flow: client registration, consent, code exchange
//! and the bearer gate.

pub mod flow;
pub mod fresh;
pub mod laws;
pub mod store;
pub mod types;
pub mod wire;
