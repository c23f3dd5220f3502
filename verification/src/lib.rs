//! A registry of public, tamper-evident accusation records ("marks").
//!
//! A mark binds an accused identity to a 32-byte proof fingerprint, carries a
//! running vote tally, and is finalized once the tally clears a fixed 3:2
//! supermajority ratio. The registry derives a deterministic storage key from
//! the (accused, fingerprint) pair and allocates at most one mark per key.

pub mod errors;
pub mod mark;
pub mod registry;
