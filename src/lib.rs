//! Deterministic Ed25519 keys from a BIP-39 recovery phrase, with detached
//! signing and verification.

pub mod encoding;
pub mod error;
pub mod keys;
pub mod phrase;
pub mod secret;
pub mod session;
pub mod signing;
