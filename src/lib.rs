//! Verifiable audio provenance: a transform pipeline over mono 16-bit samples,
//! a SHA-256 content fingerprint, recovery of a signer identity from a
//! recoverable secp256k1 signature, and the fixed-layout public record.

pub mod commitment;
pub mod signature;
pub mod transform;
pub mod record;
pub mod wire;
