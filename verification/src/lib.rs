//! Cryptographic protocol core for private resource exchange: an
//! authenticated stream cipher built from a Diffie-Hellman exchange on the
//! Stark curve and a Poseidon sponge, and a binding-signature scheme that
//! aggregates per-resource key shares into one ECDSA key pair.
pub mod field;
pub mod curve;
pub mod hashing;
pub mod encryption;
pub mod errors;
pub mod binding_sig;
pub mod compliance;
