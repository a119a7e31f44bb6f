//! Error types of the binding-signature engine. Malformed inputs, primitive
//! failures and the semantic "signature invalid" outcome are kept apart:
//! verification returns `Ok(false)` for a well-formed signature that does not
//! verify, and an error only for inputs the primitives reject.
use vstd::prelude::*;

verus! {

/// Failure of binding-signature verification: the inputs could not be used.
#[derive(Debug, PartialEq, Eq, Structural)]
pub enum CairoBindingSigVerifyError {
    /// A key-share group did not decode to a curve point, the aggregate was
    /// the group identity, or the signature fields were out of range.
    InputError,
    /// The verify primitive rejected the digest or signature values.
    VerificationError,
}

/// Failure of binding-signature key generation.
#[derive(Debug, PartialEq, Eq, Structural)]
pub enum CairoBindingSigError {
    /// The public key point could not be derived from the private scalar.
    KeyGenerationError,
}

/// Failure of binding-signature generation.
#[derive(Debug)]
pub enum CairoSignError {
    /// The sign primitive rejected the key, digest, or nonce; the payload
    /// carries the primitive's own message. The caller must resupply fresh
    /// randomness rather than retry.
    SignatureGenerationError(String),
}

} // verus!
