//! The Ed25519 types of `ed25519_dalek`, and what this library relies on of
//! their byte conversions.
use vstd::prelude::*;
use ed25519_dalek::{Signature, SignatureError, SigningKey, VerifyingKey};

verus! {

#[verifier::external_type_specification]
#[verifier::external_body]
pub struct ExVerifyingKey(VerifyingKey);

#[verifier::external_type_specification]
#[verifier::external_body]
pub struct ExSignatureError(SignatureError);

#[verifier::external_type_specification]
#[verifier::external_body]
pub struct ExSigningKey(SigningKey);

#[verifier::external_type_specification]
#[verifier::external_body]
pub struct ExSignature(Signature);

/// The 32 compressed-point bytes that a verification key holds.
pub uninterp spec fn verifying_key_encoding(k: VerifyingKey) -> Seq<u8>;

/// Whether 32 bytes decompress to a point of the curve.
pub uninterp spec fn is_point_encoding(b: Seq<u8>) -> bool;

/// Relies on `ed25519_dalek::VerifyingKey::to_bytes`: it returns the
/// compressed bytes that the key holds, and those decompress.
#[verifier::external_body]
pub(crate) fn verifying_key_to_bytes(k: &VerifyingKey) -> (r: [u8; 32])
    ensures
        r@ == verifying_key_encoding(*k),
        is_point_encoding(r@),
{
    k.to_bytes()
}

/// Relies on `ed25519_dalek::VerifyingKey::from_bytes`: it succeeds exactly
/// when the bytes decompress, and the key keeps the bytes it was given.
#[verifier::external_body]
pub(crate) fn verifying_key_from_bytes(bytes: &[u8; 32]) -> (r: Result<VerifyingKey, SignatureError>)
    ensures
        r is Ok <==> is_point_encoding(bytes@),
        r matches Ok(k) ==> verifying_key_encoding(k) == bytes@,
{
    VerifyingKey::from_bytes(bytes)
}

/// The 32-byte seed that a signing key holds.
pub uninterp spec fn signing_key_seed(k: SigningKey) -> Seq<u8>;

/// Relies on `ed25519_dalek::SigningKey::to_bytes`: it returns the seed the
/// key holds.
#[verifier::external_body]
pub(crate) fn signing_key_to_bytes(k: &SigningKey) -> (r: [u8; 32])
    ensures
        r@ == signing_key_seed(*k),
{
    k.to_bytes()
}

/// Relies on `ed25519_dalek::SigningKey::from_bytes`: any 32 bytes are a seed,
/// and the key keeps the seed it was given.
#[verifier::external_body]
pub(crate) fn signing_key_from_bytes(seed: &[u8; 32]) -> (r: SigningKey)
    ensures
        signing_key_seed(r) == seed@,
{
    SigningKey::from_bytes(seed)
}

/// The 64 bytes that a signature holds: its `R` then its `s` component.
pub uninterp spec fn signature_encoding(s: Signature) -> Seq<u8>;

/// Relies on `ed25519::Signature::to_bytes` (re-exported by `ed25519_dalek`):
/// it returns the two 32-byte components the signature holds, in order.
#[verifier::external_body]
pub(crate) fn signature_to_bytes(s: &Signature) -> (r: [u8; 64])
    ensures
        r@ == signature_encoding(*s),
{
    s.to_bytes()
}

/// Relies on `ed25519::Signature::from_bytes` (re-exported by `ed25519_dalek`):
/// it splits any 64 bytes into the two components without checking them.
#[verifier::external_body]
pub(crate) fn signature_from_bytes(bytes: &[u8; 64]) -> (r: Signature)
    ensures
        signature_encoding(r) == bytes@,
{
    Signature::from_bytes(bytes)
}

} // verus!
