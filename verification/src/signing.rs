//! Ed25519 keys and signatures on raw bytes, as `ed25519-dalek` computes them.

use ed25519_dalek::{Signature, Signer, SigningKey, Verifier, VerifyingKey};
use vstd::prelude::*;

verus! {

/// The public key that belongs to the private key `secret`.
pub uninterp spec fn ed25519_public_key(secret: Seq<u8>) -> Seq<u8>;

/// The signature that the private key `secret` puts on `message`.
pub uninterp spec fn ed25519_signature(secret: Seq<u8>, message: Seq<u8>) -> Seq<u8>;

/// Whether `signature` passes as a signature on `message` under the public
/// key `public`. Bytes that are no public key pass nothing.
pub uninterp spec fn ed25519_accepts(public: Seq<u8>, message: Seq<u8>, signature: Seq<u8>) -> bool;

/// Calls `SigningKey::verifying_key` on the key that `SigningKey::from_bytes`
/// makes of `secret`, and hands its bytes back. The derivation reads the
/// private key alone, so the contract names its result.
#[verifier::external_body]
pub(crate) fn public_key_of(secret: &[u8; 32]) -> (public: [u8; 32])
    ensures
        public@ == ed25519_public_key(secret@),
{
    SigningKey::from_bytes(secret).verifying_key().to_bytes()
}

/// Calls `Signer::sign` on the key that `SigningKey::from_bytes` makes of
/// `secret`. Ed25519 signing draws no randomness, so the contract names the
/// signature; and it claims the scheme's correctness: the signature passes
/// on the same message under the public key of the same private key.
#[verifier::external_body]
pub(crate) fn sign_message(secret: &[u8; 32], message: &[u8]) -> (signature: [u8; 64])
    ensures
        signature@ == ed25519_signature(secret@, message@),
        ed25519_accepts(ed25519_public_key(secret@), message@, signature@),
{
    SigningKey::from_bytes(secret).sign(message).to_bytes()
}

/// Calls `Verifier::verify` on the key that `VerifyingKey::from_bytes` makes
/// of `public`, or answers `false` where those bytes are no key. The
/// contract names the answer.
#[verifier::external_body]
pub(crate) fn signature_passes(
    public: &[u8; 32],
    message: &[u8],
    signature: &[u8; 64],
) -> (passes: bool)
    ensures
        passes == ed25519_accepts(public@, message@, signature@),
{
    match VerifyingKey::from_bytes(public) {
        Ok(key) => key.verify(message, &Signature::from_bytes(signature)).is_ok(),
        Err(_) => false,
    }
}

} // verus!
