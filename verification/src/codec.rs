//! The text form of key and signature material: standard base64 with
//! padding, as the `base64` crate's `STANDARD` engine writes and reads it.

use base64::engine::general_purpose::STANDARD;
use base64::{DecodeError, Engine};
use vstd::prelude::*;

verus! {

/// Raw length of a public key.
pub const PUBLIC_KEY_LENGTH: usize = 32;

/// Raw length of a signature.
pub const SIGNATURE_LENGTH: usize = 64;

/// Why a text could not be turned back into key or signature material.
#[derive(Debug, Clone, Copy, PartialEq, Eq)]
pub enum CodecError {
    /// The text is not valid base64.
    MalformedEncoding,
    /// The text is valid base64, but of another number of bytes than expected.
    InvalidLength,
}

/// The error type of `base64`'s decoders, carried through as it is.
#[verifier::external_type_specification]
#[verifier::external_body]
pub struct ExDecodeError(DecodeError);

/// The base64 text of `bytes`.
pub uninterp spec fn base64_text(bytes: Seq<u8>) -> Seq<char>;

/// The bytes that `text` stands for, or `None` where it is not valid base64.
pub uninterp spec fn base64_bytes(text: Seq<char>) -> Option<Seq<u8>>;

/// Calls `Engine::encode` on the `STANDARD` engine. The contract names the
/// text that comes back, and claims the one fact that makes the encoding
/// usable: decoding that text gives the input again. The call panics where
/// the encoded length, four characters for every three bytes begun, does
/// not fit in `usize`; no input within the size that a slice can have
/// comes near that.
#[verifier::external_body]
fn base64_encode(bytes: &[u8]) -> (text: String)
    requires
        bytes@.len() <= isize::MAX,
    ensures
        text@ == base64_text(bytes@),
        base64_bytes(text@) == Some(bytes@),
{
    STANDARD.encode(bytes)
}

/// Calls `Engine::decode` on the `STANDARD` engine. The contract names the
/// outcome: the decoded bytes, or no bytes where the call reports an error.
#[verifier::external_body]
fn base64_decode(text: &str) -> (outcome: Result<Vec<u8>, DecodeError>)
    ensures
        match outcome {
            Ok(bytes) => base64_bytes(text@) == Some(bytes@),
            Err(_) => base64_bytes(text@).is_none(),
        },
{
    STANDARD.decode(text)
}

/// What decoding `text` to material of `expected` bytes gives.
pub open spec fn decoded(text: Seq<char>, expected: nat) -> Result<Seq<u8>, CodecError> {
    material_of(base64_bytes(text), expected)
}

/// The judgement on decoded bytes: absent bytes are a malformed encoding,
/// bytes of another length than `expected` an invalid length.
pub open spec fn material_of(bytes: Option<Seq<u8>>, expected: nat) -> Result<
    Seq<u8>,
    CodecError,
> {
    match bytes {
        None => Err(CodecError::MalformedEncoding),
        Some(b) => if b.len() == expected {
            Ok(b)
        } else {
            Err(CodecError::InvalidLength)
        },
    }
}

/// A decoding result with its bytes as a sequence.
pub open spec fn material_view(outcome: Result<Vec<u8>, CodecError>) -> Result<
    Seq<u8>,
    CodecError,
> {
    match outcome {
        Ok(bytes) => Ok(bytes@),
        Err(e) => Err(e),
    }
}

/// Accepts decoded bytes as material of `expected` bytes, or says why not.
pub fn check_material(bytes: Option<Vec<u8>>, expected: usize) -> (outcome: Result<
    Vec<u8>,
    CodecError,
>)
    ensures
        material_view(outcome) == material_of(
            match bytes {
                Some(b) => Some(b@),
                None => None,
            },
            expected as nat,
        ),
{
    match bytes {
        None => Err(CodecError::MalformedEncoding),
        Some(b) => {
            if b.len() == expected {
                Ok(b)
            } else {
                Err(CodecError::InvalidLength)
            }
        },
    }
}

/// Encodes raw material as text. Decoding the text with the material's own
/// length gives the material back. The input is within the size that a
/// slice can have.
pub fn encode(bytes: &[u8]) -> (text: String)
    requires
        bytes@.len() <= isize::MAX,
    ensures
        text@ == base64_text(bytes@),
        decoded(text@, bytes@.len()) == Ok::<Seq<u8>, CodecError>(bytes@),
{
    base64_encode(bytes)
}

/// Decodes text to material of exactly `expected` bytes.
pub fn decode(text: &str, expected: usize) -> (outcome: Result<Vec<u8>, CodecError>)
    ensures
        material_view(outcome) == decoded(text@, expected as nat),
{
    let bytes = match base64_decode(text) {
        Ok(bytes) => Some(bytes),
        Err(_) => None,
    };
    check_material(bytes, expected)
}

/// Copies a vector of exactly `N` bytes into an array.
fn to_array<const N: usize>(bytes: &Vec<u8>) -> (array: [u8; N])
    requires
        bytes@.len() == N,
    ensures
        array@ == bytes@,
{
    let mut array = [0u8; N];
    let mut i: usize = 0;
    while i < N
        invariant
            i <= N,
            bytes@.len() == N,
            array@.len() == N,
            forall|k: int| 0 <= k < i ==> array@[k] == bytes@[k],
        decreases N - i,
    {
        array[i] = bytes[i];
        i += 1;
    }
    array
}

/// A public key in its text form.
#[derive(Debug, Clone, PartialEq, Eq)]
pub struct SerializablePublicKey(pub String);

impl SerializablePublicKey {
    /// The key's raw bytes, where the text holds a key.
    pub open spec fn bytes(&self) -> Result<Seq<u8>, CodecError> {
        decoded(self.0@, PUBLIC_KEY_LENGTH as nat)
    }

    /// The text form of a raw public key.
    pub fn from_bytes(bytes: &[u8; 32]) -> (key: Self)
        ensures
            key.0@ == base64_text(bytes@),
            key.bytes() == Ok::<Seq<u8>, CodecError>(bytes@),
    {
        SerializablePublicKey(encode(bytes.as_slice()))
    }

    /// The raw public key that the text holds.
    pub fn to_bytes(&self) -> (outcome: Result<[u8; 32], CodecError>)
        ensures
            match outcome {
                Ok(bytes) => self.bytes() == Ok::<Seq<u8>, CodecError>(bytes@),
                Err(e) => self.bytes() == Err::<Seq<u8>, CodecError>(e),
            },
    {
        match decode(self.0.as_str(), PUBLIC_KEY_LENGTH) {
            Ok(bytes) => Ok(to_array::<32>(&bytes)),
            Err(e) => Err(e),
        }
    }
}

/// A signature in its text form.
#[derive(Debug, Clone, PartialEq, Eq)]
pub struct SerializableSignature(pub String);

impl SerializableSignature {
    /// The signature's raw bytes, where the text holds a signature.
    pub open spec fn bytes(&self) -> Result<Seq<u8>, CodecError> {
        decoded(self.0@, SIGNATURE_LENGTH as nat)
    }

    /// The text form of a raw signature.
    pub fn from_bytes(bytes: &[u8; 64]) -> (signature: Self)
        ensures
            signature.0@ == base64_text(bytes@),
            signature.bytes() == Ok::<Seq<u8>, CodecError>(bytes@),
    {
        SerializableSignature(encode(bytes.as_slice()))
    }

    /// The raw signature that the text holds.
    pub fn to_bytes(&self) -> (outcome: Result<[u8; 64], CodecError>)
        ensures
            match outcome {
                Ok(bytes) => self.bytes() == Ok::<Seq<u8>, CodecError>(bytes@),
                Err(e) => self.bytes() == Err::<Seq<u8>, CodecError>(e),
            },
    {
        match decode(self.0.as_str(), SIGNATURE_LENGTH) {
            Ok(bytes) => Ok(to_array::<64>(&bytes)),
            Err(e) => Err(e),
        }
    }
}

} // verus!
