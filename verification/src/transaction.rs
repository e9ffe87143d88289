//! Signed transfers.

use crate::codec::{base64_text, SerializablePublicKey, SerializableSignature};
use crate::signing::{
    ed25519_accepts, ed25519_public_key, ed25519_signature, public_key_of, sign_message,
    signature_passes,
};
use vstd::prelude::*;

verus! {

/// The error type of `serde_json`, carried through as it is.
#[verifier::external_type_specification]
#[verifier::external_body]
pub struct ExJsonError(serde_json::Error);

/// The JSON text, as bytes, of the array `[sender, recipient, amount]`.
pub uninterp spec fn transfer_json(sender: Seq<char>, recipient: Seq<char>, amount: u64) -> Seq<u8>;

/// Calls `serde_json::to_vec` on the triple. The contract names the bytes,
/// and claims that the call succeeds: it fails only where a value refuses to
/// be serialized or a map has a key that is no string, and two strings and
/// an integer do neither.
#[verifier::external_body]
fn transfer_json_bytes(
    sender: &str,
    recipient: &str,
    amount: u64,
) -> (outcome: Result<Vec<u8>, serde_json::Error>)
    ensures
        outcome.is_ok(),
        outcome.unwrap()@ == transfer_json(sender@, recipient@, amount),
{
    serde_json::to_vec(&(sender, recipient, amount))
}

/// A transfer of `amount` from `sender` to `recipient`, signed by the sender.
#[derive(Debug, Clone, PartialEq, Eq)]
pub struct Transaction {
    pub sender: SerializablePublicKey,
    pub recipient: SerializablePublicKey,
    pub amount: u64,
    pub signature: SerializableSignature,
}

impl Transaction {
    /// The message that this transfer's signature has to cover: the JSON
    /// array of the two keys' text forms and the amount.
    pub open spec fn message(&self) -> Seq<u8> {
        transfer_json(self.sender.0@, self.recipient.0@, self.amount)
    }

    /// Whether the stored signature passes: sender and signature decode to
    /// a key and a signature, and the signature passes on the message under
    /// that key.
    pub open spec fn is_valid(&self) -> bool {
        match (self.sender.bytes(), self.signature.bytes()) {
            (Ok(public), Ok(signature)) => ed25519_accepts(public, self.message(), signature),
            _ => false,
        }
    }

    /// Whether this is the transfer that the private key `secret` signs to
    /// `recipient`.
    pub open spec fn is_signed_transfer(
        &self,
        secret: Seq<u8>,
        recipient: Seq<u8>,
        amount: u64,
    ) -> bool {
        &&& self.sender.0@ == base64_text(ed25519_public_key(secret))
        &&& self.recipient.0@ == base64_text(recipient)
        &&& self.amount == amount
        &&& self.signature.0@ == base64_text(ed25519_signature(secret, self.message()))
    }

    /// The message bytes of a transfer with these fields.
    pub fn message_bytes(sender: &str, recipient: &str, amount: u64) -> (message: Vec<u8>)
        ensures
            message@ == transfer_json(sender@, recipient@, amount),
    {
        match transfer_json_bytes(sender, recipient, amount) {
            Ok(bytes) => bytes,
            // The call does not fail on these values.
            Err(_) => Vec::new(),
        }
    }

    /// Signs a transfer of `amount` to the public key `recipient` with the
    /// private key `sender_sk`. The transfer that results verifies.
    pub fn new(sender_sk: &[u8; 32], recipient: &[u8; 32], amount: u64) -> (tx: Transaction)
        ensures
            tx.is_signed_transfer(sender_sk@, recipient@, amount),
            tx.is_valid(),
    {
        let sender_pk = public_key_of(sender_sk);
        let sender = SerializablePublicKey::from_bytes(&sender_pk);
        let recipient = SerializablePublicKey::from_bytes(recipient);
        let message = Self::message_bytes(sender.0.as_str(), recipient.0.as_str(), amount);
        let raw_signature = sign_message(sender_sk, message.as_slice());
        let signature = SerializableSignature::from_bytes(&raw_signature);
        Transaction { sender, recipient, amount, signature }
    }

    /// Checks the stored signature against the stored fields. Text that
    /// does not decode, and a signature that does not pass, both give
    /// `false`.
    pub fn verify(&self) -> (ok: bool)
        ensures
            ok == self.is_valid(),
    {
        let public = match self.sender.to_bytes() {
            Ok(bytes) => bytes,
            Err(_) => { return false; },
        };
        let signature = match self.signature.to_bytes() {
            Ok(bytes) => bytes,
            Err(_) => { return false; },
        };
        let message = Self::message_bytes(
            self.sender.0.as_str(),
            self.recipient.0.as_str(),
            self.amount,
        );
        signature_passes(&public, message.as_slice(), &signature)
    }
}

} // verus!
