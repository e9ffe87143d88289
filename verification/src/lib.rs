//! A minimal ledger: signed transfers are batched into blocks, each block is
//! sealed by proof of work, and the blocks are linked by their hashes.

pub mod block;
pub mod chain;
pub mod codec;
pub mod hashing;
pub mod signing;
pub mod transaction;

pub use block::{Block, MiningExhausted};
pub use chain::{Blockchain, MineOutcome};
pub use codec::{decode, encode, CodecError, SerializablePublicKey, SerializableSignature};
pub use hashing::{meets_difficulty, sha256_hex, to_hex};
pub use transaction::Transaction;
