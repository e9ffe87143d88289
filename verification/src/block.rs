//! Blocks: a batch of transfers, the hash of the block before, and the
//! proof-of-work seal.

use crate::hashing::{has_zero_prefix, lower_hex, meets_difficulty, sha256_digest, sha256_hex};
use crate::transaction::Transaction;
use chrono::{DateTime, Utc};
use std::time::SystemTime;
use vstd::prelude::*;
use vstd::utf8::encode_utf8;

verus! {

/// Reads the system clock and has chrono's `DateTime<Utc>::from` turn the
/// reading into a date, of which `timestamp` gives the seconds since the
/// epoch. A clock that stands before the epoch gives a negative number.
/// The number comes from the clock, so nothing is claimed of it. The
/// conversion fails only on a reading outside the years that chrono can
/// hold, some 262,000 either way.
#[verifier::external_body]
pub(crate) fn current_timestamp() -> i64 {
    DateTime::<Utc>::from(SystemTime::now()).timestamp()
}

/// The JSON text of the array `[index, timestamp, rows, prev_hash, nonce]`,
/// in which each row is the array `[sender, recipient, amount, signature]`
/// of one transfer.
pub uninterp spec fn block_json(
    index: u64,
    timestamp: i64,
    rows: Seq<(Seq<char>, Seq<char>, u64, Seq<char>)>,
    prev_hash: Seq<char>,
    nonce: u64,
) -> Seq<char>;

/// Calls `serde_json::to_string` on the five values. The contract names the
/// text, and claims that the call succeeds: it fails only where a value
/// refuses to be serialized or a map has a key that is no string, and
/// integers, strings and sequences of them do neither.
#[verifier::external_body]
fn block_json_text(
    index: u64,
    timestamp: i64,
    rows: &Vec<(String, String, u64, String)>,
    prev_hash: &str,
    nonce: u64,
) -> (outcome: Result<String, serde_json::Error>)
    ensures
        outcome.is_ok(),
        outcome.unwrap()@ == block_json(index, timestamp, rows.deep_view(), prev_hash@, nonce),
{
    serde_json::to_string(&(index, timestamp, rows, prev_hash, nonce))
}

/// The row that stands for a transfer in a block's canonical text.
pub open spec fn row_of(tx: Transaction) -> (Seq<char>, Seq<char>, u64, Seq<char>) {
    (tx.sender.0@, tx.recipient.0@, tx.amount, tx.signature.0@)
}

/// The rows of a block's transfers, in their order.
pub open spec fn rows_of(transactions: Seq<Transaction>) -> Seq<
    (Seq<char>, Seq<char>, u64, Seq<char>),
> {
    Seq::new(transactions.len(), |i: int| row_of(transactions[i]))
}

/// The hash of a block with these fields: the SHA-256 digest of the
/// canonical text, in lowercase hex.
pub open spec fn block_digest(
    index: u64,
    timestamp: i64,
    transactions: Seq<Transaction>,
    prev_hash: Seq<char>,
    nonce: u64,
) -> Seq<char> {
    lower_hex(
        sha256_digest(
            encode_utf8(block_json(index, timestamp, rows_of(transactions), prev_hash, nonce)),
        )@,
    )
}

/// A block's hash has 64 characters, whatever the block holds.
pub proof fn digest_has_full_length(
    index: u64,
    timestamp: i64,
    transactions: Seq<Transaction>,
    prev_hash: Seq<char>,
    nonce: u64,
)
    ensures
        block_digest(index, timestamp, transactions, prev_hash, nonce).len() == HASH_LENGTH,
{
}

/// Whether `nonce` seals a block with these fields at `difficulty`.
pub open spec fn seals(
    index: u64,
    timestamp: i64,
    transactions: Seq<Transaction>,
    prev_hash: Seq<char>,
    difficulty: u32,
    nonce: u64,
) -> bool {
    has_zero_prefix(
        block_digest(index, timestamp, transactions, prev_hash, nonce),
        difficulty as nat,
    )
}

/// Whether `nonce` is the first from `from` on that seals a block with
/// these fields at `difficulty`.
pub open spec fn first_seal(
    index: u64,
    timestamp: i64,
    transactions: Seq<Transaction>,
    prev_hash: Seq<char>,
    difficulty: u32,
    from: u64,
    nonce: u64,
) -> bool {
    &&& from <= nonce
    &&& seals(index, timestamp, transactions, prev_hash, difficulty, nonce)
    &&& forall|n: u64|
        from <= n < nonce ==> !#[trigger] seals(
            index,
            timestamp,
            transactions,
            prev_hash,
            difficulty,
            n,
        )
}

/// Whether no nonce from `from` on seals a block with these fields at
/// `difficulty`.
pub open spec fn no_seal_from(
    index: u64,
    timestamp: i64,
    transactions: Seq<Transaction>,
    prev_hash: Seq<char>,
    difficulty: u32,
    from: u64,
) -> bool {
    forall|n: u64|
        from <= n ==> !#[trigger] seals(index, timestamp, transactions, prev_hash, difficulty, n)
}

/// The number of hex characters in a block's hash.
pub const HASH_LENGTH: usize = 64;

/// Mining found no seal: no nonce that was left meets the difficulty.
#[derive(Debug, Clone, Copy, PartialEq, Eq)]
pub struct MiningExhausted;

/// A block of the chain.
#[derive(Debug, Clone, PartialEq, Eq)]
pub struct Block {
    pub index: u64,
    pub timestamp: i64,
    pub transactions: Vec<Transaction>,
    pub prev_hash: String,
    pub nonce: u64,
    pub hash: String,
    pub difficulty: u32,
}

impl Block {
    /// The hash that the stored fields give with `nonce` in place of the
    /// stored nonce.
    pub open spec fn digest_at(&self, nonce: u64) -> Seq<char> {
        block_digest(self.index, self.timestamp, self.transactions@, self.prev_hash@, nonce)
    }

    /// The hash that the stored fields give.
    pub open spec fn digest(&self) -> Seq<char> {
        self.digest_at(self.nonce)
    }

    /// Whether `nonce` is the first from `from` on that seals this block.
    pub open spec fn first_solution(&self, from: u64, nonce: u64) -> bool {
        first_seal(
            self.index,
            self.timestamp,
            self.transactions@,
            self.prev_hash@,
            self.difficulty,
            from,
            nonce,
        )
    }

    /// Whether no nonce from `from` on seals this block.
    pub open spec fn unsolvable_from(&self, from: u64) -> bool {
        no_seal_from(
            self.index,
            self.timestamp,
            self.transactions@,
            self.prev_hash@,
            self.difficulty,
            from,
        )
    }

    /// The seal: the stored hash is the hash of the stored fields, and it
    /// begins with as many zeros as the difficulty asks for.
    pub open spec fn is_sealed(&self) -> bool {
        &&& self.hash@ == self.digest()
        &&& has_zero_prefix(self.hash@, self.difficulty as nat)
    }

    /// Whether `other` holds the same as this block in all that mining
    /// leaves alone.
    pub open spec fn same_content(&self, other: &Block) -> bool {
        &&& self.index == other.index
        &&& self.timestamp == other.timestamp
        &&& self.transactions@ == other.transactions@
        &&& self.prev_hash@ == other.prev_hash@
        &&& self.difficulty == other.difficulty
    }

    /// Whether this block holds the given content.
    pub open spec fn holds(
        &self,
        index: u64,
        timestamp: i64,
        transactions: Seq<Transaction>,
        prev_hash: Seq<char>,
        difficulty: u32,
    ) -> bool {
        &&& self.index == index
        &&& self.timestamp == timestamp
        &&& self.transactions@ == transactions
        &&& self.prev_hash@ == prev_hash
        &&& self.difficulty == difficulty
    }

    /// The rows of the transfers, for the canonical text.
    fn rows(&self) -> (rows: Vec<(String, String, u64, String)>)
        ensures
            rows.deep_view() == rows_of(self.transactions@),
    {
        let mut rows: Vec<(String, String, u64, String)> = Vec::new();
        let mut i: usize = 0;
        while i < self.transactions.len()
            invariant
                i <= self.transactions@.len(),
                rows@.len() == i,
                forall|k: int|
                    0 <= k < i ==> (#[trigger] rows@[k]).deep_view() == row_of(
                        self.transactions@[k],
                    ),
            decreases self.transactions@.len() - i,
        {
            let tx = &self.transactions[i];
            rows.push(
                (tx.sender.0.clone(), tx.recipient.0.clone(), tx.amount, tx.signature.0.clone()),
            );
            i += 1;
        }
        assert(rows.deep_view() =~= rows_of(self.transactions@));
        rows
    }

    /// The hash of the stored index, timestamp, transfers, previous hash
    /// and nonce. The stored hash and difficulty play no part in it.
    pub fn calculate_hash(&self) -> (hash: String)
        ensures
            hash@ == self.digest(),
            hash@.len() == HASH_LENGTH,
    {
        let rows = self.rows();
        let text = match block_json_text(
            self.index,
            self.timestamp,
            &rows,
            self.prev_hash.as_str(),
            self.nonce,
        ) {
            Ok(text) => text,
            // The call does not fail on these values.
            Err(_) => String::new(),
        };
        sha256_hex(text.as_str().as_bytes())
    }

    /// Searches, from the stored nonce upward, for the first nonce whose
    /// hash meets the difficulty, and stores that nonce and hash. A
    /// difficulty above the length of a hash can never be met: the block is
    /// then left as it is. Where the search runs out of nonces the block
    /// ends at the last nonce, with that nonce's hash, unsealed.
    pub fn mine(&mut self) -> (outcome: Result<(), MiningExhausted>)
        ensures
            final(self).same_content(old(self)),
            match outcome {
                Ok(_) => {
                    &&& old(self).first_solution(old(self).nonce, final(self).nonce)
                    &&& final(self).is_sealed()
                },
                Err(_) => {
                    &&& old(self).unsolvable_from(old(self).nonce)
                    &&& if old(self).difficulty > HASH_LENGTH {
                        &&& final(self).nonce == old(self).nonce
                        &&& final(self).hash@ == old(self).hash@
                    } else {
                        &&& final(self).nonce == u64::MAX
                        &&& final(self).hash@ == final(self).digest()
                    }
                },
            },
    {
        if self.difficulty as usize > HASH_LENGTH {
            proof {
                assert forall|n: u64| !#[trigger] seals(
                    self.index,
                    self.timestamp,
                    self.transactions@,
                    self.prev_hash@,
                    self.difficulty,
                    n,
                ) by {
                    digest_has_full_length(
                        self.index,
                        self.timestamp,
                        self.transactions@,
                        self.prev_hash@,
                        n,
                    );
                }
            }
            return Err(MiningExhausted);
        }
        loop
            invariant
                self.same_content(old(self)),
                self.difficulty <= HASH_LENGTH,
                old(self).nonce <= self.nonce,
                forall|n: u64|
                    old(self).nonce <= n < self.nonce ==> !#[trigger] seals(
                        self.index,
                        self.timestamp,
                        self.transactions@,
                        self.prev_hash@,
                        self.difficulty,
                        n,
                    ),
            decreases u64::MAX - self.nonce,
        {
            self.hash = self.calculate_hash();
            if meets_difficulty(self.hash.as_str(), self.difficulty) {
                return Ok(());
            }
            if self.nonce == u64::MAX {
                return Err(MiningExhausted);
            }
            self.nonce = self.nonce + 1;
        }
    }

    /// A block with the given content that is not mined yet: its nonce is
    /// zero and its hash is empty.
    pub fn candidate(
        index: u64,
        timestamp: i64,
        transactions: Vec<Transaction>,
        prev_hash: String,
        difficulty: u32,
    ) -> (block: Block)
        ensures
            block.holds(index, timestamp, transactions@, prev_hash@, difficulty),
            block.nonce == 0,
            block.hash@ == Seq::<char>::empty(),
    {
        Block {
            index,
            timestamp,
            transactions,
            prev_hash,
            nonce: 0,
            hash: String::new(),
            difficulty,
        }
    }

    /// What `new_at` returns for the given content.
    pub open spec fn is_mined_from(
        outcome: Result<Block, MiningExhausted>,
        index: u64,
        timestamp: i64,
        transactions: Seq<Transaction>,
        prev_hash: Seq<char>,
        difficulty: u32,
    ) -> bool {
        match outcome {
            Ok(block) => {
                &&& block.holds(index, timestamp, transactions, prev_hash, difficulty)
                &&& block.first_solution(0, block.nonce)
                &&& block.is_sealed()
            },
            Err(_) => no_seal_from(index, timestamp, transactions, prev_hash, difficulty, 0),
        }
    }

    /// Builds the block with the given content and timestamp and mines it
    /// from nonce zero. The block comes back sealed with the first nonce
    /// that seals it; where no nonce does, there is no block.
    pub fn new_at(
        index: u64,
        timestamp: i64,
        transactions: Vec<Transaction>,
        prev_hash: String,
        difficulty: u32,
    ) -> (outcome: Result<Block, MiningExhausted>)
        ensures
            Self::is_mined_from(
                outcome,
                index,
                timestamp,
                transactions@,
                prev_hash@,
                difficulty,
            ),
    {
        let mut block = Self::candidate(index, timestamp, transactions, prev_hash, difficulty);
        match block.mine() {
            Ok(_) => Ok(block),
            Err(e) => Err(e),
        }
    }

    /// Builds the block with the given content, stamps it with the current
    /// time and mines it from nonce zero.
    pub fn new(
        index: u64,
        transactions: Vec<Transaction>,
        prev_hash: String,
        difficulty: u32,
    ) -> (outcome: Result<Block, MiningExhausted>)
        ensures
            exists|timestamp: i64|
                Self::is_mined_from(
                    outcome,
                    index,
                    timestamp,
                    transactions@,
                    prev_hash@,
                    difficulty,
                ),
    {
        let timestamp = current_timestamp();
        Self::new_at(index, timestamp, transactions, prev_hash, difficulty)
    }
}

/// The hash is a function of index, timestamp, transfers, previous hash and
/// nonce: two blocks that agree in these, their transfers field by field,
/// have the same hash, whatever their stored hashes and difficulties are.
/// So computing the hash of a block again gives the same hash.
pub proof fn equal_fields_give_equal_hashes(a: Block, b: Block)
    requires
        a.index == b.index,
        a.timestamp == b.timestamp,
        rows_of(a.transactions@) == rows_of(b.transactions@),
        a.prev_hash@ == b.prev_hash@,
        a.nonce == b.nonce,
    ensures
        a.digest() == b.digest(),
{
}

/// A sealed block bears a difficulty of at most 64, the length of its hash.
pub proof fn sealed_block_has_feasible_difficulty(block: Block)
    requires
        block.is_sealed(),
    ensures
        block.hash@.len() == HASH_LENGTH,
        block.difficulty <= HASH_LENGTH,
{
    digest_has_full_length(
        block.index,
        block.timestamp,
        block.transactions@,
        block.prev_hash@,
        block.nonce,
    );
}

} // verus!
