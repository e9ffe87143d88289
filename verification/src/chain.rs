//! The chain: blocks in order, the pending transfers, and the difficulty
//! that the next block is mined at.

use crate::block::{
    current_timestamp, no_seal_from, sealed_block_has_feasible_difficulty, Block,
    MiningExhausted,
};
use crate::transaction::Transaction;
use std::collections::VecDeque;
use vstd::prelude::*;
use vstd::string::StringExecFns;

verus! {

/// The difficulty of the genesis block, and of a chain that begins.
pub const GENESIS_DIFFICULTY: u32 = 2;

/// The difficulty rises by one whenever the chain's length reaches a
/// multiple of this.
pub const RAMP_INTERVAL: usize = 5;

/// What a call to mine the pending transfers did.
#[derive(Debug, Clone, Copy, PartialEq, Eq)]
pub enum MineOutcome {
    /// Nothing was pending; nothing changed.
    NothingToMine,
    /// A block was appended; the flag says whether the difficulty rose.
    Mined { difficulty_raised: bool },
}

/// Whether block `i` of `chain` is linked to the block before it and
/// carries the hash of its own fields.
pub open spec fn link_holds(chain: Seq<Block>, i: int) -> bool {
    &&& chain[i].prev_hash@ == chain[i - 1].hash@
    &&& chain[i].hash@ == chain[i].digest()
}

/// Whether every block after the first is linked and rightly hashed.
pub open spec fn linked(chain: Seq<Block>) -> bool {
    forall|i: int| 1 <= i < chain.len() ==> #[trigger] link_holds(chain, i)
}

/// The difficulty that a chain of `length` blocks mines its next block at.
pub open spec fn difficulty_at(length: int) -> int {
    GENESIS_DIFFICULTY + length / (RAMP_INTERVAL as int)
}

/// Whether the difficulty rises when the chain reaches `length` blocks.
pub open spec fn ramps_at(length: int) -> bool {
    length % (RAMP_INTERVAL as int) == 0
}

/// Whether every transfer of `transactions` carries a signature that passes.
pub open spec fn all_valid(transactions: Seq<Transaction>) -> bool {
    forall|j: int| 0 <= j < transactions.len() ==> (#[trigger] transactions[j]).is_valid()
}

/// Whether the first block is a genesis block: index zero, no transfers,
/// the previous hash `"0"`, the genesis difficulty.
pub open spec fn has_genesis(chain: Seq<Block>) -> bool {
    &&& chain.len() >= 1
    &&& chain[0].index == 0
    &&& chain[0].transactions@.len() == 0
    &&& chain[0].prev_hash@ == seq!['0']
    &&& chain[0].difficulty == GENESIS_DIFFICULTY
}

/// Whether block `i`, a block after the first, is as mining left it: linked
/// to the block before, numbered by its place, mined at the difficulty that
/// was in force, and filled with valid transfers.
pub open spec fn follows(chain: Seq<Block>, i: int) -> bool {
    &&& chain[i].prev_hash@ == chain[i - 1].hash@
    &&& chain[i].index == i
    &&& chain[i].difficulty == difficulty_at(i)
    &&& chain[i].transactions@.len() > 0
    &&& all_valid(chain[i].transactions@)
}

/// Whether the blocks are those of a chain that grew by mining: a genesis
/// block first, every block sealed, every later block following the one
/// before.
pub open spec fn in_order(chain: Seq<Block>) -> bool {
    &&& has_genesis(chain)
    &&& forall|i: int| 0 <= i < chain.len() ==> (#[trigger] chain[i]).is_sealed()
    &&& forall|i: int| 1 <= i < chain.len() ==> #[trigger] follows(chain, i)
}

/// A chain of blocks with its pending transfers.
#[derive(Debug)]
pub struct Blockchain {
    pub chain: Vec<Block>,
    pub mempool: VecDeque<Transaction>,
    pub difficulty: u32,
}

/// Moves every item out of `queue`, first in first out.
fn drain_all(queue: &mut VecDeque<Transaction>) -> (drained: Vec<Transaction>)
    ensures
        drained@ == old(queue)@,
        final(queue)@.len() == 0,
{
    let mut drained: Vec<Transaction> = Vec::new();
    while queue.len() > 0
        invariant
            drained@ + queue@ == old(queue)@,
        decreases queue@.len(),
    {
        let ghost before = queue@;
        if let Some(tx) = queue.pop_front() {
            assert(drained@.push(tx) + before.subrange(1, before.len() as int) =~= drained@
                + before);
            drained.push(tx);
        }
    }
    assert(drained@ + queue@ =~= drained@);
    drained
}

/// Moves `items` back into the empty `queue`, in their order.
fn refill(queue: &mut VecDeque<Transaction>, items: Vec<Transaction>)
    requires
        old(queue)@.len() == 0,
    ensures
        final(queue)@ == items@,
{
    let mut items = items;
    let ghost all = items@;
    while items.len() > 0
        invariant
            items@ + queue@ == all,
        decreases items@.len(),
    {
        let ghost before = items@;
        let ghost queued = queue@;
        if let Some(tx) = items.pop() {
            assert(before.subrange(0, before.len() - 1) + (seq![tx] + queued) =~= before
                + queued);
            queue.push_front(tx);
        }
    }
    assert(items@ + queue@ =~= queue@);
}

impl Blockchain {
    /// What `verify_chain` decides: every block after the first names the
    /// hash of the block before it, and stores the hash of its own fields.
    pub open spec fn is_intact(&self) -> bool {
        linked(self.chain@)
    }

    /// The state that the chain's own operations make and keep: the blocks
    /// in order, the difficulty as the length gives it, and only valid
    /// transfers pending.
    pub open spec fn wf(&self) -> bool {
        &&& in_order(self.chain@)
        &&& self.difficulty == difficulty_at(self.chain@.len() as int)
        &&& all_valid(self.mempool@)
    }

    /// Whether `other` holds the same chain, pending transfers and
    /// difficulty.
    pub open spec fn same_state(&self, other: &Blockchain) -> bool {
        &&& self.chain@ == other.chain@
        &&& self.mempool@ == other.mempool@
        &&& self.difficulty == other.difficulty
    }

    /// Whether a block can be appended: there is a last block to link to,
    /// and where the new length raises the difficulty, the difficulty has
    /// room to rise.
    pub open spec fn can_mine(&self) -> bool {
        &&& self.chain@.len() >= 1
        &&& ramps_at(self.chain@.len() as int + 1) ==> self.difficulty < u32::MAX
    }

    /// What founding a chain at `timestamp` gives: a chain of the genesis
    /// block alone, mined from nonce zero, with nothing pending; or nothing,
    /// where no nonce seals the genesis block.
    pub open spec fn is_founded_at(
        outcome: Result<Blockchain, MiningExhausted>,
        timestamp: i64,
    ) -> bool {
        match outcome {
            Ok(ledger) => {
                &&& ledger.wf()
                &&& ledger.chain@.len() == 1
                &&& ledger.chain@[0].timestamp == timestamp
                &&& ledger.chain@[0].first_solution(0, ledger.chain@[0].nonce)
                &&& ledger.mempool@.len() == 0
                &&& ledger.difficulty == GENESIS_DIFFICULTY
            },
            Err(_) => no_seal_from(
                0,
                timestamp,
                Seq::<Transaction>::empty(),
                seq!['0'],
                GENESIS_DIFFICULTY,
                0,
            ),
        }
    }

    /// Founds a chain whose genesis block bears `timestamp`.
    pub fn new_at(timestamp: i64) -> (outcome: Result<Blockchain, MiningExhausted>)
        ensures
            Self::is_founded_at(outcome, timestamp),
    {
        let sentinel = String::from_str("0");
        proof {
            reveal_strlit("0");
            assert(sentinel@ =~= seq!['0']);
        }
        match Block::new_at(0, timestamp, Vec::new(), sentinel, GENESIS_DIFFICULTY) {
            Ok(genesis) => {
                let mut chain: Vec<Block> = Vec::new();
                chain.push(genesis);
                Ok(Blockchain { chain, mempool: VecDeque::new(), difficulty: GENESIS_DIFFICULTY })
            },
            Err(e) => Err(e),
        }
    }

    /// Founds a chain whose genesis block bears the current time.
    pub fn new() -> (outcome: Result<Blockchain, MiningExhausted>)
        ensures
            exists|timestamp: i64| Self::is_founded_at(outcome, timestamp),
    {
        let timestamp = current_timestamp();
        Self::new_at(timestamp)
    }

    /// Admits `tx` to the back of the pending transfers if its signature
    /// passes, and says whether it did. A rejected transfer changes nothing.
    pub fn add_transaction(&mut self, tx: Transaction) -> (accepted: bool)
        ensures
            accepted == tx.is_valid(),
            final(self).chain@ == old(self).chain@,
            final(self).difficulty == old(self).difficulty,
            final(self).mempool@ == if accepted {
                old(self).mempool@.push(tx)
            } else {
                old(self).mempool@
            },
            old(self).wf() ==> final(self).wf(),
    {
        if tx.verify() {
            self.mempool.push_back(tx);
            true
        } else {
            false
        }
    }

    /// Tells whether the next call to mine can go ahead: either nothing is
    /// pending, or a block can be appended.
    pub fn ready_to_mine(&self) -> (ready: bool)
        ensures
            ready == (self.mempool@.len() > 0 ==> self.can_mine()),
    {
        if self.mempool.len() == 0 {
            return true;
        }
        let length = self.chain.len();
        if length == 0 {
            return false;
        }
        let rises = length % RAMP_INTERVAL == RAMP_INTERVAL - 1;
        !rises || self.difficulty < u32::MAX
    }

    /// What mining the pending transfers at `timestamp` makes of the chain
    /// `before`. With nothing pending, nothing changes. Otherwise one block
    /// is appended that holds every pending transfer in the order of
    /// admission, names the hash of the last block, and is sealed at the
    /// difficulty in force with the first nonce that seals it; nothing is
    /// left pending, and the difficulty rises by one where the new length is
    /// a multiple of the ramp interval. Where no nonce seals the block,
    /// nothing changes.
    pub open spec fn is_mined_at(
        before: &Blockchain,
        after: &Blockchain,
        timestamp: i64,
        outcome: Result<MineOutcome, MiningExhausted>,
    ) -> bool {
        if before.mempool@.len() == 0 {
            &&& outcome == Ok::<MineOutcome, MiningExhausted>(MineOutcome::NothingToMine)
            &&& after.same_state(before)
        } else {
            match outcome {
                Ok(MineOutcome::Mined { difficulty_raised }) => {
                    let block = after.chain@.last();
                    &&& after.chain@ == before.chain@.push(block)
                    &&& block.holds(
                        before.chain@.len() as u64,
                        timestamp,
                        before.mempool@,
                        before.chain@.last().hash@,
                        before.difficulty,
                    )
                    &&& block.first_solution(0, block.nonce)
                    &&& block.is_sealed()
                    &&& after.mempool@.len() == 0
                    &&& difficulty_raised == ramps_at(after.chain@.len() as int)
                    &&& after.difficulty == before.difficulty + if difficulty_raised {
                        1int
                    } else {
                        0int
                    }
                },
                Ok(MineOutcome::NothingToMine) => false,
                Err(_) => {
                    &&& after.same_state(before)
                    &&& no_seal_from(
                        before.chain@.len() as u64,
                        timestamp,
                        before.mempool@,
                        before.chain@.last().hash@,
                        before.difficulty,
                        0,
                    )
                },
            }
        }
    }

    /// Mines the pending transfers into a block that bears `timestamp`.
    pub fn mine_pending_at(&mut self, timestamp: i64) -> (outcome: Result<
        MineOutcome,
        MiningExhausted,
    >)
        requires
            old(self).mempool@.len() > 0 ==> old(self).can_mine(),
        ensures
            Self::is_mined_at(old(self), final(self), timestamp, outcome),
            old(self).wf() ==> final(self).wf(),
    {
        if self.mempool.len() == 0 {
            return Ok(MineOutcome::NothingToMine);
        }
        let transactions = drain_all(&mut self.mempool);
        let length = self.chain.len();
        let prev_hash = self.chain[length - 1].hash.clone();
        let mut block = Block::candidate(
            length as u64,
            timestamp,
            transactions,
            prev_hash,
            self.difficulty,
        );
        match block.mine() {
            Ok(_) => {
                self.chain.push(block);
                let difficulty_raised = self.chain.len() % RAMP_INTERVAL == 0;
                if difficulty_raised {
                    self.difficulty = self.difficulty + 1;
                }
                proof {
                    if old(self).wf() {
                        assert(follows(self.chain@, length as int));
                        assert forall|i: int| 1 <= i < self.chain@.len() implies #[trigger] follows(
                            self.chain@,
                            i,
                        ) by {
                            if i < length {
                                assert(follows(old(self).chain@, i));
                            }
                        }
                    }
                }
                Ok(MineOutcome::Mined { difficulty_raised })
            },
            Err(e) => {
                refill(&mut self.mempool, block.transactions);
                Err(e)
            },
        }
    }

    /// Mines the pending transfers into a block that bears the current time.
    pub fn mine_pending(&mut self) -> (outcome: Result<MineOutcome, MiningExhausted>)
        requires
            old(self).mempool@.len() > 0 ==> old(self).can_mine(),
        ensures
            exists|timestamp: i64| Self::is_mined_at(old(self), final(self), timestamp, outcome),
            old(self).wf() ==> final(self).wf(),
    {
        let timestamp = current_timestamp();
        self.mine_pending_at(timestamp)
    }

    /// Checks every block after the first against the block before it and
    /// against its own fields.
    pub fn verify_chain(&self) -> (ok: bool)
        ensures
            ok == self.is_intact(),
    {
        let mut i: usize = 1;
        while i < self.chain.len()
            invariant
                1 <= i,
                forall|k: int| 1 <= k < i && k < self.chain@.len() ==> #[trigger] link_holds(
                    self.chain@,
                    k,
                ),
            decreases self.chain@.len() - i,
        {
            let curr = &self.chain[i];
            let prev = &self.chain[i - 1];
            if !(curr.prev_hash == prev.hash) {
                assert(!link_holds(self.chain@, i as int));
                return false;
            }
            let hash = curr.calculate_hash();
            if !(hash == curr.hash) {
                assert(!link_holds(self.chain@, i as int));
                return false;
            }
            i += 1;
        }
        true
    }
}

/// A chain in the state that its own operations make and keep passes
/// `verify_chain`: a new chain does, and so does a chain after any number of
/// admitted transfers and mined blocks.
pub proof fn well_formed_chain_is_intact(ledger: Blockchain)
    requires
        ledger.wf(),
    ensures
        ledger.is_intact(),
{
    assert forall|i: int| 1 <= i < ledger.chain@.len() implies #[trigger] link_holds(
        ledger.chain@,
        i,
    ) by {
        assert(follows(ledger.chain@, i));
        assert(ledger.chain@[i].is_sealed());
    }
}

/// Altering the stored hash of a block is detected: where a chain passes
/// `verify_chain`, the chain that differs from it in the hash of block `i`
/// alone does not. The one block left out is the first block of a chain
/// that has no second: nothing is checked against its hash.
pub proof fn altered_hash_is_detected(before: Blockchain, after: Blockchain, i: int)
    requires
        before.is_intact(),
        0 <= i < before.chain@.len(),
        i >= 1 || before.chain@.len() >= 2,
        after.chain@ == before.chain@.update(i, after.chain@[i]),
        after.chain@[i].same_content(&before.chain@[i]),
        after.chain@[i].nonce == before.chain@[i].nonce,
        after.chain@[i].hash@ != before.chain@[i].hash@,
    ensures
        !after.is_intact(),
{
    if i >= 1 {
        assert(link_holds(before.chain@, i));
        assert(!link_holds(after.chain@, i));
    } else {
        assert(link_holds(before.chain@, 1));
        assert(!link_holds(after.chain@, 1));
    }
}

/// Altering the stored previous hash of a block after the first is
/// detected: where a chain passes `verify_chain`, a chain that differs from
/// it in block `i` alone, and there in the previous hash, does not. The
/// previous hash of the first block is left out: nothing is checked
/// against it.
pub proof fn altered_prev_hash_is_detected(before: Blockchain, after: Blockchain, i: int)
    requires
        before.is_intact(),
        1 <= i < before.chain@.len(),
        after.chain@ == before.chain@.update(i, after.chain@[i]),
        after.chain@[i].prev_hash@ != before.chain@[i].prev_hash@,
    ensures
        !after.is_intact(),
{
    assert(link_holds(before.chain@, i));
    assert(!link_holds(after.chain@, i));
}

/// A chain in the state that its own operations make and keep can always
/// take the next call to mine. Every block of it is sealed with a hash of
/// 64 characters, so no block bears a difficulty above 64, and the chain
/// has at most 315 blocks.
pub proof fn well_formed_chain_can_mine(ledger: Blockchain)
    requires
        ledger.wf(),
    ensures
        ledger.can_mine(),
        ledger.chain@.len() <= 315,
{
    let last = ledger.chain@.len() - 1;
    if last >= 1 {
        assert(follows(ledger.chain@, last));
        sealed_block_has_feasible_difficulty(ledger.chain@[last]);
    }
}

/// The difficulty ramp: in a chain that grew by mining, block `i` after the
/// first was mined at the genesis difficulty plus one for every full ramp
/// interval before it, and the next block is mined at as much for the
/// chain's length. So the first four mined blocks bear the genesis
/// difficulty, and the sixth block of the chain is the first to bear one
/// more.
pub proof fn difficulty_follows_length(ledger: Blockchain, i: int)
    requires
        ledger.wf(),
        1 <= i < ledger.chain@.len(),
    ensures
        ledger.chain@[i].difficulty == GENESIS_DIFFICULTY + i / 5,
        ledger.difficulty == GENESIS_DIFFICULTY + ledger.chain@.len() / 5,
        i <= 4 ==> ledger.chain@[i].difficulty == GENESIS_DIFFICULTY,
        5 <= i <= 9 ==> ledger.chain@[i].difficulty == GENESIS_DIFFICULTY + 1,
{
    assert(follows(ledger.chain@, i));
}

} // verus!
