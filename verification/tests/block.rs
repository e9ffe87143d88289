use ed25519_dalek::SigningKey;
use std::time::{SystemTime, UNIX_EPOCH};
use toy_chain_mempool_sig::{
    meets_difficulty, sha256_hex, Block, MiningExhausted, SerializablePublicKey,
    SerializableSignature, Transaction,
};

fn transfer(amount: u64) -> Transaction {
    let recipient = SigningKey::from_bytes(&[9u8; 32]).verifying_key().to_bytes();
    Transaction::new(&[7u8; 32], &recipient, amount)
}

fn plain_transfer() -> Transaction {
    Transaction {
        sender: SerializablePublicKey(String::from("alice")),
        recipient: SerializablePublicKey(String::from("bob")),
        amount: 5,
        signature: SerializableSignature(String::from("sig")),
    }
}

fn unmined(index: u64, timestamp: i64, prev_hash: &str, nonce: u64, difficulty: u32) -> Block {
    let mut block = Block::candidate(index, timestamp, vec![], String::from(prev_hash), difficulty);
    block.nonce = nonce;
    block
}

#[test]
fn candidate_is_not_mined_yet() {
    let block = Block::candidate(4, 99, vec![plain_transfer()], String::from("prev"), 3);
    assert_eq!(block.index, 4);
    assert_eq!(block.timestamp, 99);
    assert_eq!(block.transactions, vec![plain_transfer()]);
    assert_eq!(block.prev_hash, "prev");
    assert_eq!(block.nonce, 0);
    assert_eq!(block.hash, "");
    assert_eq!(block.difficulty, 3);
}

#[test]
fn hash_is_sha256_of_the_json_array_of_the_fields() {
    let mut block = Block::candidate(1, 1700000000, vec![plain_transfer()], String::from("prev"), 2);
    block.nonce = 7;
    assert_eq!(
        block.calculate_hash(),
        sha256_hex(b"[1,1700000000,[[\"alice\",\"bob\",5,\"sig\"]],\"prev\",7]")
    );
    assert_eq!(
        block.calculate_hash(),
        "088876c5d320ccf1acf14ef38201ad028b4261626bbffda946bbaa8ff9a40d53"
    );
}

#[test]
fn hash_of_a_block_with_a_signed_transfer() {
    let mut block = Block::candidate(1, 1700000000, vec![transfer(50)], String::from("prev"), 2);
    block.nonce = 7;
    assert_eq!(
        block.calculate_hash(),
        "a317866a2b5e87575bd2a2fa91109fc44dbdd35c1c28c649e94ccbfd6df7c72a"
    );
}

#[test]
fn hash_of_edge_values() {
    let block = unmined(5, -3, "", 0, 0);
    assert_eq!(
        block.calculate_hash(),
        "58bb485bc984881ccd1a0a51228cce451d1156be8ca38f90feaf44d9cb17948a"
    );
    let block = unmined(2, 10, "é\"x", 1, 0);
    assert_eq!(
        block.calculate_hash(),
        "9069c017c7b10f55830999556fbfcd552dd37928f2a7cd80fce0b30652a0cafa"
    );
}

#[test]
fn hash_ignores_the_stored_hash_and_the_difficulty() {
    let mut block = unmined(3, 42, "abc", 11, 2);
    let first = block.calculate_hash();
    block.hash = String::from("something else");
    block.difficulty = 9;
    assert_eq!(block.calculate_hash(), first);
}

#[test]
fn hash_is_the_same_on_every_call() {
    let block = Block::new_at(3, 42, vec![plain_transfer()], String::from("abc"), 2).unwrap();
    let first = block.calculate_hash();
    assert_eq!(block.calculate_hash(), first);
    assert_eq!(block.calculate_hash(), first);
    assert_eq!(block.hash, first);
}

#[test]
fn hash_changes_with_each_hashed_field() {
    let base = Block::candidate(1, 2, vec![plain_transfer()], String::from("p"), 0);
    let hash = base.calculate_hash();

    let mut other = base.clone();
    other.index = 2;
    assert_ne!(other.calculate_hash(), hash);

    let mut other = base.clone();
    other.timestamp = 3;
    assert_ne!(other.calculate_hash(), hash);

    let mut other = base.clone();
    other.transactions[0].amount = 6;
    assert_ne!(other.calculate_hash(), hash);

    let mut other = base.clone();
    other.transactions.clear();
    assert_ne!(other.calculate_hash(), hash);

    let mut other = base.clone();
    other.prev_hash = String::from("q");
    assert_ne!(other.calculate_hash(), hash);

    let mut other = base.clone();
    other.nonce = 1;
    assert_ne!(other.calculate_hash(), hash);
}

#[test]
fn mining_finds_the_first_nonce_that_seals() {
    let genesis = Block::new_at(0, 0, vec![], String::from("0"), 2).unwrap();
    assert_eq!(genesis.nonce, 275);
    assert_eq!(genesis.hash, "003f72edbea8d608b7fa233dc1c10ef93f74ff8d2baaa28d676434d4ce411014");

    let harder = Block::new_at(0, 0, vec![], String::from("0"), 3).unwrap();
    assert_eq!(harder.nonce, 10397);
    assert_eq!(harder.hash, "000bef0aaee3c2dbf5085c6f06b8776be1153a7dabf563bc31e0a2b02b4c026a");

    let block = Block::new_at(3, 42, vec![plain_transfer()], String::from("abc"), 3).unwrap();
    assert_eq!(block.nonce, 12346);
    assert_eq!(block.hash, "0008ec8f9f830502fe84e6715f84bc0a0c68ba9c02c2e23a48c47d75c89a2f83");
}

#[test]
fn mining_keeps_the_content() {
    let block = Block::new_at(3, 42, vec![plain_transfer()], String::from("abc"), 2).unwrap();
    assert_eq!(block.index, 3);
    assert_eq!(block.timestamp, 42);
    assert_eq!(block.transactions, vec![plain_transfer()]);
    assert_eq!(block.prev_hash, "abc");
    assert_eq!(block.difficulty, 2);
}

#[test]
fn mining_at_difficulty_zero_takes_the_first_nonce() {
    let block = Block::new_at(0, 0, vec![], String::from("0"), 0).unwrap();
    assert_eq!(block.nonce, 0);
    assert_eq!(block.hash, "af9b95e311f6657ec550efdc37d47295b6de2cba3721ca2281c883da3342a458");
}

#[test]
fn mining_goes_on_from_the_stored_nonce() {
    let mut block = unmined(0, 0, "0", 276, 2);
    assert_eq!(block.mine(), Ok(()));
    assert!(block.nonce > 275);
    assert!(block.hash.starts_with("00"));
    assert_eq!(block.hash, block.calculate_hash());
    for nonce in 276..block.nonce {
        let skipped = unmined(0, 0, "0", nonce, 2);
        assert!(!skipped.calculate_hash().starts_with("00"));
    }
}

#[test]
fn mining_a_sealed_block_changes_nothing() {
    let mut block = Block::new_at(0, 0, vec![], String::from("0"), 2).unwrap();
    let sealed = block.clone();
    assert_eq!(block.mine(), Ok(()));
    assert_eq!(block, sealed);
}

#[test]
fn mined_block_is_sealed() {
    for difficulty in 0..4u32 {
        let block = Block::new_at(1, 1234, vec![transfer(3)], String::from("00ff"), difficulty).unwrap();
        assert_eq!(block.hash, block.calculate_hash());
        assert_eq!(block.hash.len(), 64);
        assert!(meets_difficulty(&block.hash, difficulty));
        assert!(block.hash.starts_with(&"0".repeat(difficulty as usize)));
    }
}

#[test]
fn mining_near_the_end_of_the_nonce_space_still_finds_a_seal() {
    let mut block = unmined(9, 1, "p", u64::MAX - 20, 1);
    assert_eq!(block.mine(), Ok(()));
    assert_eq!(block.nonce, u64::MAX - 15);
    assert_eq!(block.hash, "04a1f61870e9a793ddac0c7f5020a8edd30231be8d80951c7d70fba324649a4e");
}

#[test]
fn mining_gives_up_when_the_nonces_run_out() {
    let mut block = unmined(9, 1, "p", u64::MAX - 14, 1);
    assert_eq!(block.mine(), Err(MiningExhausted));
    assert_eq!(block.nonce, u64::MAX);
    assert_eq!(block.hash, block.calculate_hash());
    assert!(!block.hash.starts_with('0'));
    assert_eq!(block.index, 9);
    assert_eq!(block.timestamp, 1);
    assert_eq!(block.prev_hash, "p");
    assert_eq!(block.difficulty, 1);
}

#[test]
fn a_difficulty_beyond_the_hash_length_is_refused_at_once() {
    let mut block = unmined(0, 0, "0", 0, 65);
    let before = block.clone();
    assert_eq!(block.mine(), Err(MiningExhausted));
    assert_eq!(block, before);
    assert_eq!(block.nonce, 0);
    assert_eq!(block.hash, "");

    assert_eq!(Block::new_at(0, 0, vec![], String::from("0"), 65), Err(MiningExhausted));
    assert_eq!(Block::new(0, vec![], String::from("0"), u32::MAX), Err(MiningExhausted));
}

#[test]
fn a_difficulty_of_the_hash_length_is_searched_for() {
    let mut block = unmined(0, 0, "0", u64::MAX - 3, 64);
    assert_eq!(block.mine(), Err(MiningExhausted));
    assert_eq!(block.nonce, u64::MAX);
    assert_eq!(block.hash, block.calculate_hash());
}

#[test]
fn new_takes_a_fresh_reading_of_the_clock_each_time() {
    let first = Block::new(0, vec![], String::from("0"), 0).unwrap();
    let second = Block::new(0, vec![], String::from("0"), 0).unwrap();
    assert!(first.timestamp <= second.timestamp);
    assert!(second.timestamp - first.timestamp < 60);
}

#[test]
fn new_stamps_the_block_with_the_current_time() {
    let before = SystemTime::now().duration_since(UNIX_EPOCH).unwrap().as_secs() as i64;
    let block = Block::new(2, vec![plain_transfer()], String::from("prev"), 1).unwrap();
    let after = SystemTime::now().duration_since(UNIX_EPOCH).unwrap().as_secs() as i64;
    assert!(before <= block.timestamp && block.timestamp <= after);
    assert_eq!(block.index, 2);
    assert_eq!(block.transactions, vec![plain_transfer()]);
    assert_eq!(block.prev_hash, "prev");
    assert_eq!(block.difficulty, 1);
    assert_eq!(block.hash, block.calculate_hash());
    assert!(block.hash.starts_with('0'));
    let same = Block::new_at(2, block.timestamp, vec![plain_transfer()], String::from("prev"), 1);
    assert_eq!(same, Ok(block));
}

#[test]
fn a_block_that_cannot_be_sealed_keeps_its_transfers() {
    let mut block = Block::candidate(2, 5, vec![transfer(1), transfer(2)], String::from("00"), 64);
    block.nonce = u64::MAX - 2;
    assert_eq!(block.mine(), Err(MiningExhausted));
    assert_eq!(block.transactions, vec![transfer(1), transfer(2)]);
}
