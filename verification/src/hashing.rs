//! SHA-256 digests, their rendering as lowercase hex text, and the
//! leading-zero test that proof of work is measured by.

use sha2::{Digest, Sha256};
use vstd::prelude::*;
use vstd::string::{StrSliceExecFns, StringExecFns};

verus! {

/// The SHA-256 digest of `data`.
pub uninterp spec fn sha256_digest(data: Seq<u8>) -> [u8; 32];

/// Calls `sha2::Sha256::digest`. The contract takes the 32 bytes that it
/// returns to be a function of the input alone, and names that function; of
/// the digest's value nothing else is claimed.
#[verifier::external_body]
fn sha256(data: &[u8]) -> (digest: [u8; 32])
    ensures
        digest == sha256_digest(data@),
{
    Sha256::digest(data).into()
}

/// The lowercase hex digit of a value below sixteen.
pub open spec fn hex_digit(nibble: int) -> char {
    seq![
        '0', '1', '2', '3', '4', '5', '6', '7', '8', '9', 'a', 'b', 'c', 'd', 'e', 'f',
    ][nibble]
}

/// The character at position `k` of the hex text of `bytes`: the high half
/// of byte `k / 2` at even positions, its low half at odd ones.
pub open spec fn hex_char_at(bytes: Seq<u8>, k: int) -> char {
    if k % 2 == 0 {
        hex_digit(bytes[k / 2] as int / 16)
    } else {
        hex_digit(bytes[k / 2] as int % 16)
    }
}

/// The lowercase hex text of `bytes`, two characters for each byte.
pub open spec fn lower_hex(bytes: Seq<u8>) -> Seq<char> {
    Seq::new(2 * bytes.len(), |k: int| hex_char_at(bytes, k))
}

/// The text of one hex digit.
fn hex_digit_text(nibble: u8) -> (text: &'static str)
    requires
        nibble < 16,
    ensures
        text@ == seq![hex_digit(nibble as int)],
{
    let digits: &'static str = "0123456789abcdef";
    proof {
        reveal_strlit("0123456789abcdef");
    }
    let at: usize = nibble as usize;
    digits.substring_ascii(at, at + 1)
}

/// Renders `bytes` as lowercase hex text.
pub fn to_hex(bytes: &[u8]) -> (text: String)
    ensures
        text@ == lower_hex(bytes@),
{
    let mut text = String::new();
    let mut i: usize = 0;
    while i < bytes.len()
        invariant
            i <= bytes@.len(),
            text@.len() == 2 * i,
            forall|k: int| 0 <= k < 2 * i ==> text@[k] == hex_char_at(bytes@, k),
        decreases bytes@.len() - i,
    {
        let byte: u8 = bytes[i];
        let high = hex_digit_text(byte / 16);
        let low = hex_digit_text(byte % 16);
        text.append(high);
        text.append(low);
        i += 1;
    }
    text
}

/// The SHA-256 digest of `data` as lowercase hex text.
pub fn sha256_hex(data: &[u8]) -> (text: String)
    ensures
        text@ == lower_hex(sha256_digest(data@)@),
        text@.len() == 64,
{
    let digest = sha256(data);
    to_hex(digest.as_slice())
}

/// Whether `text` begins with `count` characters `'0'`.
pub open spec fn has_zero_prefix(text: Seq<char>, count: nat) -> bool {
    &&& count <= text.len()
    &&& forall|k: int| 0 <= k < count ==> text[k] == '0'
}

/// Tells whether `hash` begins with at least `difficulty` characters `'0'`.
pub fn meets_difficulty(hash: &str, difficulty: u32) -> (met: bool)
    ensures
        met == has_zero_prefix(hash@, difficulty as nat),
{
    let length = hash.unicode_len();
    let wanted: usize = difficulty as usize;
    if wanted > length {
        return false;
    }
    let mut i: usize = 0;
    while i < wanted
        invariant
            i <= wanted <= length,
            wanted == difficulty,
            length == hash@.len(),
            forall|k: int| 0 <= k < i ==> hash@[k] == '0',
        decreases wanted - i,
    {
        if hash.get_char(i) != '0' {
            return false;
        }
        i += 1;
    }
    true
}

} // verus!
