//! The Internet checksum: the one's complement of the one's complement sum of
//! the big-endian 16-bit words of a byte sequence.

use crate::wire::be16;
use vstd::prelude::*;

verus! {

/// The word at position `index` of `bytes` read as big-endian 16-bit words.
/// A final word that lacks its low byte is padded with zero.
pub open spec fn word_at(bytes: Seq<u8>, index: int) -> nat {
    let high = bytes[2 * index] as nat;
    let low = if 2 * index + 1 < bytes.len() {
        bytes[2 * index + 1] as nat
    } else {
        0
    };
    high * 256 + low
}

/// How many 16-bit words `bytes` spans; an odd trailing byte counts as one.
pub open spec fn word_count(bytes: Seq<u8>) -> nat {
    ((bytes.len() + 1) / 2) as nat
}

/// The sum of the first `count` words of `bytes`.
pub open spec fn partial_word_sum(bytes: Seq<u8>, count: nat) -> nat
    decreases count,
{
    if count == 0 {
        0
    } else {
        partial_word_sum(bytes, (count - 1) as nat) + word_at(bytes, count - 1)
    }
}

/// The sum of all words of `bytes`, as an unbounded number.
pub open spec fn word_sum(bytes: Seq<u8>) -> nat {
    partial_word_sum(bytes, word_count(bytes))
}

/// Folds the carries of `sum` back into its low 16 bits until none is left.
pub open spec fn fold_carries(sum: nat) -> nat
    decreases sum,
{
    if sum < 0x10000 {
        sum
    } else {
        fold_carries(sum / 0x10000 + sum % 0x10000)
    }
}

/// The checksum of `bytes` as a 16-bit number.
pub open spec fn checksum_value(bytes: Seq<u8>) -> nat {
    (0xFFFF - fold_carries(word_sum(bytes))) as nat
}

/// The checksum of `bytes` as it is written on the wire.
pub open spec fn internet_checksum(bytes: Seq<u8>) -> Seq<u8> {
    be16(checksum_value(bytes))
}

/// `bytes` with its checksum written into the two bytes that start at `field`.
pub open spec fn with_checksum(bytes: Seq<u8>, field: int) -> Seq<u8> {
    let sum = internet_checksum(bytes);
    bytes.update(field, sum[0]).update(field + 1, sum[1])
}

/// One's complement addition of a word to a folded sum.
pub open spec fn end_around_add(folded: nat, word: nat) -> nat {
    if folded + word > 0xFFFF {
        (folded + word - 0xFFFF) as nat
    } else {
        folded + word
    }
}

/// Computes the Internet checksum of `bytes` and returns it in network byte
/// order. Every input is accepted: the empty sequence sums to zero, and an
/// odd trailing byte is taken as the high byte of a final word.
pub fn checksum(bytes: &[u8]) -> (sum: [u8; 2])
    ensures
        sum@ == internet_checksum(bytes@),
{
    let len: usize = bytes.len();
    let mut folded: u32 = 0;
    let mut at: usize = 0;
    while len - at >= 2
        invariant
            len == bytes@.len(),
            at <= len,
            at % 2 == 0,
            folded <= 0xFFFF,
            folded == fold_carries(partial_word_sum(bytes@, (at / 2) as nat)),
        decreases len - at,
    {
        let word: u32 = (bytes[at] as u32) * 256 + (bytes[at + 1] as u32);
        proof {
            lemma_fold_carries_add(partial_word_sum(bytes@, (at / 2) as nat), word as nat);
        }
        folded = add_word(folded, word);
        at = at + 2;
    }
    if at < len {
        let word: u32 = (bytes[at] as u32) * 256;
        proof {
            lemma_fold_carries_add(partial_word_sum(bytes@, (at / 2) as nat), word as nat);
        }
        folded = add_word(folded, word);
    }
    let value: u32 = 0xFFFF - folded;
    [(value / 256) as u8, (value % 256) as u8]
}

/// Adds `word` to the folded sum `folded` with end-around carry.
fn add_word(folded: u32, word: u32) -> (sum: u32)
    requires
        folded <= 0xFFFF,
        word <= 0xFFFF,
    ensures
        sum == end_around_add(folded as nat, word as nat),
        sum <= 0xFFFF,
{
    let total: u32 = folded + word;
    if total > 0xFFFF {
        total - 0xFFFF
    } else {
        total
    }
}

/// Folding leaves zero alone and maps every other sum to the representative
/// of its residue modulo `0xFFFF` that lies in `1..=0xFFFF`.
pub proof fn lemma_fold_carries_closed_form(sum: nat)
    ensures
        fold_carries(sum) == if sum == 0 {
            0
        } else {
            (sum - 1) % 0xFFFF + 1
        },
        fold_carries(sum) <= 0xFFFF,
    decreases sum,
{
    if sum >= 0x10000 {
        // One folding step takes away a multiple of 0xFFFF, so the residue
        // stays, and what it leaves is still positive.
        lemma_fold_carries_closed_form(sum / 0x10000 + sum % 0x10000);
    }
}

/// Folding a sum that grew by one word is the end-around addition of that
/// word to the folded sum.
pub proof fn lemma_fold_carries_add(sum: nat, word: nat)
    requires
        word <= 0xFFFF,
    ensures
        fold_carries(sum + word) == end_around_add(fold_carries(sum), word),
{
    lemma_fold_carries_closed_form(sum);
    lemma_fold_carries_closed_form(sum + word);
}

/// A buffer that carries its own checksum in a word-aligned field sums to
/// zero: when the field is blank while the checksum is computed and is then
/// filled with it, the checksum of the filled buffer is `0x0000`.
pub proof fn lemma_checksum_verifies(bytes: Seq<u8>, field: int)
    requires
        0 <= field,
        field % 2 == 0,
        field + 1 < bytes.len(),
        bytes[field] == 0,
        bytes[field + 1] == 0,
    ensures
        checksum_value(with_checksum(bytes, field)) == 0,
        internet_checksum(with_checksum(bytes, field)) == seq![0u8, 0u8],
{
    let before = word_sum(bytes);
    let value = checksum_value(bytes);
    lemma_fold_carries_closed_form(before);
    lemma_partial_word_sum_fill(bytes, field, value, word_count(bytes));
    assert(word_sum(with_checksum(bytes, field)) == before + value);
    lemma_fold_carries_closed_form(before + value);
    assert(fold_carries(before + value) == 0xFFFF);
}

/// A buffer of zero bytes, of any length, has the checksum `0xFFFF`.
pub proof fn lemma_checksum_of_zeros(bytes: Seq<u8>)
    requires
        forall|i: int| 0 <= i < bytes.len() ==> bytes[i] == 0,
    ensures
        checksum_value(bytes) == 0xFFFF,
        internet_checksum(bytes) == seq![0xFFu8, 0xFFu8],
{
    lemma_zero_words_sum_to_zero(bytes, word_count(bytes));
}

/// Replacing a zero word by `value` raises every partial sum that covers
/// that word by `value` and leaves the others as they were.
proof fn lemma_partial_word_sum_fill(bytes: Seq<u8>, field: int, value: nat, count: nat)
    requires
        0 <= field,
        field % 2 == 0,
        field + 1 < bytes.len(),
        bytes[field] == 0,
        bytes[field + 1] == 0,
        value <= 0xFFFF,
        count <= word_count(bytes),
    ensures
        partial_word_sum(
            bytes.update(field, (value / 256) as u8).update(field + 1, (value % 256) as u8),
            count,
        ) == partial_word_sum(bytes, count) + if field / 2 < count {
            value
        } else {
            0
        },
    decreases count,
{
    if count > 0 {
        lemma_partial_word_sum_fill(bytes, field, value, (count - 1) as nat);
    }
}

/// Words made of zero bytes add up to zero.
proof fn lemma_zero_words_sum_to_zero(bytes: Seq<u8>, count: nat)
    requires
        forall|i: int| 0 <= i < bytes.len() ==> bytes[i] == 0,
        count <= word_count(bytes),
    ensures
        partial_word_sum(bytes, count) == 0,
    decreases count,
{
    if count > 0 {
        lemma_zero_words_sum_to_zero(bytes, (count - 1) as nat);
    }
}

} // verus!
