//! Byte order on the wire.
//!
//! The processor stores most significant byte first, so that is the order in
//! which the bytes of a half-word or word enter the write-gather pipe.

use vstd::prelude::*;

verus! {

/// The bytes of a half-word, most significant first.
pub open spec fn be16(value: u16) -> Seq<u8> {
    seq![(value >> 8) as u8, (value & 0xff) as u8]
}

/// The bytes of a word, most significant first.
pub open spec fn be32(value: u32) -> Seq<u8> {
    seq![
        (value >> 24) as u8,
        ((value >> 16) & 0xff) as u8,
        ((value >> 8) & 0xff) as u8,
        (value & 0xff) as u8,
    ]
}

/// The bytes of a run of words: word after word, each most significant byte first.
pub open spec fn be32_words(values: Seq<u32>) -> Seq<u8> {
    Seq::new(4 * values.len(), |i: int| be32(values[i / 4])[i % 4])
}

/// `count` zero bytes.
pub open spec fn zeros(count: nat) -> Seq<u8> {
    Seq::new(count, |i: int| 0u8)
}

/// The low half of a word.
pub open spec fn lo16(value: u32) -> u16 {
    (value & 0xffff) as u16
}

/// The high half of a word.
pub open spec fn hi16(value: u32) -> u16 {
    (value >> 16) as u16
}

/// The word with the given halves.
pub open spec fn join16(lo: u16, hi: u16) -> u32 {
    ((hi as u32) << 16) | (lo as u32)
}

/// The half-word that two bytes spell, most significant first.
pub open spec fn from_be16(bytes: Seq<u8>) -> u16 {
    ((bytes[0] as u16) << 8) | (bytes[1] as u16)
}

/// The word that four bytes spell, most significant first.
pub open spec fn from_be32(bytes: Seq<u8>) -> u32 {
    ((bytes[0] as u32) << 24) | ((bytes[1] as u32) << 16) | ((bytes[2] as u32) << 8) | (
    bytes[3] as u32)
}

/// The bytes of a half-word spell that half-word again, so no two half-words
/// share their bytes.
pub proof fn lemma_be16_round_trip(value: u16)
    ensures
        be16(value).len() == 2,
        from_be16(be16(value)) == value,
{
    assert((((value >> 8) as u8) as u16) << 8 | (((value & 0xff) as u8) as u16) == value)
        by (bit_vector);
}

/// The bytes of a word spell that word again, so no two words share their bytes.
pub proof fn lemma_be32_round_trip(value: u32)
    ensures
        be32(value).len() == 4,
        from_be32(be32(value)) == value,
{
    assert(((((value >> 24) as u8) as u32) << 24) | (((((value >> 16) & 0xff) as u8) as u32)
        << 16) | (((((value >> 8) & 0xff) as u8) as u32) << 8) | (((value & 0xff) as u8) as u32)
        == value) by (bit_vector);
}

/// The halves of a word join to that word again, and two halves are the
/// halves of the word they join to.
pub proof fn lemma_halves_rejoin(value: u32, lo: u16, hi: u16)
    ensures
        join16(lo16(value), hi16(value)) == value,
        lo16(join16(lo, hi)) == lo,
        hi16(join16(lo, hi)) == hi,
{
    assert(((((value >> 16) as u16) as u32) << 16) | (((value & 0xffff) as u16) as u32) == value)
        by (bit_vector);
    assert((((((hi as u32) << 16) | (lo as u32)) & 0xffff) as u16) == lo && (((((hi as u32)
        << 16) | (lo as u32)) >> 16) as u16) == hi) by (bit_vector);
}

/// A run of `n` words takes `4 * n` bytes, and the bytes of the word at
/// `index` stand at `4 * index`.
pub proof fn lemma_be32_words_layout(values: Seq<u32>, index: int)
    requires
        0 <= index < values.len(),
    ensures
        be32_words(values).len() == 4 * values.len(),
        be32_words(values).subrange(4 * index, 4 * index + 4) == be32(values[index]),
{
    let all = be32_words(values);
    let part = all.subrange(4 * index, 4 * index + 4);
    assert forall|k: int| 0 <= k < 4 implies part[k] == be32(values[index])[k] by {
        assert(part[k] == all[4 * index + k]);
        assert((4 * index + k) / 4 == index);
        assert((4 * index + k) % 4 == k);
    }
    assert(part =~= be32(values[index]));
}

/// The bytes of a run with one more word are the bytes of the run, then the
/// bytes of that word.
pub proof fn lemma_be32_words_push(values: Seq<u32>, value: u32)
    ensures
        be32_words(values.push(value)) == be32_words(values) + be32(value),
{
    let more = values.push(value);
    let left = be32_words(more);
    let right = be32_words(values) + be32(value);
    assert(left.len() == right.len());
    assert forall|i: int| 0 <= i < left.len() implies left[i] == right[i] by {
        if i < 4 * values.len() {
            assert(i / 4 < values.len());
            assert(more[i / 4] == values[i / 4]);
        } else {
            let k = i - 4 * values.len();
            assert(i / 4 == values.len());
            assert(i % 4 == k);
            assert(more[i / 4] == value);
        }
    }
    assert(left =~= right);
}

} // verus!
