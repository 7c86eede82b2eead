//! The bytes that a buffer of 32-bit words occupies in memory.
//!
//! A device reads vertex attributes and indices as raw memory, so the byte
//! image of a word depends on the byte order of the machine that wrote it.
//! The functions here state that image for either byte order and produce it
//! for the byte order of the running machine.

use vstd::endian::{endianness, Endian};
use vstd::prelude::*;
use vstd::slice::slice_to_vec;

verus! {

/// Byte `k` of the word `w`, counted from the least significant byte.
pub open spec fn word_byte(w: u32, k: int) -> u8 {
    if k == 0 {
        (w % 0x100) as u8
    } else if k == 1 {
        (w / 0x100 % 0x100) as u8
    } else if k == 2 {
        (w / 0x1_0000 % 0x100) as u8
    } else {
        (w / 0x100_0000) as u8
    }
}

/// The byte at position `i` of the memory image of `words`.
pub open spec fn byte_at(endian: Endian, words: Seq<u32>, i: int) -> u8 {
    match endian {
        Endian::Little => word_byte(words[i / 4], i % 4),
        Endian::Big => word_byte(words[i / 4], 3 - i % 4),
    }
}

/// The memory image of `words`: four bytes per word, words in order, the
/// bytes of each word in the order that `endian` gives.
pub open spec fn word_bytes(endian: Endian, words: Seq<u32>) -> Seq<u8> {
    Seq::new(4 * words.len(), |i: int| byte_at(endian, words, i))
}

/// The word that four bytes, least significant first, stand for.
pub open spec fn word_of(b0: u8, b1: u8, b2: u8, b3: u8) -> int {
    b0 + 0x100 * b1 + 0x1_0000 * b2 + 0x100_0000 * b3
}

/// The word stored at index `j` of a memory image.
pub open spec fn word_at(endian: Endian, bytes: Seq<u8>, j: int) -> int {
    match endian {
        Endian::Little => word_of(
            bytes[4 * j],
            bytes[4 * j + 1],
            bytes[4 * j + 2],
            bytes[4 * j + 3],
        ),
        Endian::Big => word_of(
            bytes[4 * j + 3],
            bytes[4 * j + 2],
            bytes[4 * j + 1],
            bytes[4 * j],
        ),
    }
}

/// A word is the sum of its four bytes, each at its place value.
pub proof fn lemma_word_from_bytes(w: u32)
    ensures
        word_of(word_byte(w, 0), word_byte(w, 1), word_byte(w, 2), word_byte(w, 3)) == w,
{
}

/// Reading word `j` back out of a memory image gives the word that was
/// written there, whatever the byte order.
pub proof fn lemma_word_at(endian: Endian, words: Seq<u32>, j: int)
    requires
        0 <= j < words.len(),
    ensures
        word_at(endian, word_bytes(endian, words), j) == words[j],
{
    lemma_word_from_bytes(words[j]);
    let bytes = word_bytes(endian, words);
    assert(bytes[4 * j] == byte_at(endian, words, 4 * j));
    assert(bytes[4 * j + 1] == byte_at(endian, words, 4 * j + 1));
    assert(bytes[4 * j + 2] == byte_at(endian, words, 4 * j + 2));
    assert(bytes[4 * j + 3] == byte_at(endian, words, 4 * j + 3));
}

/// A memory image determines the words it was made from: two sequences of
/// words with the same image, under one byte order, are equal.
pub proof fn lemma_word_bytes_injective(endian: Endian, a: Seq<u32>, b: Seq<u32>)
    requires
        word_bytes(endian, a) == word_bytes(endian, b),
    ensures
        a == b,
{
    assert(word_bytes(endian, a).len() == 4 * a.len());
    assert(word_bytes(endian, b).len() == 4 * b.len());
    assert(a.len() == b.len());
    assert forall|j: int| 0 <= j < a.len() implies a[j] == b[j] by {
        lemma_word_at(endian, a, j);
        lemma_word_at(endian, b, j);
    }
    assert(a =~= b);
}

/// The memory image of a concatenation is the concatenation of the images.
pub proof fn lemma_word_bytes_concat(endian: Endian, a: Seq<u32>, b: Seq<u32>)
    ensures
        word_bytes(endian, a + b) == word_bytes(endian, a) + word_bytes(endian, b),
{
    let whole = word_bytes(endian, a + b);
    let parts = word_bytes(endian, a) + word_bytes(endian, b);
    assert(whole.len() == parts.len());
    assert forall|i: int| 0 <= i < whole.len() implies whole[i] == parts[i] by {
        if i < 4 * a.len() {
            assert((a + b)[i / 4] == a[i / 4]);
        } else {
            let k = i - 4 * a.len();
            assert(k / 4 == i / 4 - a.len());
            assert(k % 4 == i % 4);
            assert((a + b)[i / 4] == b[k / 4]);
            assert(parts[i] == word_bytes(endian, b)[k]);
        }
    }
    assert(whole =~= parts);
}

/// `bytemuck::cast_slice` from 32-bit words to bytes. It hands back the
/// memory of the slice itself, seen as bytes: four bytes for each word, in
/// the byte order of the running machine. A cast to bytes cannot fail, since
/// a byte has no alignment to respect and every length is a whole number of
/// bytes.
#[verifier::external_body]
fn cast_words(words: &[u32]) -> (bytes: &[u8])
    ensures
        bytes@ == word_bytes(endianness(), words@),
{
    bytemuck::cast_slice(words)
}

/// Copies out the memory image of `words` on the running machine.
pub fn words_to_bytes(words: &Vec<u32>) -> (bytes: Vec<u8>)
    ensures
        bytes@ == word_bytes(endianness(), words@),
{
    slice_to_vec(cast_words(words.as_slice()))
}

} // verus!
