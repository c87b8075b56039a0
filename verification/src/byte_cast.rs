//! Raw byte views of `u32` words, taken through `bytemuck`.

use vstd::prelude::*;

verus! {

/// The four bytes of word `i` inside a byte buffer that holds consecutive `u32` words.
pub open spec fn word_bytes(bytes: Seq<u8>, i: int) -> Seq<u8> {
    bytes.subrange(4 * i, 4 * i + 4)
}

/// A word's bytes, least significant first.
pub open spec fn le_word(w: u32) -> Seq<u8> {
    seq![(w & 0xff) as u8, ((w >> 8) & 0xff) as u8, ((w >> 16) & 0xff) as u8, ((w >> 24) & 0xff) as u8]
}

/// A word's bytes, most significant first.
pub open spec fn be_word(w: u32) -> Seq<u8> {
    seq![((w >> 24) & 0xff) as u8, ((w >> 16) & 0xff) as u8, ((w >> 8) & 0xff) as u8, (w & 0xff) as u8]
}

/// `bytes` is the in-memory image of `words`: four bytes per word, every word
/// laid out in the same byte order, which is either little-endian or
/// big-endian (the machine's).
pub open spec fn encodes_words(bytes: Seq<u8>, words: Seq<u32>) -> bool {
    &&& bytes.len() == 4 * words.len()
    &&& {
        ||| forall|i: int| 0 <= i < words.len() ==> #[trigger] word_bytes(bytes, i) == le_word(words[i])
        ||| forall|i: int| 0 <= i < words.len() ==> #[trigger] word_bytes(bytes, i) == be_word(words[i])
    }
}

/// Calls `bytemuck::cast_slice::<u32, u8>` and copies the result. The cast
/// reinterprets the words' memory, so the result is each word's four bytes in
/// the machine's byte order, one word after the other; for `u32` to `u8` the cast
/// never fails (the target alignment is 1 and every byte count is a multiple
/// of 1). The contract states this for both byte orders that Rust targets have;
/// which of the two the machine uses is left unsaid.
#[verifier::external_body]
pub(crate) fn cast_words_to_bytes(words: &[u32]) -> (bytes: Vec<u8>)
    ensures
        encodes_words(bytes@, words@),
{
    bytemuck::cast_slice::<u32, u8>(words).to_vec()
}

/// Different words have different byte images in either byte order.
pub proof fn lemma_word_images_injective(a: u32, b: u32)
    ensures
        le_word(a) == le_word(b) ==> a == b,
        be_word(a) == be_word(b) ==> a == b,
{
    if le_word(a) == le_word(b) || be_word(a) == be_word(b) {
        assert(le_word(a)[0] == le_word(b)[0] || be_word(a)[3] == be_word(b)[3]);
        assert(((a & 0xff) as u8 == (b & 0xff) as u8 && ((a >> 8) & 0xff) as u8 == ((b >> 8) & 0xff) as u8
            && ((a >> 16) & 0xff) as u8 == ((b >> 16) & 0xff) as u8 && ((a >> 24) & 0xff) as u8 == ((b
            >> 24) & 0xff) as u8) ==> a == b) by (bit_vector);
        if le_word(a) == le_word(b) {
            assert(le_word(a)[1] == le_word(b)[1]);
            assert(le_word(a)[2] == le_word(b)[2]);
            assert(le_word(a)[3] == le_word(b)[3]);
        } else {
            assert(be_word(a)[0] == be_word(b)[0]);
            assert(be_word(a)[1] == be_word(b)[1]);
            assert(be_word(a)[2] == be_word(b)[2]);
        }
    }
}

/// In an encoded buffer two words have the same bytes exactly when they are equal.
pub proof fn lemma_encoded_words_distinct(bytes: Seq<u8>, words: Seq<u32>, i: int, j: int)
    requires
        encodes_words(bytes, words),
        0 <= i < words.len(),
        0 <= j < words.len(),
    ensures
        words[i] == words[j] <==> word_bytes(bytes, i) == word_bytes(bytes, j),
{
    lemma_word_images_injective(words[i], words[j]);
}

/// The zero word is four zero bytes in either byte order.
pub proof fn lemma_zero_word_bytes()
    ensures
        le_word(0) == seq![0u8, 0u8, 0u8, 0u8],
        be_word(0) == seq![0u8, 0u8, 0u8, 0u8],
{
    let z: u32 = 0;
    assert((z & 0xff) as u8 == 0 && ((z >> 8) & 0xff) as u8 == 0 && ((z >> 16) & 0xff) as u8 == 0
        && ((z >> 24) & 0xff) as u8 == 0) by (bit_vector)
        requires
            z == 0,
    ;
    assert(le_word(0) =~= seq![0u8, 0u8, 0u8, 0u8]);
    assert(be_word(0) =~= seq![0u8, 0u8, 0u8, 0u8]);
}

} // verus!
