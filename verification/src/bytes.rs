//! Buffer contents as bytes.

use vstd::prelude::*;

verus! {

/// Byte `k` of a word, counted from the least significant one.
pub open spec fn byte_of(word: u32, k: int) -> u8 {
    if k == 0 {
        (word as int % 256) as u8
    } else if k == 1 {
        (word as int / 256 % 256) as u8
    } else if k == 2 {
        (word as int / 65536 % 256) as u8
    } else {
        (word as int / 16777216 % 256) as u8
    }
}

/// The bytes of `words` with the least significant byte of each word first.
pub open spec fn little_endian(words: Seq<u32>) -> Seq<u8> {
    Seq::new(4 * words.len(), |i: int| byte_of(words[i / 4], i % 4))
}

/// The bytes of `words` with the most significant byte of each word first.
pub open spec fn big_endian(words: Seq<u32>) -> Seq<u8> {
    Seq::new(4 * words.len(), |i: int| byte_of(words[i / 4], 3 - i % 4))
}

/// `bytes` is `words` as it lies in memory, on a machine of either byte
/// order.
pub open spec fn memory_image(words: Seq<u32>, bytes: Seq<u8>) -> bool {
    bytes == little_endian(words) || bytes == big_endian(words)
}

/// Calls `bytemuck::cast_slice` from `u32` to `u8` and copies what it
/// returns. The cast reads the same memory as bytes: four bytes for each
/// word, in the order of the words, each word in the byte order of the
/// machine. It cannot fail in this direction, as a byte has no alignment
/// and any number of bytes is a whole number of bytes. Not proved: believed
/// of the outside function.
#[verifier::external_body]
fn cast_words(words: &Vec<u32>) -> (bytes: Vec<u8>)
    ensures
        memory_image(words@, bytes@),
{
    bytemuck::cast_slice::<u32, u8>(words.as_slice()).to_vec()
}

/// The words of a buffer as the bytes that are handed to the device: four
/// for each word, word after word.
pub fn buffer_bytes(words: &Vec<u32>) -> (bytes: Vec<u8>)
    ensures
        memory_image(words@, bytes@),
        bytes@.len() == 4 * words@.len(),
{
    cast_words(words)
}

/// Where a word lies among the bytes: word `i` takes the four bytes from
/// `4 * i` on, and they determine it.
pub proof fn lemma_word_position(words: Seq<u32>, bytes: Seq<u8>, i: int)
    requires
        memory_image(words, bytes),
        0 <= i < words.len(),
    ensures
        bytes.len() == 4 * words.len(),
        bytes == little_endian(words) ==> words[i] == bytes[4 * i] + 256 * bytes[4 * i + 1] + 65536
            * bytes[4 * i + 2] + 16777216 * bytes[4 * i + 3],
        bytes == big_endian(words) ==> words[i] == bytes[4 * i + 3] + 256 * bytes[4 * i + 2] + 65536
            * bytes[4 * i + 1] + 16777216 * bytes[4 * i],
{
    let w = words[i];
    assert((4 * i) / 4 == i && (4 * i) % 4 == 0);
    assert((4 * i + 1) / 4 == i && (4 * i + 1) % 4 == 1);
    assert((4 * i + 2) / 4 == i && (4 * i + 2) % 4 == 2);
    assert((4 * i + 3) / 4 == i && (4 * i + 3) % 4 == 3);
    assert(w == byte_of(w, 0) + 256 * byte_of(w, 1) + 65536 * byte_of(w, 2) + 16777216 * byte_of(
        w,
        3,
    ));
}

/// A part of the words lies in the matching part of the bytes: the words
/// from `from` up to `to` are the bytes from `4 * from` up to `4 * to`.
pub proof fn lemma_image_of_part(words: Seq<u32>, bytes: Seq<u8>, from: int, to: int)
    requires
        memory_image(words, bytes),
        0 <= from <= to <= words.len(),
    ensures
        memory_image(words.subrange(from, to), bytes.subrange(4 * from, 4 * to)),
{
    let part = words.subrange(from, to);
    let image = bytes.subrange(4 * from, 4 * to);
    if bytes == little_endian(words) {
        assert(image =~= little_endian(part)) by {
            assert forall|i: int| 0 <= i < image.len() implies image[i] == little_endian(part)[i] by {
                assert((4 * from + i) / 4 == from + i / 4 && (4 * from + i) % 4 == i % 4);
            }
        }
    } else {
        assert(image =~= big_endian(part)) by {
            assert forall|i: int| 0 <= i < image.len() implies image[i] == big_endian(part)[i] by {
                assert((4 * from + i) / 4 == from + i / 4 && (4 * from + i) % 4 == i % 4);
            }
        }
    }
}

} // verus!
