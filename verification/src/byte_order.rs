//! Byte order of 16-bit words: how a word lies in memory, and in which order
//! its two bytes go out on a bus.

use vstd::endian::{endianness, Endian};
use vstd::prelude::*;

verus! {

/// The more significant byte of `word`.
pub open spec fn high_byte(word: u16) -> u8 {
    (word / 256) as u8
}

/// The less significant byte of `word`.
pub open spec fn low_byte(word: u16) -> u8 {
    (word % 256) as u8
}

/// `word` with its two bytes exchanged.
pub open spec fn swap_bytes(word: u16) -> u16 {
    (low_byte(word) * 256 + high_byte(word)) as u16
}

/// The two bytes of `word`, first to last, in the given byte order.
pub open spec fn bytes_in(order: Endian, word: u16) -> Seq<u8> {
    match order {
        Endian::Big => seq![high_byte(word), low_byte(word)],
        Endian::Little => seq![low_byte(word), high_byte(word)],
    }
}

/// The word that lies in this machine's memory as `word` is written in the
/// given byte order: `word` itself where the machine has that order, and
/// `word` with its bytes exchanged where it has the other.
pub open spec fn to_order(order: Endian, word: u16) -> u16 {
    if order == endianness() {
        word
    } else {
        swap_bytes(word)
    }
}

/// Every word of `words` with its bytes exchanged.
pub open spec fn swapped(words: Seq<u16>) -> Seq<u16> {
    Seq::new(words.len(), |i: int| swap_bytes(words[i]))
}

/// Every word of `words` converted with [`to_order`].
pub open spec fn words_in(order: Endian, words: Seq<u16>) -> Seq<u16> {
    Seq::new(words.len(), |i: int| to_order(order, words[i]))
}

/// The bytes of `words`, word after word, each in the given byte order.
pub open spec fn stream(order: Endian, words: Seq<u16>) -> Seq<u8> {
    Seq::new(2 * words.len(), |i: int| bytes_in(order, words[i / 2])[i % 2])
}

/// `u16::to_be` returns its argument on a big-endian machine and the argument
/// with its bytes exchanged on a little-endian one. The machine meant is the
/// one that runs the code, whose byte order `vstd` calls `endianness()`.
pub assume_specification[ u16::to_be ](word: u16) -> (converted: u16)
    ensures
        converted == to_order(Endian::Big, word),
;

/// `u16::to_le` returns its argument on a little-endian machine and the
/// argument with its bytes exchanged on a big-endian one. The machine meant
/// is the one that runs the code, whose byte order `vstd` calls
/// `endianness()`.
pub assume_specification[ u16::to_le ](word: u16) -> (converted: u16)
    ensures
        converted == to_order(Endian::Little, word),
;

/// The bytes of `word` as they lie in this machine's memory.
///
/// Calls `u16::to_ne_bytes`, which returns the two bytes of its argument in
/// the byte order of the machine that runs the code: the more significant
/// byte first on a big-endian machine, the less significant one first on a
/// little-endian machine.
#[verifier::external_body]
pub(crate) fn memory_bytes(word: u16) -> (bytes: [u8; 2])
    ensures
        bytes@ == bytes_in(endianness(), word),
{
    word.to_ne_bytes()
}

/// A word converted to a byte order lies in memory as the word was before
/// the conversion, written in that order.
pub proof fn lemma_converted_word_in_memory(order: Endian, word: u16)
    ensures
        bytes_in(endianness(), to_order(order, word)) == bytes_in(order, word),
{
    assert(high_byte(swap_bytes(word)) == low_byte(word));
    assert(low_byte(swap_bytes(word)) == high_byte(word));
}

/// A buffer converted to a byte order lies in memory as the bytes that go
/// out in that order for the buffer as it was before the conversion.
pub proof fn lemma_converted_words_in_memory(order: Endian, words: Seq<u16>)
    ensures
        stream(endianness(), words_in(order, words)) == stream(order, words),
{
    assert forall|i: int| 0 <= i < 2 * words.len() implies
        #[trigger] stream(endianness(), words_in(order, words))[i] == stream(order, words)[i] by {
        lemma_converted_word_in_memory(order, words[i / 2]);
    }
    assert(stream(endianness(), words_in(order, words)) =~= stream(order, words));
}

/// Conversion to the machine's own byte order changes nothing; conversion to
/// the other one exchanges the bytes of every word.
pub proof fn lemma_conversion_keeps_or_swaps(order: Endian, words: Seq<u16>)
    ensures
        order == endianness() ==> words_in(order, words) == words,
        order != endianness() ==> words_in(order, words) == swapped(words),
{
    if order == endianness() {
        assert(words_in(order, words) =~= words);
    } else {
        assert(words_in(order, words) =~= swapped(words));
    }
}

} // verus!
