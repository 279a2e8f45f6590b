//! The two readings of a machine word: the same bits, signed or unsigned.

use vstd::prelude::*;

verus! {

/// The unsigned value that has the bits of the signed word `word`: the word
/// itself, or, for a negative one, the word plus two to the word size.
pub open spec fn unsigned_of(word: isize) -> usize {
    if word >= 0 {
        word as usize
    } else {
        (word + usize::MAX + 1) as usize
    }
}

/// The signed word that has the bits of `value`: the value itself, or, from
/// the upper half of the range on, the value minus two to the word size.
pub open spec fn signed_of(value: usize) -> isize {
    if value <= isize::MAX {
        value as isize
    } else {
        (value - usize::MAX - 1) as isize
    }
}

/// The two readings of a word are inverse to each other.
pub proof fn lemma_word_round_trip(word: isize, value: usize)
    ensures
        signed_of(unsigned_of(word)) == word,
        unsigned_of(signed_of(value)) == value,
{
}

/// Reads a signed word as an unsigned value, such as an address.
pub fn to_unsigned(word: isize) -> (value: usize)
    ensures
        value == unsigned_of(word),
{
    if word >= 0 {
        word as usize
    } else {
        usize::MAX - ((-(word + 1)) as usize)
    }
}

/// Reads an unsigned value as a signed word.
pub fn to_signed(value: usize) -> (word: isize)
    ensures
        word == signed_of(value),
{
    if value <= isize::MAX as usize {
        value as isize
    } else {
        -((usize::MAX - value) as isize) - 1
    }
}

} // verus!
