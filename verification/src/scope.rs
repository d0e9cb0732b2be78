//! The word stream and the cursor that reads it.
//!
//! Index 0 of the stream is a sentinel: instructions start at index 1. The
//! cursor remembers where the instruction under it starts and which words
//! it has consumed since.

use crate::address::{address_of_index, index_of_address, Address};
use crate::instruction::{Offset, Word};
use vstd::prelude::*;

verus! {

/// Why a binary could not be loaded, or an instruction not be decoded.
#[derive(Clone, Copy, Debug, PartialEq, Eq, Structural)]
pub enum DecodeError {
    /// An extension word is needed and the stream has ended.
    Truncated,
    /// The input has an odd number of bytes.
    OddLength,
}

/// The word that two bytes make, the low byte first.
pub open spec fn word_of_bytes(low: u8, high: u8) -> Word {
    Word((low + 256 * high) as u16)
}

/// Whether `words` is the stream of `bytes`: the sentinel, then one word
/// for every two bytes.
pub open spec fn is_stream_of(words: Seq<Word>, bytes: Seq<u8>) -> bool {
    &&& 2 * (words.len() - 1) == bytes.len()
    &&& words[0] == Word(0)
    &&& forall|i: int|
        1 <= i < words.len() ==> #[trigger] words[i] == word_of_bytes(
            bytes[2 * (i - 1)],
            bytes[2 * (i - 1) + 1],
        )
}

/// Makes the word stream of a little-endian binary: a sentinel at index 0,
/// then the words. An odd number of bytes is refused.
pub fn words_from_bytes(bytes: &[u8]) -> (r: Result<Vec<Word>, DecodeError>)
    ensures
        match r {
            Ok(words) => bytes@.len() % 2 == 0 && is_stream_of(words@, bytes@),
            Err(e) => bytes@.len() % 2 == 1 && e == DecodeError::OddLength,
        },
{
    if bytes.len() % 2 != 0 {
        return Err(DecodeError::OddLength);
    }
    let mut words: Vec<Word> = Vec::new();
    words.push(Word(0));
    let mut at: usize = 0;
    while at < bytes.len()
        invariant
            at % 2 == 0,
            at <= bytes@.len(),
            bytes@.len() % 2 == 0,
            is_stream_of(words@, bytes@.subrange(0, at as int)),
        decreases bytes@.len() - at,
    {
        let ghost before = words@;
        let low: u16 = bytes[at] as u16;
        let high: u16 = bytes[at + 1] as u16;
        words.push(Word(low + 256 * high));
        at += 2;
        proof {
            assert forall|i: int| 1 <= i < words@.len() implies #[trigger] words@[i]
                == word_of_bytes(
                bytes@.subrange(0, at as int)[2 * (i - 1)],
                bytes@.subrange(0, at as int)[2 * (i - 1) + 1],
            ) by {
                if i < before.len() {
                    assert(words@[i] == before[i]);
                    assert(bytes@.subrange(0, at - 2)[2 * (i - 1)] == bytes@[2 * (i - 1)]);
                    assert(bytes@.subrange(0, at - 2)[2 * (i - 1) + 1] == bytes@[2 * (i - 1) + 1]);
                }
            }
        }
    }
    proof {
        assert(bytes@.subrange(0, at as int) =~= bytes@);
    }
    Ok(words)
}

/// The words consumed for the instruction under the cursor, in stream order.
#[derive(Clone, Debug)]
pub struct UsedWords(pub Vec<Word>);

impl View for UsedWords {
    type V = Seq<Word>;

    open spec fn view(&self) -> Seq<Word> {
        self.0@
    }
}

/// What a cursor stands for: the stream, the index at which the instruction
/// under it starts, and the index of the last word consumed. A cursor that
/// has not moved yet has both indices at the sentinel, 0.
pub struct ScopeModel {
    pub words: Seq<Word>,
    pub start: int,
    pub index: int,
}

/// A cursor over a word stream.
pub struct CurrentBinaryScope<'w> {
    /// The words consumed for the current instruction.
    pub used_words: UsedWords,
    /// The address at which the current instruction starts.
    pub address: Address,
    /// The index of the last word consumed.
    pub index: usize,
    /// The first word of the current instruction.
    pub current_word: Word,
    /// The word after it, or zero at the end of the stream.
    pub next_word: Word,
    /// The stream.
    pub vec: &'w Vec<Word>,
}

/// The word at index `i` of `words`, or zero where there is none.
pub open spec fn word_or_zero(words: Seq<Word>, i: int) -> Word {
    if 0 <= i < words.len() {
        words[i]
    } else {
        Word(0)
    }
}

impl<'w> View for CurrentBinaryScope<'w> {
    type V = ScopeModel;

    open spec fn view(&self) -> ScopeModel {
        ScopeModel {
            words: self.vec@,
            start: if self.index == 0 {
                0
            } else {
                index_of_address(self.address.0 as int)
            },
            index: self.index as int,
        }
    }
}

impl ScopeModel {
    /// The model of a cursor on the first word of the instruction at `i`.
    pub open spec fn at(words: Seq<Word>, i: int) -> ScopeModel {
        ScopeModel { words, start: i, index: i }
    }

    /// This model after `n` more words have been consumed.
    pub open spec fn fetched(self, n: int) -> ScopeModel {
        ScopeModel { index: self.index + n, ..self }
    }

    /// How many words follow the last one consumed.
    pub open spec fn remaining(self) -> int {
        self.words.len() - 1 - self.index
    }
}

impl<'w> CurrentBinaryScope<'w> {
    /// The cursor has not moved yet: it sits on the sentinel.
    pub open spec fn fresh(&self) -> bool {
        &&& self.index == 0
        &&& self.address.0 == 0
        &&& self.used_words@.len() == 0
        &&& self.current_word == Word(0)
        &&& self.next_word == Word(0)
    }

    /// The cursor is inside an instruction: its fields agree with the
    /// stream, the start of the instruction and the last word consumed.
    pub open spec fn positioned(&self) -> bool {
        &&& self.address.aligned()
        &&& 1 <= self@.start <= self.index < self.vec@.len()
        &&& self.used_words@ == self.vec@.subrange(self@.start, self.index + 1)
        &&& self.current_word == self.vec@[self@.start]
        &&& self.next_word == word_or_zero(self.vec@, self@.start + 1)
    }

    /// The invariant of a cursor. The address behind the last word of the
    /// stream fits in 64 bits.
    pub open spec fn wf(&self) -> bool {
        &&& address_of_index(self.vec@.len() as int) <= u64::MAX
        &&& (self.fresh() || self.positioned())
    }

    /// A cursor on the sentinel of `binary_vec`. The stream must be short
    /// enough for the address behind its last word to fit in 64 bits.
    pub fn new(binary_vec: &'w Vec<Word>) -> (r: CurrentBinaryScope<'w>)
        requires
            address_of_index(binary_vec@.len() as int) <= u64::MAX,
        ensures
            r.wf(),
            r.fresh(),
            r.vec == binary_vec,
            r@ == ScopeModel::at(binary_vec@, 0),
    {
        CurrentBinaryScope {
            used_words: UsedWords(Vec::new()),
            address: Address(0),
            index: 0,
            current_word: Word(0),
            next_word: Word(0),
            vec: binary_vec,
        }
    }

    /// Moves to the next word and starts a new instruction there: the
    /// record of consumed words is cleared and then holds that word.
    /// Returns `false`, and changes nothing, at the end of the stream.
    pub fn step(&mut self) -> (r: bool)
        requires
            old(self).wf(),
        ensures
            final(self).wf(),
            final(self).vec == old(self).vec,
            r == (old(self)@.remaining() >= 1),
            r ==> final(self)@ == ScopeModel::at(old(self)@.words, old(self).index + 1),
            !r ==> *final(self) == *old(self),
    {
        let len = self.vec.len();
        if self.index + 1 < len {
            self.used_words.0.clear();
            self.index += 1;
            self.update();
            proof {
                assert(self.used_words@ =~= self.vec@.subrange(
                    self.index as int,
                    self.index + 1,
                ));
            }
            true
        } else {
            false
        }
    }

    /// Consumes the next word as an extension word of the current
    /// instruction and returns it. Fails, and changes nothing, at the end
    /// of the stream.
    pub fn get_next(&mut self) -> (r: Result<Word, DecodeError>)
        requires
            old(self).wf(),
            old(self).positioned(),
        ensures
            final(self).wf(),
            final(self).positioned(),
            final(self).vec == old(self).vec,
            match r {
                Ok(word) => {
                    &&& old(self)@.remaining() >= 1
                    &&& word == old(self)@.words[old(self).index + 1]
                    &&& final(self)@ == old(self)@.fetched(1)
                },
                Err(e) => {
                    &&& e == DecodeError::Truncated
                    &&& old(self)@.remaining() < 1
                    &&& *final(self) == *old(self)
                },
            },
    {
        let len = self.vec.len();
        if self.index + 1 < len {
            self.index += 1;
            let word = self.vec[self.index];
            self.used_words.0.push(word);
            proof {
                assert(self.used_words@ =~= self.vec@.subrange(self@.start, self.index + 1));
            }
            Ok(word)
        } else {
            Err(DecodeError::Truncated)
        }
    }

    /// Recomputes the address and the current and next word from the
    /// index, and records the word under the cursor as consumed.
    pub fn update(&mut self)
        requires
            1 <= old(self).index < old(self).vec@.len(),
            address_of_index(old(self).vec@.len() as int) <= u64::MAX,
        ensures
            final(self).vec == old(self).vec,
            final(self).index == old(self).index,
            final(self).address.0 == address_of_index(old(self).index as int),
            final(self).current_word == old(self).vec@[old(self).index as int],
            final(self).next_word == word_or_zero(old(self).vec@, old(self).index + 1),
            final(self).used_words@ == old(self).used_words@.push(
                old(self).vec@[old(self).index as int],
            ),
    {
        self.address = Address::from_index(self.index);
        self.current_word = self.vec[self.index];
        let len = self.vec.len();
        self.next_word = if self.index + 1 < len {
            self.vec[self.index + 1]
        } else {
            Word(0)
        };
        self.used_words.0.push(self.vec[self.index]);
    }

    /// Moves to the word that holds `address` and starts a new instruction
    /// there. Returns `false`, and changes nothing, where the stream has no
    /// such word.
    pub fn jump_to_absolute(&mut self, address: Address) -> (r: bool)
        requires
            old(self).wf(),
        ensures
            final(self).wf(),
            final(self).vec == old(self).vec,
            r == (index_of_address(address.0 as int) < old(self)@.words.len()),
            r ==> final(self)@ == ScopeModel::at(
                old(self)@.words,
                index_of_address(address.0 as int),
            ),
            !r ==> *final(self) == *old(self),
    {
        let target: u64 = address.0 / 2 + 1;
        if target < self.vec.len() as u64 {
            self.used_words.0.clear();
            self.index = target as usize;
            self.update();
            proof {
                assert(self.used_words@ =~= self.vec@.subrange(
                    self.index as int,
                    self.index + 1,
                ));
            }
            true
        } else {
            false
        }
    }

    /// The address that lies `offset` bytes from the last word consumed.
    pub open spec fn offset_target(&self, offset: Offset) -> int {
        address_of_index(self.index as int) + offset.0
    }

    /// Moves by `offset` bytes from the last word consumed and starts a new
    /// instruction there. Returns `false`, and changes nothing, where the
    /// target lies outside the stream.
    pub fn jump_to_offset(&mut self, offset: Offset) -> (r: bool)
        requires
            old(self).wf(),
            old(self).positioned(),
        ensures
            final(self).wf(),
            final(self).vec == old(self).vec,
            r == (0 <= old(self).offset_target(offset) && index_of_address(
                old(self).offset_target(offset),
            ) < old(self)@.words.len()),
            r ==> final(self)@ == ScopeModel::at(
                old(self)@.words,
                index_of_address(old(self).offset_target(offset)),
            ),
            !r ==> *final(self) == *old(self),
    {
        match Address::from_index(self.index).offset_by(offset.0) {
            Some(target) => self.jump_to_absolute(target),
            None => false,
        }
    }
}

} // verus!
