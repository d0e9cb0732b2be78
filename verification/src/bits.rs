//! Bit fields of an instruction word, and the calls into `bitvec` that read them.
//!
//! Bit 0 is the least significant bit of a word.

use bitvec::field::BitField;
use bitvec::order::Lsb0;
use bitvec::view::BitView;
use vstd::prelude::*;

verus! {

/// The `width` bits of `word` that start at bit `lo`, as an unsigned number.
pub open spec fn field(word: u16, lo: u16, width: u16) -> u16 {
    (word >> lo) & !(0xffffu16 << width)
}

/// Whether bit `i` of `word` is set.
pub open spec fn bit(word: u16, i: u16) -> bool {
    (word >> i) & 1 == 1
}

/// The `width` bits of `word` that start at bit `lo`, read as a two's
/// complement number of that width.
pub open spec fn signed_field(word: u16, lo: u16, width: u16) -> int {
    if bit(word, (lo + width - 1) as u16) {
        field(word, lo, width) - (1u16 << width)
    } else {
        field(word, lo, width) as int
    }
}

/// `bitvec`'s `load::<u8>` on the bits `lo..=hi` of `word` in `Lsb0` order.
///
/// Trusted: the window lies in one element, so `load` shifts the element
/// right by `lo` and keeps the `hi - lo + 1` live bits, zero-extended.
/// Indexing panics past bit 15 and `load` panics on more than eight bits;
/// `requires` leaves both out.
#[verifier::external_body]
pub(crate) fn load_bits(word: u16, lo: usize, hi: usize) -> (r: u8)
    requires
        lo <= hi < 16,
        hi - lo < 8,
    ensures
        r == field(word, lo as u16, (hi - lo + 1) as u16),
{
    word.view_bits::<Lsb0>()[lo..=hi].load::<u8>()
}

/// `bitvec`'s `load::<i16>` on the bits `lo..=hi` of `word` in `Lsb0` order.
///
/// Trusted: for a signed target `load` sign-extends from the highest bit of
/// the window. Indexing panics past bit 15; `requires` leaves that out.
#[verifier::external_body]
pub(crate) fn load_signed(word: u16, lo: usize, hi: usize) -> (r: i16)
    requires
        lo <= hi < 15,
    ensures
        r == signed_field(word, lo as u16, (hi - lo + 1) as u16),
{
    word.view_bits::<Lsb0>()[lo..=hi].load::<i16>()
}

/// `bitvec`'s indexing of one bit of `word` in `Lsb0` order.
///
/// Trusted: index `i` of the `Lsb0` view of a single element is bit `i`
/// counted from the least significant end. Indexing panics past bit 15;
/// `requires` leaves that out.
#[verifier::external_body]
pub(crate) fn load_bit(word: u16, i: usize) -> (r: bool)
    requires
        i < 16,
    ensures
        r == bit(word, i as u16),
{
    word.view_bits::<Lsb0>()[i]
}

fn probe(word: u16) {
    let op = load_bits(word, 7, 9);
    assert(field(word, 7, 3) < 8) by (bit_vector);
    assert(op < 8);
    let off = load_signed(word, 0, 9);
    assert(-512 <= signed_field(word, 0, 10) < 512) by (bit_vector);
    assert(-512 <= off < 512);
}

} // verus!
