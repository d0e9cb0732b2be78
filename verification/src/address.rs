//! Byte addresses of the words of an instruction stream.
//!
//! Index 0 of a stream is a sentinel; the word at index `i >= 1` lives at byte
//! address `(i - 1) * 2`.

use vstd::prelude::*;

verus! {

/// A byte address in the instruction stream.
#[derive(Clone, Copy, Debug, PartialEq, Eq, Hash, Structural)]
pub struct Address(pub u64);

/// The byte address of the word at stream index `index`.
pub open spec fn address_of_index(index: int) -> int {
    (index - 1) * 2
}

/// The stream index of the word that holds byte address `address`.
pub open spec fn index_of_address(address: int) -> int {
    address / 2 + 1
}

impl Address {
    /// The address of the word at `index`. Index 0 is the sentinel and has
    /// no address; the address must fit in 64 bits.
    pub fn from_index(index: usize) -> (r: Address)
        requires
            1 <= index,
            address_of_index(index as int) <= u64::MAX,
        ensures
            r.0 == address_of_index(index as int),
    {
        Address((index as u64 - 1) * 2)
    }

    /// The index of the word that holds this address. The two bytes of a
    /// word give the same index.
    pub fn to_index(&self) -> (r: usize)
        requires
            index_of_address(self.0 as int) <= usize::MAX,
        ensures
            r == index_of_address(self.0 as int),
    {
        (self.0 / 2 + 1) as usize
    }

    /// Whether this is the address of a word, that is, even.
    pub open spec fn aligned(self) -> bool {
        self.0 % 2 == 0
    }

    /// This address moved by `delta` bytes, where that is an address again.
    pub fn offset_by(self, delta: i16) -> (r: Option<Address>)
        ensures
            r == if 0 <= self.0 + delta <= u64::MAX {
                Some(Address((self.0 + delta) as u64))
            } else {
                None::<Address>
            },
    {
        if delta >= 0 {
            let up: u64 = delta as u64;
            if self.0 <= u64::MAX - up {
                Some(Address(self.0 + up))
            } else {
                None
            }
        } else {
            let down: u64 = (-(delta as i32)) as u64;
            if down <= self.0 {
                Some(Address(self.0 - down))
            } else {
                None
            }
        }
    }
}

/// Index to address and back is the identity on every index that has an
/// address, and address to index and back is the identity on every aligned
/// address: the two conversions are inverse bijections between the indices
/// from 1 up and the even addresses.
pub proof fn lemma_address_index_bijection(index: int, address: int)
    requires
        1 <= index,
        0 <= address,
        address % 2 == 0,
    ensures
        index_of_address(address_of_index(index)) == index,
        address_of_index(index_of_address(address)) == address,
        address_of_index(index) >= 0,
        address_of_index(index) % 2 == 0,
        index_of_address(address) >= 1,
{
}

/// Distinct indices have distinct addresses, and distinct aligned addresses
/// have distinct indices.
pub proof fn lemma_address_index_injective(i: int, j: int, a: int, b: int)
    requires
        a % 2 == 0,
        b % 2 == 0,
    ensures
        address_of_index(i) == address_of_index(j) ==> i == j,
        index_of_address(a) == index_of_address(b) ==> a == b,
{
}

} // verus!
