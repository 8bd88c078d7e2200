//! Record addresses.
use vstd::prelude::*;

verus! {

/// The 32-byte address of a record.
#[derive(Clone, Copy, Debug, Default, PartialEq, Eq)]
pub struct Pubkey {
    pub bytes: [u8; 32],
}

/// The all-zero address.
pub open spec fn zero_key() -> Pubkey {
    Pubkey { bytes: vstd::array::spec_array_fill_for_copy_type::<u8, 32>(0u8) }
}

impl Pubkey {
    pub fn new(bytes: [u8; 32]) -> (r: Pubkey)
        ensures
            r.bytes@ == bytes@,
    {
        Pubkey { bytes }
    }

    /// The all-zero address.
    pub fn zero() -> (r: Pubkey)
        ensures
            r == zero_key(),
    {
        Pubkey { bytes: [0u8; 32] }
    }

    /// Whether two addresses are the same.
    pub fn same_as(&self, other: &Pubkey) -> (r: bool)
        ensures
            r == (self.bytes@ == other.bytes@),
    {
        let mut i: usize = 0;
        while i < 32
            invariant
                i <= 32,
                forall|j: int| 0 <= j < i ==> self.bytes@[j] == other.bytes@[j],
            decreases 32 - i,
        {
            if self.bytes[i] != other.bytes[i] {
                return false;
            }
            i = i + 1;
        }
        assert(self.bytes@ =~= other.bytes@);
        true
    }
}

} // verus!
