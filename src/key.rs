use vstd::prelude::*;
use vstd::array::array_as_slice;
use crate::codec::{append_bytes, bytes_equal};

verus! {

/// A 32-byte account address (an ed25519 public key or a program derived address).
pub struct Pubkey {
    pub bytes: [u8; 32],
}

impl View for Pubkey {
    type V = Seq<u8>;

    open spec fn view(&self) -> Seq<u8> {
        self.bytes@
    }
}

impl Pubkey {
    /// The all-zero address, the default value of a key field.
    pub fn zeroed() -> (r: Pubkey)
        ensures
            r@ == Seq::new(32, |_i: int| 0u8),
    {
        let r = Pubkey { bytes: [0u8; 32] };
        assert(r@ =~= Seq::new(32, |_i: int| 0u8));
        r
    }

    pub fn new_from_array(bytes: [u8; 32]) -> (r: Pubkey)
        ensures
            r@ == bytes@,
    {
        Pubkey { bytes }
    }

    pub fn to_bytes(&self) -> (r: [u8; 32])
        ensures
            r@ == self@,
    {
        self.bytes
    }

    /// The address as a byte vector, as it appears in a seed.
    pub fn to_vec(&self) -> (r: Vec<u8>)
        ensures
            r@ == self@,
    {
        let mut r: Vec<u8> = Vec::new();
        append_bytes(&mut r, array_as_slice(&self.bytes));
        r
    }

    /// Byte-wise equality of two addresses.
    pub fn same_as(&self, other: &Pubkey) -> (r: bool)
        ensures
            r == (self@ == other@),
    {
        bytes_equal(array_as_slice(&self.bytes), array_as_slice(&other.bytes))
    }
}

impl Clone for Pubkey {
    fn clone(&self) -> (r: Pubkey)
        ensures
            r == *self,
    {
        Pubkey { bytes: self.bytes }
    }
}

} // verus!
