//! Fixed-size byte strings.
use vstd::prelude::*;

use crate::word::{be_value, lemma_be_value_leading_zeros, U256};

verus! {

/// A 20-byte account address.
#[derive(Clone, Copy, Debug, PartialEq, Eq)]
pub struct Address {
    pub bytes: [u8; 20],
}

impl View for Address {
    type V = Seq<u8>;

    open spec fn view(&self) -> Seq<u8> {
        self.bytes@
    }
}

impl Address {
    /// The address made of `bytes`.
    pub fn new(bytes: [u8; 20]) -> (address: Address)
        ensures
            address.bytes == bytes,
    {
        Address { bytes }
    }

    /// The address as a word: twelve zero bytes, then the address.
    pub fn to_word(&self) -> (word: U256)
        ensures
            word@ == be_value(self@),
    {
        let mut padded: [u8; 32] = [0u8; 32];
        let mut i: usize = 0;
        while i < 20
            invariant
                i <= 20,
                forall|j: int| 0 <= j < 12 ==> padded@[j] == 0,
                forall|j: int| 0 <= j < i ==> padded@[12 + j] == self@[j],
            decreases 20 - i,
        {
            padded[12 + i] = self.bytes[i];
            i = i + 1;
        }
        proof {
            let zeros = padded@.take(12);
            assert(padded@ =~= zeros + self@);
            lemma_be_value_leading_zeros(zeros, self@);
        }
        U256::from_be_bytes(padded)
    }
}

impl Default for Address {
    /// The zero address.
    fn default() -> (address: Address)
        ensures
            address@ == Seq::new(20, |i: int| 0u8),
    {
        let address = Address { bytes: [0u8; 20] };
        assert(address@ =~= Seq::new(20, |i: int| 0u8));
        address
    }
}

/// A 32-byte hash.
#[derive(Clone, Copy, Debug, PartialEq, Eq)]
pub struct B256 {
    pub bytes: [u8; 32],
}

impl View for B256 {
    type V = Seq<u8>;

    open spec fn view(&self) -> Seq<u8> {
        self.bytes@
    }
}

impl B256 {
    /// The hash made of `bytes`.
    pub fn new(bytes: [u8; 32]) -> (hash: B256)
        ensures
            hash.bytes == bytes,
    {
        B256 { bytes }
    }
}

impl Default for B256 {
    /// The zero hash.
    fn default() -> (hash: B256)
        ensures
            hash@ == Seq::new(32, |i: int| 0u8),
    {
        let hash = B256 { bytes: [0u8; 32] };
        assert(hash@ =~= Seq::new(32, |i: int| 0u8));
        hash
    }
}

} // verus!
