//! The 256-bit machine word.
use vstd::prelude::*;

verus! {

/// The number that `bytes` spell in base 256, most significant byte first.
pub open spec fn be_value(bytes: Seq<u8>) -> nat
    decreases bytes.len(),
{
    if bytes.len() == 0 {
        0
    } else {
        256 * be_value(bytes.drop_last()) + bytes.last() as nat
    }
}

/// The last `count` base-256 digits of `value`, most significant first.
pub open spec fn be_digits(value: nat, count: nat) -> Seq<u8>
    decreases count,
{
    if count == 0 {
        Seq::<u8>::empty()
    } else {
        be_digits(value / 256, (count - 1) as nat).push((value % 256) as u8)
    }
}

/// The 32 bytes that spell `value`, most significant first.
pub open spec fn be_bytes(value: nat) -> Seq<u8> {
    be_digits(value, 32)
}

/// How many numbers `count` bytes can spell.
pub open spec fn byte_range(count: nat) -> nat
    decreases count,
{
    if count == 0 {
        1
    } else {
        256 * byte_range((count - 1) as nat)
    }
}

/// How many numbers a word can hold.
pub open spec fn word_range() -> nat {
    0x1_0000_0000_0000_0000_0000_0000_0000_0000_0000_0000_0000_0000_0000_0000_0000_0000nat
}

/// The number that four 64-bit limbs spell, least significant limb first.
pub open spec fn limbs_value(limbs: Seq<u64>) -> nat {
    limbs[0] as nat + 0x1_0000_0000_0000_0000 * limbs[1] as nat
        + 0x1_0000_0000_0000_0000_0000_0000_0000_0000 * limbs[2] as nat
        + 0x1_0000_0000_0000_0000_0000_0000_0000_0000_0000_0000_0000_0000 * limbs[3] as nat
}

/// A 256-bit unsigned integer, held as four limbs, least significant first.
/// Its view is the number itself.
#[derive(Clone, Copy, Debug, PartialEq, Eq)]
pub struct U256 {
    pub limbs: [u64; 4],
}

impl View for U256 {
    type V = nat;

    open spec fn view(&self) -> nat {
        limbs_value(self.limbs@)
    }
}

/// Calls `alloy_primitives::U256::from` on a `u128` and takes the limbs of the
/// result. Claimed: the limbs spell the argument. The conversion fails only on
/// values that do not fit 256 bits, and every `u128` does.
#[verifier::external_body]
fn uint_from_u128(value: u128) -> (word: U256)
    ensures
        word@ == value as nat,
{
    U256 { limbs: alloy_primitives::U256::from(value).into_limbs() }
}

/// Calls `alloy_primitives::U256::from_be_bytes` on 32 bytes and takes the limbs
/// of the result. Claimed: the limbs spell the big-endian number that the bytes
/// spell.
#[verifier::external_body]
fn uint_from_be_bytes(bytes: [u8; 32]) -> (word: U256)
    ensures
        word@ == be_value(bytes@),
{
    U256 { limbs: alloy_primitives::U256::from_be_bytes(bytes).into_limbs() }
}

/// Calls `alloy_primitives::U256::to_be_bytes` on the number that the limbs spell.
/// Claimed: the 32 bytes spell the same number, most significant byte first.
#[verifier::external_body]
fn uint_to_be_bytes(word: U256) -> (bytes: [u8; 32])
    ensures
        be_value(bytes@) == word@,
{
    alloy_primitives::U256::from_limbs(word.limbs).to_be_bytes::<32>()
}

impl U256 {
    /// The word zero.
    pub fn zero() -> (word: U256)
        ensures
            word@ == 0,
    {
        U256 { limbs: [0, 0, 0, 0] }
    }

    /// The word of the same value as `value`.
    pub fn from_u64(value: u64) -> (word: U256)
        ensures
            word@ == value as nat,
    {
        uint_from_u128(value as u128)
    }

    /// The word of the same value as `value`.
    pub fn from_u128(value: u128) -> (word: U256)
        ensures
            word@ == value as nat,
    {
        uint_from_u128(value)
    }

    /// The word that `bytes` spell, most significant byte first.
    pub fn from_be_bytes(bytes: [u8; 32]) -> (word: U256)
        ensures
            word@ == be_value(bytes@),
    {
        uint_from_be_bytes(bytes)
    }

    /// The 32 bytes that spell the word, most significant byte first.
    pub fn to_be_bytes(&self) -> (bytes: [u8; 32])
        ensures
            bytes@ == be_bytes(self@),
    {
        let bytes = uint_to_be_bytes(*self);
        proof {
            lemma_be_digits_of_value(bytes@);
        }
        bytes
    }

    /// The value as a `usize`, if it is one.
    pub fn as_usize(&self) -> (value: Option<usize>)
        ensures
            self@ <= usize::MAX ==> value == Some(self@ as usize),
            self@ > usize::MAX ==> value is None,
    {
        let low: u64 = self.limbs[0];
        if self.limbs[1] != 0 || self.limbs[2] != 0 || self.limbs[3] != 0 {
            None
        } else if low > usize::MAX as u64 {
            None
        } else {
            Some(low as usize)
        }
    }

    /// The value as a `usize`, or the largest `usize` where it is larger.
    pub fn as_usize_saturated(&self) -> (value: usize)
        ensures
            value as nat == if self@ <= usize::MAX { self@ } else { usize::MAX as nat },
    {
        match self.as_usize() {
            Some(value) => value,
            None => usize::MAX,
        }
    }
}

/// Leading zero bytes do not change the number.
pub proof fn lemma_be_value_leading_zeros(zeros: Seq<u8>, bytes: Seq<u8>)
    requires
        forall|i: int| 0 <= i < zeros.len() ==> zeros[i] == 0,
    ensures
        be_value(zeros + bytes) == be_value(bytes),
    decreases zeros.len() + bytes.len(),
{
    let all = zeros + bytes;
    if bytes.len() > 0 {
        assert(all.drop_last() =~= zeros + bytes.drop_last());
        lemma_be_value_leading_zeros(zeros, bytes.drop_last());
    } else if zeros.len() > 0 {
        assert(all.drop_last() =~= zeros.drop_last() + bytes);
        lemma_be_value_leading_zeros(zeros.drop_last(), bytes);
    }
}

/// Bytes are the digits of the number they spell.
pub proof fn lemma_be_digits_of_value(bytes: Seq<u8>)
    ensures
        be_digits(be_value(bytes), bytes.len()) == bytes,
    decreases bytes.len(),
{
    if bytes.len() == 0 {
        assert(bytes =~= Seq::<u8>::empty());
    } else {
        lemma_be_digits_of_value(bytes.drop_last());
        assert(be_value(bytes) / 256 == be_value(bytes.drop_last()));
        assert(be_value(bytes) % 256 == bytes.last() as nat);
        assert(bytes =~= bytes.drop_last().push(bytes.last()));
    }
}

/// There are as many digits as were asked for, and they spell the number, if it is
/// small enough.
pub proof fn lemma_be_value_of_digits(value: nat, count: nat)
    ensures
        be_digits(value, count).len() == count,
        value < byte_range(count) ==> be_value(be_digits(value, count)) == value,
    decreases count,
{
    if count > 0 {
        lemma_be_value_of_digits(value / 256, (count - 1) as nat);
        assert(be_digits(value, count).drop_last() =~= be_digits(
            value / 256,
            (count - 1) as nat,
        ));
    }
}

/// Bytes spell less than what so many bytes can spell.
pub proof fn lemma_be_value_in_range(bytes: Seq<u8>)
    ensures
        be_value(bytes) < byte_range(bytes.len()),
    decreases bytes.len(),
{
    if bytes.len() > 0 {
        lemma_be_value_in_range(bytes.drop_last());
    }
}

/// 20 bytes spell numbers that fit a word, and 32 bytes spell exactly those.
pub proof fn lemma_word_is_32_bytes()
    ensures
        byte_range(20) <= word_range(),
        byte_range(32) == word_range(),
{
    reveal_with_fuel(byte_range, 33);
}

/// The bytes of a number that fits a word spell that number.
pub proof fn lemma_be_bytes_spell_the_number(value: nat)
    requires
        value < word_range(),
    ensures
        be_bytes(value).len() == 32,
        be_value(be_bytes(value)) == value,
{
    lemma_word_is_32_bytes();
    lemma_be_value_of_digits(value, 32);
}

} // verus!
