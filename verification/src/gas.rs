//! Gas: what is left of it, and what copying and memory cost.
use vstd::prelude::*;

verus! {

/// `value`, or the largest `u64` where it is larger.
pub open spec fn saturate(value: nat) -> nat {
    if value <= u64::MAX {
        value
    } else {
        u64::MAX as nat
    }
}

/// The number of 32-byte words that hold `len` bytes.
pub open spec fn words_of(len: nat) -> nat {
    (len + 31) / 32
}

/// The number of 32-byte words that hold `len` bytes.
pub fn num_words(len: usize) -> (words: usize)
    ensures
        words as nat == words_of(len as nat),
{
    if len % 32 == 0 {
        len / 32
    } else {
        len / 32 + 1
    }
}

/// The product, or the largest `u64` where the product is larger.
fn saturating_product(left: u64, right: u64) -> (product: u64)
    ensures
        product as nat == saturate(left as nat * right as nat),
{
    match left.checked_mul(right) {
        Some(product) => product,
        None => u64::MAX,
    }
}

/// The gas an execution has left.
#[derive(Clone, Copy, Debug, PartialEq, Eq)]
pub struct Gas {
    pub remaining: u64,
}

impl Gas {
    /// A fresh allowance of `limit`.
    pub fn new(limit: u64) -> (gas: Gas)
        ensures
            gas.remaining == limit,
    {
        Gas { remaining: limit }
    }

    /// What is left.
    pub fn remaining(&self) -> (remaining: u64)
        ensures
            remaining == self.remaining,
    {
        self.remaining
    }

    /// Takes `cost` from what is left, if it covers it; else takes nothing.
    pub fn record_cost(&mut self, cost: u64) -> (paid: bool)
        ensures
            paid == (cost <= old(self).remaining),
            paid ==> final(self).remaining == old(self).remaining - cost,
            !paid ==> *final(self) == *old(self),
    {
        if cost <= self.remaining {
            self.remaining = self.remaining - cost;
            true
        } else {
            false
        }
    }
}

/// The prices that copying and memory expansion depend on.
#[derive(Clone, Copy, Debug, PartialEq, Eq)]
pub struct GasParams {
    /// Price of copying one 32-byte word.
    pub copy_per_word: u64,
    /// Linear price of one word of memory.
    pub memory_linear_cost: u64,
    /// What the square of the number of memory words is divided by.
    pub memory_quadratic_reduction: u64,
}

impl GasParams {
    /// The quadratic term is a quotient, so its divisor is not zero.
    pub open spec fn well_formed(self) -> bool {
        self.memory_quadratic_reduction > 0
    }

    /// The price of copying `len` bytes: so much for each word begun.
    pub open spec fn copy_price(self, len: nat) -> nat {
        saturate(self.copy_per_word as nat * words_of(len))
    }

    /// The price of having `words` words of memory, linear and quadratic.
    pub open spec fn memory_price(self, words: nat) -> nat {
        saturate(
            saturate(self.memory_linear_cost as nat * words) + saturate(words * words)
                / self.memory_quadratic_reduction as nat,
        )
    }

    /// The price of copying `len` bytes.
    pub fn copy_cost(&self, len: usize) -> (cost: u64)
        ensures
            cost as nat == self.copy_price(len as nat),
    {
        let words: u64 = num_words(len) as u64;
        saturating_product(self.copy_per_word, words)
    }

    /// The price of having `words` words of memory.
    pub fn memory_cost(&self, words: usize) -> (cost: u64)
        requires
            self.well_formed(),
        ensures
            cost as nat == self.memory_price(words as nat),
    {
        let words: u64 = words as u64;
        let quadratic: u64 = saturating_product(words, words) / self.memory_quadratic_reduction;
        saturating_product(self.memory_linear_cost, words).saturating_add(quadratic)
    }
}

impl Default for GasParams {
    /// The prices of mainnet: 3 for each word copied, 3 for each word of memory,
    /// and the square of the number of words divided by 512.
    fn default() -> (params: GasParams)
        ensures
            params.well_formed(),
            params.copy_per_word == 3,
            params.memory_linear_cost == 3,
            params.memory_quadratic_reduction == 512,
    {
        GasParams { copy_per_word: 3, memory_linear_cost: 3, memory_quadratic_reduction: 512 }
    }
}

/// More memory never costs less.
pub proof fn lemma_memory_price_monotone(params: GasParams, fewer: nat, more: nat)
    requires
        params.well_formed(),
        fewer <= more,
    ensures
        params.memory_price(fewer) <= params.memory_price(more),
{
    let linear = params.memory_linear_cost as nat;
    let divisor = params.memory_quadratic_reduction as nat;
    assert(linear * fewer <= linear * more) by (nonlinear_arith)
        requires
            fewer <= more,
    ;
    assert(fewer * fewer <= more * more) by (nonlinear_arith)
        requires
            fewer <= more,
    ;
    vstd::arithmetic::div_mod::lemma_div_is_ordered(
        saturate(fewer * fewer) as int,
        saturate(more * more) as int,
        divisor as int,
    );
}

} // verus!
