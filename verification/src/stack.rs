//! The operand stack.
use vstd::prelude::*;

use crate::word::U256;

verus! {

/// The largest number of words that a stack takes.
pub const STACK_LIMIT: usize = 1024;

/// The operand stack. Its view is the values on it, the top one last.
#[derive(Debug)]
pub struct Stack {
    pub data: Vec<U256>,
}

impl View for Stack {
    type V = Seq<nat>;

    open spec fn view(&self) -> Seq<nat> {
        self.data@.map_values(|word: U256| word@)
    }
}

impl Stack {
    /// An empty stack.
    pub fn new() -> (stack: Stack)
        ensures
            stack@ == Seq::<nat>::empty(),
    {
        let stack = Stack { data: Vec::new() };
        assert(stack@ =~= Seq::<nat>::empty());
        stack
    }

    /// Puts `word` on top, unless the stack is full.
    pub fn push(&mut self, word: U256) -> (pushed: bool)
        ensures
            pushed == (old(self)@.len() < STACK_LIMIT),
            pushed ==> final(self)@ == old(self)@.push(word@),
            !pushed ==> *final(self) == *old(self),
    {
        if self.data.len() < STACK_LIMIT {
            self.data.push(word);
            assert(self@ =~= old(self)@.push(word@));
            true
        } else {
            false
        }
    }

    /// Takes the top word off.
    pub fn pop(&mut self) -> (word: Option<U256>)
        ensures
            old(self)@.len() == 0 ==> word is None && final(self)@ == old(self)@,
            old(self)@.len() > 0 ==> {
                &&& word is Some
                &&& word->0@ == old(self)@.last()
                &&& final(self)@ == old(self)@.drop_last()
            },
    {
        let word = self.data.pop();
        assert(old(self)@.len() > 0 ==> self@ =~= old(self)@.drop_last());
        word
    }

    /// Takes the `count` topmost words off, topmost first, or none if there are
    /// fewer.
    pub fn popn(&mut self, count: usize) -> (words: Option<Vec<U256>>)
        ensures
            old(self)@.len() < count ==> words is None && *final(self) == *old(self),
            old(self)@.len() >= count ==> {
                &&& words is Some
                &&& words->0@.len() == count
                &&& forall|i: int|
                    0 <= i < count ==> (#[trigger] words->0@[i])@ == old(self)@[old(self)@.len() - 1 - i]
                &&& final(self)@ == old(self)@.take(old(self)@.len() - count)
            },
    {
        if self.data.len() < count {
            return None;
        }
        let ghost before = self@;
        let mut words: Vec<U256> = Vec::new();
        while words.len() < count
            invariant
                words@.len() <= count <= before.len(),
                self@ =~= before.take(before.len() - words@.len()),
                forall|i: int|
                    0 <= i < words@.len() ==> (#[trigger] words@[i])@ == before[before.len() - 1 - i],
            decreases count - words@.len(),
        {
            assert(self@.last() == before[before.len() - 1 - words@.len()]);
            match self.pop() {
                Some(word) => words.push(word),
                None => return None,
            }
        }
        Some(words)
    }
}

} // verus!
