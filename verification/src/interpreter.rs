//! The state that one execution works on: stack, memory, gas and outcome.
use vstd::prelude::*;

use crate::gas::{lemma_memory_price_monotone, num_words, words_of, Gas, GasParams};
use crate::memory::{window, SharedMemory};
use crate::stack::{Stack, STACK_LIMIT};
use crate::word::U256;

verus! {

/// Why an execution ended.
#[derive(Clone, Copy, Debug, PartialEq, Eq, Structural)]
pub enum InstructionResult {
    /// Ended with output.
    Return,
    /// Gave up, state changes undone.
    Revert,
    /// Could not pay for an instruction.
    OutOfGas,
    /// Could not pay for memory.
    MemoryOOG,
    /// An offset or a length that no machine integer holds.
    InvalidOperandOOG,
    /// No such opcode.
    OpcodeNotFound,
    /// An opcode that acts as the designated invalid one.
    InvalidFEOpcode,
    /// Too few words on the stack.
    StackUnderflow,
    /// No room on the stack.
    StackOverflow,
}

/// How an execution ended, with its output and the gas left.
#[derive(Debug)]
pub struct InterpreterResult {
    pub result: InstructionResult,
    pub output: Vec<u8>,
    pub gas: Gas,
}

/// The model of an `InterpreterResult`.
#[verifier::ext_equal]
pub struct Outcome {
    pub result: InstructionResult,
    pub output: Seq<u8>,
    pub gas: nat,
}

impl View for InterpreterResult {
    type V = Outcome;

    open spec fn view(&self) -> Outcome {
        Outcome { result: self.result, output: self.output@, gas: self.gas.remaining as nat }
    }
}

/// The model of an `Interpreter`: the values on the stack, the top one last, the
/// bytes of memory, the gas left, and the outcome once there is one.
#[verifier::ext_equal]
pub struct Machine {
    pub stack: Seq<nat>,
    pub memory: Seq<u8>,
    pub gas: nat,
    pub outcome: Option<Outcome>,
}

impl Machine {
    /// The value `depth` places below the top of the stack.
    pub open spec fn operand(self, depth: int) -> nat {
        self.stack[self.stack.len() - 1 - depth]
    }

    /// The machine without the `count` topmost values.
    pub open spec fn popped(self, count: int) -> Machine {
        Machine { stack: self.stack.take(self.stack.len() - count), ..self }
    }

    /// The machine ended by `result`, with `output`.
    pub open spec fn ended(self, result: InstructionResult, output: Seq<u8>) -> Machine {
        Machine { outcome: Some(Outcome { result, output, gas: self.gas }), ..self }
    }

    /// The machine ended by `result`, without output.
    pub open spec fn halted(self, result: InstructionResult) -> Machine {
        self.ended(result, Seq::<u8>::empty())
    }

    /// The machine with `value` on top of its stack, or ended where the stack is
    /// full.
    pub open spec fn pushed(self, value: nat) -> Machine {
        if self.stack.len() < STACK_LIMIT {
            Machine { stack: self.stack.push(value), ..self }
        } else {
            self.halted(InstructionResult::StackOverflow)
        }
    }

    /// The machine with `cost` of its gas spent.
    pub open spec fn charged(self, cost: nat) -> Machine {
        Machine { gas: (self.gas - cost) as nat, ..self }
    }

    /// Whether `len` bytes at `offset` reach past the words that memory has.
    pub open spec fn must_expand(self, offset: nat, len: nat) -> bool {
        reach(offset, len) > self.memory.len() / 32
    }

    /// The price of memory that holds `len` bytes at `offset`, less the price of
    /// the memory that there is.
    pub open spec fn expansion_cost(self, params: GasParams, offset: nat, len: nat) -> nat {
        if self.must_expand(offset, len) {
            (params.memory_price(reach(offset, len)) - params.memory_price(
                self.memory.len() / 32,
            )) as nat
        } else {
            0
        }
    }

    /// Whether the gas left pays for memory that holds `len` bytes at `offset`.
    pub open spec fn can_expand(self, params: GasParams, offset: nat, len: nat) -> bool {
        self.expansion_cost(params, offset, len) <= self.gas
    }

    /// The machine with memory that holds `len` bytes at `offset`, paid for. New
    /// bytes are zero and fill whole words.
    pub open spec fn expanded(self, params: GasParams, offset: nat, len: nat) -> Machine {
        if self.must_expand(offset, len) {
            Machine {
                memory: window(self.memory, 0, 32 * reach(offset, len)),
                ..self.charged(self.expansion_cost(params, offset, len))
            }
        } else {
            self
        }
    }

    /// Memory that holds `len` bytes at `offset` has a price, and is within what a
    /// `Vec` can hold if the gas left pays for it.
    pub open spec fn expansion_fits(self, params: GasParams, offset: nat, len: nat) -> bool {
        &&& self.must_expand(offset, len) ==> params.well_formed()
        &&& self.can_expand(params, offset, len) ==> 32 * reach(offset, len) <= isize::MAX
    }
}

/// The number of words up to the end of `len` bytes at `offset`. The end stops at
/// the largest `usize`.
pub open spec fn reach(offset: nat, len: nat) -> nat {
    words_of(
        if offset + len <= usize::MAX {
            offset + len
        } else {
            usize::MAX as nat
        },
    )
}

/// The state of one execution.
#[derive(Debug)]
pub struct Interpreter {
    pub stack: Stack,
    pub memory: SharedMemory,
    pub gas: Gas,
    /// Set once the execution has ended.
    pub action: Option<InterpreterResult>,
}

impl View for Interpreter {
    type V = Machine;

    open spec fn view(&self) -> Machine {
        Machine {
            stack: self.stack@,
            memory: self.memory@,
            gas: self.gas.remaining as nat,
            outcome: match self.action {
                Some(action) => Some(action@),
                None => None,
            },
        }
    }
}

impl Interpreter {
    /// A fresh execution with `gas_limit` gas.
    pub fn new(gas_limit: u64) -> (interpreter: Interpreter)
        ensures
            interpreter@ == (Machine {
                stack: Seq::<nat>::empty(),
                memory: Seq::<u8>::empty(),
                gas: gas_limit as nat,
                outcome: None,
            }),
    {
        Interpreter {
            stack: Stack::new(),
            memory: SharedMemory::new(),
            gas: Gas::new(gas_limit),
            action: None,
        }
    }

    /// How the execution ended, once it has.
    pub fn instruction_result(&self) -> (result: Option<InstructionResult>)
        ensures
            self@.outcome is None ==> result is None,
            self@.outcome is Some ==> result == Some(self@.outcome->0.result),
    {
        match &self.action {
            Some(action) => Some(action.result),
            None => None,
        }
    }

    /// Ends the execution by `result`, with `output`.
    pub fn finish(&mut self, result: InstructionResult, output: Vec<u8>)
        ensures
            final(self)@ == old(self)@.ended(result, output@),
    {
        self.action = Some(InterpreterResult { result, output, gas: self.gas });
    }

    /// Ends the execution by `result`, without output.
    pub fn halt(&mut self, result: InstructionResult)
        ensures
            final(self)@ == old(self)@.halted(result),
    {
        let output: Vec<u8> = Vec::new();
        self.finish(result, output);
    }

    /// Takes the `count` topmost words off the stack, topmost first, or ends the
    /// execution where there are fewer.
    pub fn popn(&mut self, count: usize) -> (words: Option<Vec<U256>>)
        ensures
            words is Some <==> old(self)@.stack.len() >= count,
            words is Some ==> {
                &&& words->0@.len() == count
                &&& forall|i: int|
                    0 <= i < count ==> (#[trigger] words->0@[i])@ == old(self)@.operand(i)
                &&& final(self)@ == old(self)@.popped(count as int)
            },
            words is None ==> final(self)@ == old(self)@.halted(InstructionResult::StackUnderflow),
    {
        let words = self.stack.popn(count);
        if words.is_none() {
            self.halt(InstructionResult::StackUnderflow);
        }
        words
    }

    /// Puts `word` on top of the stack, or ends the execution where the stack is
    /// full.
    pub fn push(&mut self, word: U256)
        ensures
            final(self)@ == old(self)@.pushed(word@),
    {
        if !self.stack.push(word) {
            self.halt(InstructionResult::StackOverflow);
        }
    }

    /// Spends `cost` gas, or ends the execution where there is less.
    pub fn charge(&mut self, cost: u64) -> (paid: bool)
        ensures
            paid == (cost <= old(self)@.gas),
            paid ==> final(self)@ == old(self)@.charged(cost as nat),
            !paid ==> final(self)@ == old(self)@.halted(InstructionResult::OutOfGas),
    {
        if self.gas.record_cost(cost) {
            true
        } else {
            self.halt(InstructionResult::OutOfGas);
            false
        }
    }

    /// Makes memory hold `len` bytes at `offset` and spends what that costs, or
    /// ends the execution where there is less gas.
    pub fn resize_memory(&mut self, params: &GasParams, offset: usize, len: usize) -> (grown: bool)
        requires
            old(self)@.expansion_fits(*params, offset as nat, len as nat),
        ensures
            grown == old(self)@.can_expand(*params, offset as nat, len as nat),
            grown ==> {
                &&& final(self)@ == old(self)@.expanded(*params, offset as nat, len as nat)
                &&& offset + len <= final(self)@.memory.len()
            },
            !grown ==> final(self)@ == old(self)@.halted(InstructionResult::MemoryOOG),
    {
        let new_words: usize = num_words(offset.saturating_add(len));
        let words: usize = self.memory.len() / 32;
        if new_words > words {
            proof {
                lemma_memory_price_monotone(*params, words as nat, new_words as nat);
            }
            let cost: u64 = params.memory_cost(new_words) - params.memory_cost(words);
            if !self.gas.record_cost(cost) {
                self.halt(InstructionResult::MemoryOOG);
                return false;
            }
            self.memory.resize(new_words * 32);
        }
        true
    }
}

impl Default for Interpreter {
    /// A fresh execution with as much gas as there can be.
    fn default() -> (interpreter: Interpreter)
        ensures
            interpreter@ == (Machine {
                stack: Seq::<nat>::empty(),
                memory: Seq::<u8>::empty(),
                gas: u64::MAX as nat,
                outcome: None,
            }),
    {
        Interpreter::new(u64::MAX)
    }
}

/// What an opcode works on: the execution, the host, and the host's gas prices.
pub struct InstructionContext<'a, H> {
    pub interpreter: &'a mut Interpreter,
    pub host: &'a mut H,
    pub gas_params: &'a GasParams,
}

} // verus!
