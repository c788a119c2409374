//! Words, addresses, prices, the stack and memory on exact values.
use frame_tx::gas::num_words;
use frame_tx::memory::SharedMemory;
use frame_tx::stack::{Stack, STACK_LIMIT};
use frame_tx::{
    Address, FrameInfo, FrameTxContext, Gas, GasParams, InstructionResult, Interpreter, B256, U256,
};

#[test]
fn word_from_integers() {
    assert_eq!(U256::zero().limbs, [0, 0, 0, 0]);
    assert_eq!(U256::from_u64(u64::MAX).limbs, [u64::MAX, 0, 0, 0]);
    assert_eq!(U256::from_u128((7u128 << 64) + 5).limbs, [5, 7, 0, 0]);
    assert_eq!(U256::from_u128(u128::MAX).limbs, [u64::MAX, u64::MAX, 0, 0]);
}

#[test]
fn word_from_big_endian_bytes() {
    let mut bytes = [0u8; 32];
    bytes[31] = 1;
    bytes[23] = 2;
    bytes[15] = 3;
    bytes[0] = 0x80;
    assert_eq!(U256::from_be_bytes(bytes).limbs, [1, 2, 3, 0x8000_0000_0000_0000]);
}

#[test]
fn word_to_big_endian_bytes() {
    let word = U256 { limbs: [1, 2, 3, 0x8000_0000_0000_0000] };
    let mut bytes = [0u8; 32];
    bytes[31] = 1;
    bytes[23] = 2;
    bytes[15] = 3;
    bytes[0] = 0x80;
    assert_eq!(word.to_be_bytes(), bytes);
    assert_eq!(U256::from_be_bytes(word.to_be_bytes()), word);
}

#[test]
fn word_as_usize() {
    assert_eq!(U256::from_u64(17).as_usize(), Some(17));
    assert_eq!(U256::from_u64(17).as_usize_saturated(), 17);
    for high in 1..4 {
        let mut word = U256::from_u64(17);
        word.limbs[high] = 1;
        assert_eq!(word.as_usize(), None);
        assert_eq!(word.as_usize_saturated(), usize::MAX);
    }
    assert_eq!(U256::from_u64(usize::MAX as u64).as_usize(), Some(usize::MAX));
}

#[test]
fn address_as_word() {
    let mut bytes = [0u8; 20];
    bytes[0] = 0x12;
    bytes[19] = 0x34;
    assert_eq!(Address::new(bytes).to_word().limbs, [0x34, 0, 0x1200_0000, 0]);
}

#[test]
fn defaults_are_empty() {
    assert_eq!(Address::default(), Address::new([0; 20]));
    assert_eq!(B256::default(), B256::new([0; 32]));
    let frame = FrameInfo::default();
    assert_eq!((frame.mode, frame.gas_limit, frame.status), (0, 0, None));
    assert!(frame.data.is_empty());
    let ftx = FrameTxContext::default();
    assert!(!ftx.active && !ftx.sender_approved && !ftx.payer_approved);
    assert_eq!(ftx.frame_count, 0);
    assert!(ftx.frames.is_empty());
}

#[test]
fn words_are_rounded_up() {
    assert_eq!(num_words(0), 0);
    assert_eq!(num_words(1), 1);
    assert_eq!(num_words(32), 1);
    assert_eq!(num_words(33), 2);
    assert_eq!(num_words(usize::MAX), usize::MAX / 32 + 1);
}

#[test]
fn copying_is_priced_by_the_word() {
    let params = GasParams::default();
    assert_eq!(params.copy_cost(0), 0);
    assert_eq!(params.copy_cost(4), 3);
    assert_eq!(params.copy_cost(33), 6);
    let dear = GasParams { copy_per_word: u64::MAX, ..params };
    assert_eq!(dear.copy_cost(33), u64::MAX);
}

#[test]
fn memory_is_priced_linearly_and_quadratically() {
    let params = GasParams::default();
    assert_eq!(params.memory_cost(0), 0);
    assert_eq!(params.memory_cost(1), 3);
    assert_eq!(params.memory_cost(32), 98);
    assert_eq!(params.memory_cost(1024), 5120);
}

#[test]
fn gas_is_taken_only_when_it_suffices() {
    let mut gas = Gas::new(5);
    assert!(gas.record_cost(5));
    assert_eq!(gas.remaining(), 0);
    assert!(!gas.record_cost(1));
    assert_eq!(gas.remaining(), 0);
}

#[test]
fn stack_gives_back_topmost_first() {
    let mut stack = Stack::new();
    for value in 1..=3u64 {
        assert!(stack.push(U256::from_u64(value)));
    }
    assert!(stack.popn(4).is_none());
    assert_eq!(stack.popn(2), Some(vec![U256::from_u64(3), U256::from_u64(2)]));
    assert_eq!(stack.pop(), Some(U256::from_u64(1)));
    assert_eq!(stack.pop(), None);
}

#[test]
fn full_stack_refuses() {
    let mut interpreter = Interpreter::default();
    for _ in 0..STACK_LIMIT {
        interpreter.push(U256::zero());
    }
    assert_eq!(interpreter.instruction_result(), None);
    interpreter.push(U256::zero());
    assert_eq!(interpreter.instruction_result(), Some(InstructionResult::StackOverflow));
    assert_eq!(interpreter.stack.data.len(), STACK_LIMIT);
}

#[test]
fn memory_is_written_with_padding() {
    let mut memory = SharedMemory::new();
    memory.resize(8);
    memory.set_data(0, 0, 8, &[1, 2, 3, 4, 5, 6, 7, 8]);
    memory.set_data(2, 1, 4, &[9, 10, 11]);
    assert_eq!(memory.slice_len(0, 8), [1, 2, 10, 11, 0, 0, 7, 8]);
    memory.set_data(0, usize::MAX, 3, &[9]);
    assert_eq!(memory.slice_len(0, 4), [0, 0, 0, 11]);
    memory.resize(10);
    assert_eq!(memory.slice_len(6, 4), [7, 8, 0, 0]);
    assert_eq!(memory.len(), 10);
}

#[test]
fn memory_grows_by_whole_words_and_is_paid_for() {
    let params = GasParams::default();
    let mut interpreter = Interpreter::new(10);
    assert!(interpreter.resize_memory(&params, 31, 2));
    assert_eq!(interpreter.memory.len(), 64);
    assert_eq!(interpreter.gas.remaining(), 4);
    assert!(interpreter.resize_memory(&params, 0, 64));
    assert_eq!(interpreter.gas.remaining(), 4);
    assert!(!interpreter.resize_memory(&params, 100, 100));
    assert_eq!(interpreter.instruction_result(), Some(InstructionResult::MemoryOOG));
    assert_eq!(interpreter.memory.len(), 64);
    assert_eq!(interpreter.gas.remaining(), 4);
}
