//! The laws of the opcodes on concrete transactions, and the ways they fail.
use frame_tx::{
    approve, txparamcopy, txparamload, txparamsize, Address, Context, FrameInfo, FrameTxContext,
    GasParams, InstructionContext, InstructionResult, Interpreter, U256,
};

type Host = Context<u8>;

fn frame(mode: u8, target: u8, data: &[u8], status: Option<bool>) -> FrameInfo {
    FrameInfo {
        mode,
        target: Address::new([target; 20]),
        gas_limit: 1_000 + mode as u64,
        data: data.to_vec(),
        status,
    }
}

fn host() -> Host {
    let mut chain = FrameTxContext::default();
    chain.active = true;
    chain.sender = Address::new([0x51; 20]);
    chain.tx_type = 0x06;
    chain.frames = vec![
        frame(0, 0xA0, &[1, 2, 3], Some(false)),
        frame(1, 0xA1, &[4, 5, 6], None),
        frame(2, 0xA2, &(0..40u8).collect::<Vec<u8>>(), None),
    ];
    chain.frame_count = 3;
    chain.current_frame_index = 1;
    Context { chain, rest: 9 }
}

/// Runs `op` on `operands`, the topmost first.
fn run_in(
    op: fn(InstructionContext<'_, Host>),
    host: &mut Host,
    interpreter: &mut Interpreter,
    operands: &[U256],
) {
    for word in operands.iter().rev() {
        interpreter.push(*word);
    }
    op(InstructionContext { interpreter, host, gas_params: &GasParams::default() });
}

fn run(op: fn(InstructionContext<'_, Host>), host: &mut Host, operands: &[u64]) -> Interpreter {
    let mut interpreter = Interpreter::default();
    let words: Vec<U256> = operands.iter().map(|value| U256::from_u64(*value)).collect();
    run_in(op, host, &mut interpreter, &words);
    interpreter
}

fn result(interpreter: &Interpreter) -> Option<InstructionResult> {
    interpreter.instruction_result()
}

fn huge() -> U256 {
    U256 { limbs: [0, 0, 0, 1] }
}

#[test]
fn inactive_opcodes_touch_nothing() {
    let ops: [fn(InstructionContext<'_, Host>); 4] =
        [approve, txparamload, txparamsize, txparamcopy];
    for op in ops {
        let mut host = host();
        host.chain.active = false;
        let interpreter = run(op, &mut host, &[0, 0, 0, 0, 4]);
        assert_eq!(result(&interpreter), Some(InstructionResult::OpcodeNotFound));
        assert_eq!(interpreter.stack.data.len(), 5);
        assert_eq!(interpreter.memory.len(), 0);
        assert_eq!(interpreter.gas.remaining(), u64::MAX);
        assert!(!host.chain.approve_called_current_frame);
    }
}

#[test]
fn too_few_operands_underflow() {
    let cases: [(fn(InstructionContext<'_, Host>), usize); 4] =
        [(approve, 3), (txparamload, 2), (txparamsize, 2), (txparamcopy, 5)];
    for (op, count) in cases {
        let operands = vec![0u64; count - 1];
        let interpreter = run(op, &mut host(), &operands);
        assert_eq!(result(&interpreter), Some(InstructionResult::StackUnderflow));
        assert_eq!(interpreter.stack.data.len(), count - 1);
    }
}

#[test]
fn approve_outside_any_frame_is_invalid() {
    let mut host = host();
    host.chain.current_frame_index = 3;
    let interpreter = run(approve, &mut host, &[0, 0, 0]);
    assert_eq!(result(&interpreter), Some(InstructionResult::InvalidFEOpcode));
    assert_eq!(interpreter.stack.data.len(), 3);
    assert!(!host.chain.sender_approved);
}

#[test]
fn approve_refuses_without_a_trace() {
    // Payment before execution, and an unknown scope
    for (scope, reason) in
        [(1, InstructionResult::Revert), (3, InstructionResult::InvalidFEOpcode)]
    {
        let mut host = host();
        let interpreter = run(approve, &mut host, &[0, 0, scope]);
        assert_eq!(result(&interpreter), Some(reason));
        assert!(!host.chain.sender_approved && !host.chain.payer_approved);
        assert!(!host.chain.approve_called_current_frame);
        assert_eq!(host.chain.payer, Address::default());
    }
    let mut interpreter = Interpreter::default();
    let mut host = host();
    run_in(approve, &mut host, &mut interpreter, &[U256::zero(), U256::zero(), huge()]);
    assert_eq!(result(&interpreter), Some(InstructionResult::InvalidFEOpcode));
}

#[test]
fn approve_never_repeats() {
    let mut sponsored = host();
    assert_eq!(result(&run(approve, &mut sponsored, &[0, 0, 0])), Some(InstructionResult::Return));
    assert_eq!(result(&run(approve, &mut sponsored, &[0, 0, 0])), Some(InstructionResult::Revert));
    assert_eq!(result(&run(approve, &mut sponsored, &[0, 0, 2])), Some(InstructionResult::Revert));
    assert!(!sponsored.chain.payer_approved);
    assert_eq!(result(&run(approve, &mut sponsored, &[0, 0, 1])), Some(InstructionResult::Return));
    assert_eq!(sponsored.chain.payer, Address::new([0xA1; 20]));

    let mut combined = host();
    assert_eq!(result(&run(approve, &mut combined, &[0, 0, 2])), Some(InstructionResult::Return));
    assert_eq!(combined.chain.payer, Address::new([0x51; 20]));

    for mut done in [sponsored, combined] {
        assert!(done.chain.sender_approved && done.chain.payer_approved);
        let payer = done.chain.payer;
        for scope in 0..3 {
            let interpreter = run(approve, &mut done, &[0, 0, scope]);
            assert_eq!(result(&interpreter), Some(InstructionResult::Revert));
        }
        assert_eq!(done.chain.payer, payer);
        assert_eq!(done.rest, 9);
    }
}

#[test]
fn approve_returns_memory() {
    let mut host = host();
    let mut interpreter = Interpreter::new(3);
    interpreter.memory.resize(32);
    interpreter.memory.set_data(0, 0, 4, &[7, 8, 9, 10]);
    let operands = [U256::from_u64(1), U256::from_u64(33), U256::zero()];
    run_in(approve, &mut host, &mut interpreter, &operands);
    let action = interpreter.action.as_ref().unwrap();
    assert_eq!(action.result, InstructionResult::Return);
    assert_eq!(action.output.len(), 33);
    assert_eq!(action.output[..4], [8, 9, 10, 0]);
    assert_eq!(action.gas.remaining(), 0);
    assert_eq!(interpreter.memory.len(), 64);
}

#[test]
fn approve_that_reverts_has_no_output() {
    let mut host = host();
    let interpreter = run(approve, &mut host, &[0, 4, 1]);
    let action = interpreter.action.as_ref().unwrap();
    assert_eq!(action.result, InstructionResult::Revert);
    assert!(action.output.is_empty());
    // The memory was paid for all the same
    assert_eq!(interpreter.memory.len(), 32);
    assert_eq!(interpreter.gas.remaining(), u64::MAX - 3);
}

#[test]
fn approve_checks_its_region() {
    let small = U256::from_u64(4);
    for (operands, reason) in [
        ([U256::zero(), huge(), U256::zero()], Some(InstructionResult::InvalidOperandOOG)),
        ([huge(), small, U256::zero()], Some(InstructionResult::InvalidOperandOOG)),
        ([huge(), U256::zero(), U256::zero()], Some(InstructionResult::Return)),
    ] {
        let mut interpreter = Interpreter::default();
        run_in(approve, &mut host(), &mut interpreter, &operands);
        assert_eq!(result(&interpreter), reason);
    }
    let mut interpreter = Interpreter::new(2);
    let mut host = host();
    run_in(approve, &mut host, &mut interpreter, &[U256::zero(), small, U256::zero()]);
    assert_eq!(result(&interpreter), Some(InstructionResult::MemoryOOG));
    assert!(!host.chain.sender_approved);
}

fn load(host: &mut Host, id: u64, index: u64) -> Option<U256> {
    let mut interpreter = run(txparamload, host, &[id, index]);
    match result(&interpreter) {
        None => interpreter.stack.pop(),
        Some(reason) => {
            assert_eq!(reason, InstructionResult::InvalidFEOpcode);
            assert_eq!(interpreter.stack.pop(), None);
            None
        }
    }
}

fn size(host: &mut Host, id: u64, index: u64) -> Option<U256> {
    let mut interpreter = run(txparamsize, host, &[id, index]);
    match result(&interpreter) {
        None => interpreter.stack.pop(),
        Some(reason) => {
            assert_eq!(reason, InstructionResult::InvalidFEOpcode);
            None
        }
    }
}

#[test]
fn load_gives_every_parameter() {
    let mut host = host();
    host.chain.nonce = 5;
    host.chain.max_priority_fee_per_gas = (1u128 << 64) + 2;
    host.chain.max_fee_per_gas = 3;
    host.chain.max_fee_per_blob_gas = 4;
    host.chain.max_cost = U256 { limbs: [1, 2, 3, 4] };
    host.chain.sig_hash.bytes[31] = 0xEE;
    host.chain.sig_hash.bytes[0] = 0x01;
    host.chain.frames[0].status = Some(true);
    assert_eq!(load(&mut host, 0x00, 7), Some(U256::from_u64(6)));
    assert_eq!(load(&mut host, 0x01, 7), Some(U256::from_u64(5)));
    let sender = [0x5151_5151_5151_5151, 0x5151_5151_5151_5151, 0x5151_5151, 0];
    assert_eq!(load(&mut host, 0x02, 7), Some(U256 { limbs: sender }));
    assert_eq!(load(&mut host, 0x03, 7), Some(U256 { limbs: [2, 1, 0, 0] }));
    assert_eq!(load(&mut host, 0x04, 7), Some(U256::from_u64(3)));
    assert_eq!(load(&mut host, 0x05, 7), Some(U256::from_u64(4)));
    assert_eq!(load(&mut host, 0x06, 7), Some(U256 { limbs: [1, 2, 3, 4] }));
    assert_eq!(load(&mut host, 0x07, 7), Some(U256::zero()));
    assert_eq!(load(&mut host, 0x08, 7), Some(U256 { limbs: [0xEE, 0, 0, 1 << 56] }));
    assert_eq!(load(&mut host, 0x09, 7), Some(U256::from_u64(3)));
    assert_eq!(load(&mut host, 0x10, 7), Some(U256::from_u64(1)));
    let target = [0xA0A0_A0A0_A0A0_A0A0, 0xA0A0_A0A0_A0A0_A0A0, 0xA0A0_A0A0, 0];
    assert_eq!(load(&mut host, 0x11, 0), Some(U256 { limbs: target }));
    assert_eq!(load(&mut host, 0x12, 0), Some(U256 { limbs: [0, 0, 0, 0x0102_0300_0000_0000] }));
    assert_eq!(load(&mut host, 0x12, 1), Some(U256::zero()));
    assert_eq!(load(&mut host, 0x13, 2), Some(U256::from_u64(1_002)));
    assert_eq!(load(&mut host, 0x14, 2), Some(U256::from_u64(2)));
    assert_eq!(load(&mut host, 0x15, 0), Some(U256::from_u64(1)));
    host.chain.frames[0].status = Some(false);
    assert_eq!(load(&mut host, 0x15, 0), Some(U256::zero()));
    host.chain.frames[0].status = None;
    assert_eq!(load(&mut host, 0x15, 0), Some(U256::zero()));
}

#[test]
fn load_and_size_agree_on_what_there_is() {
    let mut host = host();
    for id in 0..0x20 {
        for index in 0..5 {
            let value = load(&mut host, id, index);
            let bytes = size(&mut host, id, index);
            assert_eq!(value.is_some(), bytes.is_some());
            if id != 0x12 && bytes.is_some() {
                assert_eq!(bytes, Some(U256::from_u64(32)));
            }
        }
    }
    assert_eq!(size(&mut host, 0x15, 0), Some(U256::from_u64(32)));
    assert_eq!(size(&mut host, 0x15, 1), None);
    assert_eq!(size(&mut host, 0x16, 0), None);
}

#[test]
fn huge_operands_name_nothing() {
    for op in [txparamload as fn(InstructionContext<'_, Host>), txparamsize] {
        for operands in [[huge(), U256::zero()], [U256::from_u64(0x11), huge()]] {
            let mut interpreter = Interpreter::default();
            run_in(op, &mut host(), &mut interpreter, &operands);
            assert_eq!(result(&interpreter), Some(InstructionResult::InvalidFEOpcode));
        }
    }
}

#[test]
fn load_on_an_overfull_stack_overflows() {
    let mut interpreter = Interpreter::default();
    for _ in 0..1025 {
        interpreter.stack.data.push(U256::zero());
    }
    interpreter.stack.data.push(U256::zero());
    run_in(txparamload, &mut host(), &mut interpreter, &[]);
    assert_eq!(result(&interpreter), Some(InstructionResult::StackOverflow));
}

#[test]
fn verify_data_cannot_be_told() {
    let mut told = Vec::new();
    for data in [vec![], vec![4, 5, 6], vec![0xFF; 64]] {
        let mut host = host();
        host.chain.frames[1].data = data;
        let copy = run(txparamcopy, &mut host, &[0x12, 1, 2, 0, 8]);
        told.push((
            load(&mut host, 0x12, 1),
            size(&mut host, 0x12, 1),
            copy.memory.data.clone(),
            copy.gas.remaining(),
        ));
    }
    assert_eq!(told[0], told[1]);
    assert_eq!(told[0], told[2]);
    assert_eq!(told[0].2, vec![0; 32]);
}

#[test]
fn copy_agrees_with_load_and_size() {
    let mut host = host();
    for index in [0, 2] {
        let copy = run(txparamcopy, &mut host, &[0x12, index, 0, 0, 32]);
        let mut bytes = [0u8; 32];
        bytes.copy_from_slice(&copy.memory.slice_len(0, 32));
        assert_eq!(load(&mut host, 0x12, index), Some(U256::from_be_bytes(bytes)));

        let len = size(&mut host, 0x12, index).unwrap().limbs[0];
        let all = run(txparamcopy, &mut host, &[0x12, index, 5, 0, len]);
        let data = &host.chain.frames[index as usize].data;
        assert_eq!(&all.memory.slice_len(5, len as usize), data);
    }
}

#[test]
fn copy_leaves_the_rest_of_memory() {
    let mut interpreter = Interpreter::default();
    interpreter.memory.resize(32);
    interpreter.memory.set_data(0, 0, 32, &[0xEE; 32]);
    let operands = [0x12, 0, 4, 1, 4].map(U256::from_u64);
    run_in(txparamcopy, &mut host(), &mut interpreter, &operands);
    assert_eq!(result(&interpreter), None);
    let mut expected = vec![0xEE; 32];
    expected[4..8].copy_from_slice(&[2, 3, 0, 0]);
    assert_eq!(interpreter.memory.data, expected);
    // One word copied, no memory added
    assert_eq!(interpreter.gas.remaining(), u64::MAX - 3);
}

#[test]
fn copy_pays_for_words_and_memory() {
    let interpreter = run(txparamcopy, &mut host(), &[0x12, 2, 60, 0, 33]);
    // Two words copied at 3, three words of memory at 3
    assert_eq!(interpreter.gas.remaining(), u64::MAX - 6 - 9);
    assert_eq!(interpreter.memory.len(), 96);
}

#[test]
fn copy_past_the_data_writes_zeros() {
    let mut interpreter = Interpreter::default();
    interpreter.memory.resize(32);
    interpreter.memory.set_data(0, 0, 4, &[1, 2, 3, 4]);
    let word = U256::from_u64;
    let operands = [word(0x12), word(0), word(1), huge(), word(2)];
    run_in(txparamcopy, &mut host(), &mut interpreter, &operands);
    assert_eq!(interpreter.memory.slice_len(0, 4), [1, 0, 0, 4]);
}

#[test]
fn copy_of_nothing_ignores_its_operands() {
    let mut interpreter = Interpreter::new(0);
    run_in(txparamcopy, &mut host(), &mut interpreter, &[huge(), huge(), huge(), huge(), U256::zero()]);
    assert_eq!(result(&interpreter), None);
    assert_eq!(interpreter.stack.data.len(), 0);
    assert_eq!(interpreter.memory.len(), 0);
}

#[test]
fn copy_spells_scalars() {
    let mut host = host();
    host.chain.nonce = 42;
    let interpreter = run(txparamcopy, &mut host, &[0x01, 0, 0, 0, 32]);
    assert_eq!(result(&interpreter), None);
    let mut expected = vec![0; 32];
    expected[31] = 42;
    assert_eq!(interpreter.memory.data, expected);

    // The last four bytes of a target, then zeros past the 32nd byte
    let interpreter = run(txparamcopy, &mut host, &[0x11, 2, 0, 28, 8]);
    assert_eq!(result(&interpreter), None);
    assert_eq!(interpreter.memory.slice_len(0, 9), [0xA2, 0xA2, 0xA2, 0xA2, 0, 0, 0, 0, 0]);
}

#[test]
fn copy_agrees_with_load_on_every_parameter() {
    let mut host = host();
    host.chain.max_cost = U256 { limbs: [1, 2, 3, 4] };
    host.chain.max_fee_per_gas = u128::MAX;
    host.chain.sig_hash.bytes = [0xC3; 32];
    for id in 0..0x18 {
        for index in 0..4 {
            let copy = run(txparamcopy, &mut host, &[id, index, 0, 0, 32]);
            match load(&mut host, id, index) {
                Some(value) => {
                    assert_eq!(result(&copy), None);
                    assert_eq!(copy.memory.data, value.to_be_bytes());
                }
                None => assert_eq!(result(&copy), Some(InstructionResult::InvalidFEOpcode)),
            }
        }
    }
}

#[test]
fn copy_of_no_parameter_is_invalid() {
    for (id, index) in [(0x0A, 0), (0x0F, 0), (0x16, 0), (0x12, 3), (0x13, 3), (0x15, 1)] {
        let interpreter = run(txparamcopy, &mut host(), &[id, index, 0, 0, 4]);
        assert_eq!(result(&interpreter), Some(InstructionResult::InvalidFEOpcode));
        // Paid for before the parameter is looked at
        assert_eq!(interpreter.gas.remaining(), u64::MAX - 6);
        assert_eq!(interpreter.memory.data, vec![0; 32]);
    }
}

#[test]
fn approvals_of_any_run() {
    let allowed: [&[u64]; 4] = [&[], &[0], &[0, 1], &[2]];
    for run_number in 0..4u64.pow(5) {
        let mut host = host();
        let mut succeeded = Vec::new();
        for step in 0..5 {
            let scope = run_number / 4u64.pow(step) % 4;
            let interpreter = run(approve, &mut host, &[0, 0, scope]);
            if result(&interpreter) == Some(InstructionResult::Return) {
                succeeded.push(scope);
            }
        }
        assert!(allowed.contains(&succeeded.as_slice()));
        assert_eq!(host.chain.sender_approved, !succeeded.is_empty());
        assert_eq!(host.chain.payer_approved, succeeded == [0, 1] || succeeded == [2]);
    }
}

#[test]
fn copy_checks_its_region() {
    let word = U256::from_u64;
    for operands in [
        [word(0x12), word(2), word(0), word(0), huge()],
        [word(0x12), word(2), huge(), word(0), word(4)],
    ] {
        let mut interpreter = Interpreter::default();
        run_in(txparamcopy, &mut host(), &mut interpreter, &operands);
        assert_eq!(result(&interpreter), Some(InstructionResult::InvalidOperandOOG));
        assert_eq!(interpreter.gas.remaining(), u64::MAX);
    }
    // Enough for the word copied, not for the word of memory
    let mut interpreter = Interpreter::new(5);
    let operands = [word(0x12), word(2), word(0), word(0), word(4)];
    run_in(txparamcopy, &mut host(), &mut interpreter, &operands);
    assert_eq!(result(&interpreter), Some(InstructionResult::MemoryOOG));
    assert_eq!(interpreter.gas.remaining(), 2);
}
