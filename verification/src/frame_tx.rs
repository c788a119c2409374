//! The four opcodes.
use vstd::prelude::*;

use crate::context::{FrameTxContext, FrameTxHost};
use crate::gas::GasParams;
use crate::interpreter::{InstructionContext, InstructionResult, Machine};
use crate::memory::{overwrite, window};
use crate::word::U256;

verus! {

/// What APPROVE does to the machine and to the context. Operands, top first:
/// offset, length, scope.
pub open spec fn approve_step(
    machine: Machine,
    context: FrameTxContext,
    params: GasParams,
) -> (Machine, FrameTxContext) {
    let offset = machine.operand(0);
    let len = machine.operand(1);
    let scope = machine.operand(2);
    let rest = machine.popped(3);
    if !context.active {
        (machine.halted(InstructionResult::OpcodeNotFound), context)
    } else if !context.verifying() {
        (machine.halted(InstructionResult::InvalidFEOpcode), context)
    } else if machine.stack.len() < 3 {
        (machine.halted(InstructionResult::StackUnderflow), context)
    } else if len > usize::MAX || len > 0 && offset > usize::MAX {
        (rest.halted(InstructionResult::InvalidOperandOOG), context)
    } else if len > 0 && !rest.can_expand(params, offset, len) {
        (rest.halted(InstructionResult::MemoryOOG), context)
    } else {
        let (grown, output) = if len == 0 {
            (rest, Seq::<u8>::empty())
        } else {
            let grown = rest.expanded(params, offset, len);
            (grown, grown.memory.subrange(offset as int, (offset + len) as int))
        };
        match context.refusal(scope) {
            Some(result) => (grown.halted(result), context),
            None => (grown.ended(InstructionResult::Return, output), context.granted(scope)),
        }
    }
}

/// What APPROVE needs: memory that it asks for has a price, and memory that it
/// would pay for is memory that there can be.
pub open spec fn approve_ready(
    machine: Machine,
    context: FrameTxContext,
    params: GasParams,
) -> bool {
    let offset = machine.operand(0);
    let len = machine.operand(1);
    context.active && context.verifying() && machine.stack.len() >= 3 && 0 < len <= usize::MAX
        && offset <= usize::MAX ==> machine.popped(3).expansion_fits(params, offset, len)
}

/// What TXPARAMLOAD does to the machine. Operands, top first: parameter, frame
/// index.
pub open spec fn txparamload_step(machine: Machine, context: FrameTxContext) -> Machine {
    if !context.active {
        machine.halted(InstructionResult::OpcodeNotFound)
    } else if machine.stack.len() < 2 {
        machine.halted(InstructionResult::StackUnderflow)
    } else {
        match context.param(machine.operand(0), machine.operand(1)) {
            Some(value) => machine.popped(2).pushed(value),
            None => machine.popped(2).halted(InstructionResult::InvalidFEOpcode),
        }
    }
}

/// What TXPARAMLOAD needs: the metadata of the frame it reads is there.
pub open spec fn txparamload_ready(machine: Machine, context: FrameTxContext) -> bool {
    context.active && machine.stack.len() >= 2 ==> context.param_covered(
        machine.operand(0),
        machine.operand(1),
    )
}

/// What TXPARAMSIZE does to the machine. Operands, top first: parameter, frame
/// index.
pub open spec fn txparamsize_step(machine: Machine, context: FrameTxContext) -> Machine {
    if !context.active {
        machine.halted(InstructionResult::OpcodeNotFound)
    } else if machine.stack.len() < 2 {
        machine.halted(InstructionResult::StackUnderflow)
    } else {
        match context.param_size(machine.operand(0), machine.operand(1)) {
            Some(size) => machine.popped(2).pushed(size),
            None => machine.popped(2).halted(InstructionResult::InvalidFEOpcode),
        }
    }
}

/// What TXPARAMSIZE needs: the metadata of the frame whose data it measures is
/// there.
pub open spec fn txparamsize_ready(machine: Machine, context: FrameTxContext) -> bool {
    context.active && machine.stack.len() >= 2 && machine.operand(0) == 0x12 ==> context.covers(
        machine.operand(1),
    )
}

/// What TXPARAMCOPY does to the machine. Operands, top first: parameter, frame
/// index, destination, source offset, length.
pub open spec fn txparamcopy_step(
    machine: Machine,
    context: FrameTxContext,
    params: GasParams,
) -> Machine {
    let id = machine.operand(0);
    let index = machine.operand(1);
    let dest = machine.operand(2);
    let src = machine.operand(3);
    let len = machine.operand(4);
    let rest = machine.popped(5);
    let paid = rest.charged(params.copy_price(len));
    if !context.active {
        machine.halted(InstructionResult::OpcodeNotFound)
    } else if machine.stack.len() < 5 {
        machine.halted(InstructionResult::StackUnderflow)
    } else if len == 0 {
        rest
    } else if len > usize::MAX || dest > usize::MAX {
        rest.halted(InstructionResult::InvalidOperandOOG)
    } else if params.copy_price(len) > rest.gas {
        rest.halted(InstructionResult::OutOfGas)
    } else if !paid.can_expand(params, dest, len) {
        paid.halted(InstructionResult::MemoryOOG)
    } else {
        let grown = paid.expanded(params, dest, len);
        match context.param_bytes(id, index) {
            Some(bytes) => Machine {
                memory: overwrite(grown.memory, dest, window(bytes, src, len)),
                ..grown
            },
            None => grown.halted(InstructionResult::InvalidFEOpcode),
        }
    }
}

/// What TXPARAMCOPY needs: memory that it asks for has a price, memory that it
/// would pay for is memory that there can be, and the metadata of the frame it reads
/// is there.
pub open spec fn txparamcopy_ready(
    machine: Machine,
    context: FrameTxContext,
    params: GasParams,
) -> bool {
    let dest = machine.operand(2);
    let len = machine.operand(4);
    let paid = machine.popped(5).charged(params.copy_price(len));
    context.active && machine.stack.len() >= 5 && 0 < len <= usize::MAX && dest <= usize::MAX
        && params.copy_price(len) <= machine.gas ==> {
        &&& paid.expansion_fits(params, dest, len)
        &&& paid.can_expand(params, dest, len) ==> context.param_covered(
            machine.operand(0),
            machine.operand(1),
        )
    }
}

/// APPROVE opcode (0xAA): frame transaction approval.
///
/// Stack inputs (top first): [offset, length, scope]
/// - offset: memory offset for return data
/// - length: byte length of return data
/// - scope:
///   - 0x0 = execution approval (sender only)
///   - 0x1 = payment approval (payer = current frame target)
///   - 0x2 = combined execution+payment approval (payer = sender)
///
/// Behaves like RETURN (terminates execution) but also updates transaction-scoped
/// approval state. Nothing else of the host changes, and where the approval is not
/// granted nothing of it does.
pub fn approve<H: FrameTxHost>(context: InstructionContext<'_, H>)
    requires
        approve_ready(
            old(context.interpreter)@,
            old(context.host).frame_tx(),
            *context.gas_params,
        ),
    ensures
        ({
            let (machine, frame_tx) = approve_step(
                old(context.interpreter)@,
                old(context.host).frame_tx(),
                *context.gas_params,
            );
            &&& final(context.interpreter)@ == machine
            &&& final(context.host).frame_tx() == frame_tx
            &&& machine.outcome->0.result == InstructionResult::Return ==> old(
                context.host,
            ).keeps_rest(&*final(context.host))
            &&& machine.outcome->0.result != InstructionResult::Return ==> *final(context.host)
                == *old(context.host)
        }),
{
    if !context.host.frame_tx_context().active {
        context.interpreter.halt(InstructionResult::OpcodeNotFound);
        return;
    }
    // APPROVE is only valid inside a VERIFY frame
    if !context.host.frame_tx_context().is_verifying() {
        context.interpreter.halt(InstructionResult::InvalidFEOpcode);
        return;
    }
    let words: Vec<U256> = match context.interpreter.popn(3) {
        Some(words) => words,
        None => return,
    };
    let scope: usize = words[2].as_usize_saturated();
    let len: usize = match words[1].as_usize() {
        Some(len) => len,
        None => {
            context.interpreter.halt(InstructionResult::InvalidOperandOOG);
            return;
        },
    };
    // Return data, as for RETURN
    let mut output: Vec<u8> = Vec::new();
    if len != 0 {
        let offset: usize = match words[0].as_usize() {
            Some(offset) => offset,
            None => {
                context.interpreter.halt(InstructionResult::InvalidOperandOOG);
                return;
            },
        };
        if !context.interpreter.resize_memory(context.gas_params, offset, len) {
            return;
        }
        output = context.interpreter.memory.slice_len(offset, len);
    }
    match context.host.frame_tx_context().approval_refusal(scope) {
        Some(result) => context.interpreter.halt(result),
        None => {
            context.host.frame_tx_context_mut().grant(scope);
            context.interpreter.finish(InstructionResult::Return, output);
        },
    }
}

/// TXPARAMLOAD opcode (0xB0): load a transaction parameter as a 32-byte value.
///
/// Stack inputs (top first): [in1, in2]
/// Stack output: [value]
///
/// Parameter table:
/// - (0x00, 0): tx type (0x06)
/// - (0x01, 0): nonce
/// - (0x02, 0): sender (padded to 32 bytes)
/// - (0x03, 0): max_priority_fee_per_gas
/// - (0x04, 0): max_fee_per_gas
/// - (0x05, 0): max_fee_per_blob_gas
/// - (0x06, 0): max cost
/// - (0x07, 0): len(blob_versioned_hashes)
/// - (0x08, 0): signature hash
/// - (0x09, 0): len(frames)
/// - (0x10, 0): current frame index
/// - (0x11, i): frames[i].target
/// - (0x12, i): frames[i].data (dynamic, see TXPARAMSIZE and TXPARAMCOPY)
/// - (0x13, i): frames[i].gas_limit
/// - (0x14, i): frames[i].mode
/// - (0x15, i): frames[i].status (only past frames)
pub fn txparamload<H: FrameTxHost>(context: InstructionContext<'_, H>)
    requires
        txparamload_ready(old(context.interpreter)@, old(context.host).frame_tx()),
    ensures
        final(context.interpreter)@ == txparamload_step(
            old(context.interpreter)@,
            old(context.host).frame_tx(),
        ),
        *final(context.host) == *old(context.host),
{
    if !context.host.frame_tx_context().active {
        context.interpreter.halt(InstructionResult::OpcodeNotFound);
        return;
    }
    let words: Vec<U256> = match context.interpreter.popn(2) {
        Some(words) => words,
        None => return,
    };
    let id: usize = words[0].as_usize_saturated();
    let index: usize = words[1].as_usize_saturated();
    match context.host.frame_tx_context().load_param(id, index) {
        Some(value) => context.interpreter.push(value),
        None => context.interpreter.halt(InstructionResult::InvalidFEOpcode),
    }
}

/// TXPARAMSIZE opcode (0xB1): get the byte size of a transaction parameter.
///
/// Stack inputs (top first): [in1, in2]
/// Stack output: [size]
///
/// Most parameters return 32. Dynamic fields (like frame data at 0x12) return
/// their actual byte length.
pub fn txparamsize<H: FrameTxHost>(context: InstructionContext<'_, H>)
    requires
        txparamsize_ready(old(context.interpreter)@, old(context.host).frame_tx()),
    ensures
        final(context.interpreter)@ == txparamsize_step(
            old(context.interpreter)@,
            old(context.host).frame_tx(),
        ),
        *final(context.host) == *old(context.host),
{
    if !context.host.frame_tx_context().active {
        context.interpreter.halt(InstructionResult::OpcodeNotFound);
        return;
    }
    let words: Vec<U256> = match context.interpreter.popn(2) {
        Some(words) => words,
        None => return,
    };
    let id: usize = words[0].as_usize_saturated();
    let index: usize = words[1].as_usize_saturated();
    match context.host.frame_tx_context().load_param_size(id, index) {
        Some(size) => context.interpreter.push(size),
        None => context.interpreter.halt(InstructionResult::InvalidFEOpcode),
    }
}

/// TXPARAMCOPY opcode (0xB2): copy transaction parameter data to memory.
///
/// Stack inputs (top first): [in1, in2, dest_offset, src_offset, length]
///
/// Copies `length` bytes from parameter field (in1, in2) starting at `src_offset`
/// into memory at `dest_offset`, zeros past the end of the field. Frame data is
/// copied as it is, every other parameter as its 32-byte value. Charges for each
/// word copied, as CALLDATACOPY does, and for memory expansion.
pub fn txparamcopy<H: FrameTxHost>(context: InstructionContext<'_, H>)
    requires
        txparamcopy_ready(
            old(context.interpreter)@,
            old(context.host).frame_tx(),
            *context.gas_params,
        ),
    ensures
        final(context.interpreter)@ == txparamcopy_step(
            old(context.interpreter)@,
            old(context.host).frame_tx(),
            *context.gas_params,
        ),
        *final(context.host) == *old(context.host),
{
    if !context.host.frame_tx_context().active {
        context.interpreter.halt(InstructionResult::OpcodeNotFound);
        return;
    }
    let words: Vec<U256> = match context.interpreter.popn(5) {
        Some(words) => words,
        None => return,
    };
    let id: usize = words[0].as_usize_saturated();
    let index: usize = words[1].as_usize_saturated();
    let len: usize = match words[4].as_usize() {
        Some(len) => len,
        None => {
            context.interpreter.halt(InstructionResult::InvalidOperandOOG);
            return;
        },
    };
    if len == 0 {
        return;
    }
    let dest: usize = match words[2].as_usize() {
        Some(dest) => dest,
        None => {
            context.interpreter.halt(InstructionResult::InvalidOperandOOG);
            return;
        },
    };
    let src: usize = words[3].as_usize_saturated();
    if !context.interpreter.charge(context.gas_params.copy_cost(len)) {
        return;
    }
    if !context.interpreter.resize_memory(context.gas_params, dest, len) {
        return;
    }
    match context.host.frame_tx_context().load_param_bytes(id, index) {
        Some(bytes) => {
            context.interpreter.memory.set_data(dest, src, len, bytes.as_slice());
            // An offset that no `usize` holds is past the end of any slice
            assert(bytes.len() == bytes@.len());
            assert(window(bytes@, src as nat, len as nat) =~= window(
                bytes@,
                words@[3]@,
                len as nat,
            ));
        },
        None => context.interpreter.halt(InstructionResult::InvalidFEOpcode),
    }
}

} // verus!
