//! What the opcodes do, said of the fields of the machine and of the transaction
//! themselves: operands by their place on the stack, frames by their index, modes,
//! scopes and parameters by their numbers.
use vstd::arithmetic::power::pow;
use vstd::prelude::*;

use crate::context::{Context, FrameTxContext, FrameTxHost};
use crate::frame_tx::{
    approve_ready, approve_step, txparamcopy_ready, txparamcopy_step, txparamload_ready,
    txparamload_step, txparamsize_ready, txparamsize_step,
};
use crate::gas::{lemma_memory_price_monotone, GasParams};
use crate::interpreter::{InstructionResult, Interpreter, Machine, Outcome};
use crate::memory::window;
use crate::params::lemma_param_fits_a_word;
use crate::primitives::{Address, B256};
use crate::word::{
    be_value, lemma_be_bytes_spell_the_number, lemma_be_value_leading_zeros,
    lemma_be_value_of_digits, U256,
};

verus! {

/// `machine` with its topmost values replaced, `count` of them by one `value`, and
/// nothing else changed.
pub open spec fn answers(machine: Machine, count: int, value: nat) -> Machine {
    Machine { stack: machine.stack.subrange(0, machine.stack.len() - count).push(value), ..machine }
}

/// `machine` without its `count` topmost values, ended by `result` with no output and
/// the gas it has, and nothing else changed.
pub open spec fn stops(machine: Machine, count: int, result: InstructionResult) -> Machine {
    Machine {
        stack: machine.stack.subrange(0, machine.stack.len() - count),
        outcome: Some(Outcome { result, output: Seq::<u8>::empty(), gas: machine.gas }),
        ..machine
    }
}

/// What it costs to have memory up to `end`, where there are `len` bytes of it: the
/// price of the words then, less the price of the words now, if that is more words.
pub open spec fn growth(params: GasParams, len: nat, end: nat) -> int {
    if (end + 31) / 32 > len / 32 {
        params.memory_price((end + 31) / 32) - params.memory_price(len / 32)
    } else {
        0
    }
}

/// Whether `after` is memory `before` grown up to `end`: by whole words, if that is more
/// words than there were, with every byte kept and every new one zero.
pub open spec fn grown(before: Seq<u8>, after: Seq<u8>, end: nat) -> bool {
    &&& after.len() == if (end + 31) / 32 > before.len() / 32 {
        32 * ((end + 31) / 32)
    } else {
        before.len()
    }
    &&& forall|i: int|
        0 <= i < after.len() ==> #[trigger] after[i] == (if i < before.len() {
            before[i]
        } else {
            0
        })
}

/// Whether the current frame is there and has mode 1.
pub open spec fn in_verify_frame(context: FrameTxContext) -> bool {
    context.current_frame_index < context.frames@.len()
        && context.frames@[context.current_frame_index as int].mode == 1
}

/// Whether `id` and `index` name a parameter: 0x00 to 0x09 and 0x10 always do, 0x11 to
/// 0x14 for a frame of the transaction, 0x15 for one before the current.
pub open spec fn names_parameter(context: FrameTxContext, id: nat, index: nat) -> bool {
    ||| id <= 0x09
    ||| id == 0x10
    ||| 0x11 <= id <= 0x14 && index < context.frame_count
    ||| id == 0x15 && index < context.frame_count && index < context.current_frame_index
}

/// The first 32 of `data`, zeros past its end.
pub open spec fn head(data: Seq<u8>) -> Seq<u8> {
    Seq::new(32, |i: int| if i < data.len() { data[i] } else { 0u8 })
}

// ---- Words, bytes and prices ----

/// The limbs of a word are its base-2^64 digits, least significant first. So words of
/// one value have the same limbs.
pub proof fn law_limbs_are_digits(word: U256)
    ensures
        word@ % 0x1_0000_0000_0000_0000 == word.limbs@[0],
        word@ / 0x1_0000_0000_0000_0000 % 0x1_0000_0000_0000_0000 == word.limbs@[1],
        word@ / 0x1_0000_0000_0000_0000 / 0x1_0000_0000_0000_0000 % 0x1_0000_0000_0000_0000
            == word.limbs@[2],
        word@ / 0x1_0000_0000_0000_0000 / 0x1_0000_0000_0000_0000 / 0x1_0000_0000_0000_0000
            == word.limbs@[3],
{
    let base: int = 0x1_0000_0000_0000_0000;
    let l0 = word.limbs@[0] as int;
    let l1 = word.limbs@[1] as int;
    let l2 = word.limbs@[2] as int;
    let l3 = word.limbs@[3] as int;
    let high = l1 + base * (l2 + base * l3);
    assert(word@ == l0 + base * high);
    assert(word@ / 0x1_0000_0000_0000_0000 == high);
    assert(high / base == l2 + base * l3);
    assert((l2 + base * l3) / base == l3);
}

/// One byte spells itself, and bytes written after others shift those by as many places.
pub proof fn law_bytes_are_digits(first: Seq<u8>, second: Seq<u8>, byte: u8)
    ensures
        be_value(seq![byte]) == byte as nat,
        be_value(first + second) == be_value(first) * pow(256, second.len()) + be_value(second),
    decreases second.len(),
{
    reveal(pow);
    assert(seq![byte].drop_last() =~= Seq::<u8>::empty());
    assert(seq![byte].last() == byte);
    assert(be_value(Seq::<u8>::empty()) == 0);
    if second.len() == 0 {
        assert(first + second =~= first);
        assert(pow(256, 0) == 1);
        assert(be_value(first) * 1 == be_value(first));
    } else {
        let shorter = second.drop_last();
        law_bytes_are_digits(first, shorter, byte);
        assert((first + second).drop_last() =~= first + shorter);
        assert((first + second).last() == second.last());
        let places = pow(256, shorter.len());
        assert(pow(256, second.len()) == 256 * places);
        assert(256 * (be_value(first) * places) == be_value(first) * (256 * places))
            by (nonlinear_arith);
    }
}

/// Copying costs the price of a word for each 32 bytes begun, and no more than gas can
/// count.
pub proof fn law_price_of_copying(params: GasParams, len: nat)
    ensures
        ({
            let exact = params.copy_per_word * ((len + 31) / 32);
            &&& exact <= u64::MAX ==> params.copy_price(len) == exact
            &&& exact > u64::MAX ==> params.copy_price(len) == u64::MAX
        }),
{
}

/// Memory of so many words costs so much for each, and their square divided. The product
/// and the square count no further than gas can, nor does the sum.
pub proof fn law_price_of_memory(params: GasParams, words: nat)
    requires
        params.memory_quadratic_reduction > 0,
    ensures
        ({
            let linear = params.memory_linear_cost * words;
            let square = (words * words) as int;
            let divisor = params.memory_quadratic_reduction as int;
            let price = params.memory_price(words) as int;
            &&& square <= u64::MAX && linear + square / divisor <= u64::MAX ==> price == linear
                + square / divisor
            &&& square <= u64::MAX && linear + square / divisor > u64::MAX ==> price == u64::MAX
            &&& square > u64::MAX && linear + u64::MAX as int / divisor <= u64::MAX ==> price
                == linear + u64::MAX as int / divisor
            &&& square > u64::MAX && linear + u64::MAX as int / divisor > u64::MAX ==> price
                == u64::MAX
        }),
{
    let square = words * words;
    let divisor = params.memory_quadratic_reduction as int;
    assert(0 <= square) by (nonlinear_arith)
        requires
            square == words * words,
    ;
    vstd::arithmetic::div_mod::lemma_div_pos_is_pos(square as int, divisor);
    vstd::arithmetic::div_mod::lemma_div_pos_is_pos(u64::MAX as int, divisor);
}

// ---- Models ----

/// The model of an execution shows all of it: each word on the stack, each byte of
/// memory, the gas left, and the outcome.
pub proof fn law_machine_shows_the_interpreter(interpreter: Interpreter)
    ensures
        interpreter@.stack.len() == interpreter.stack.data@.len(),
        forall|i: int|
            0 <= i < interpreter.stack.data@.len() ==> #[trigger] interpreter@.stack[i]
                == interpreter.stack.data@[i]@,
        interpreter@.memory == interpreter.memory.data@,
        interpreter@.gas == interpreter.gas.remaining,
        interpreter.action is None <==> interpreter@.outcome is None,
        interpreter.action is Some ==> {
            &&& interpreter@.outcome->0.result == interpreter.action->0.result
            &&& interpreter@.outcome->0.output == interpreter.action->0.output@
            &&& interpreter@.outcome->0.gas == interpreter.action->0.gas.remaining
        },
{
}

/// Addresses and hashes show their bytes.
pub proof fn law_addresses_and_hashes_show_their_bytes(address: Address, hash: B256)
    ensures
        address@ == address.bytes@,
        hash@ == hash.bytes@,
{
}

/// The context of a `Context` is its chain part, and what it keeps is the rest.
pub proof fn law_context_carries_its_chain_part<R>(before: Context<R>, after: Context<R>)
    ensures
        before.frame_tx() == before.chain,
        before.keeps_rest(&after) <==> before.rest == after.rest,
{
}

// ---- What is accepted ----

/// Reading is possible of any parameter of the transaction, of any frame that has
/// metadata, and of any frame at all that the transaction does not have. It needs nothing
/// where an opcode ends before it reads. Sizes other than that of data need nothing.
pub proof fn law_what_can_be_read(machine: Machine, context: FrameTxContext)
    ensures
        ({
            let n = machine.stack.len() as int;
            let id = machine.stack[n - 1];
            let index = machine.stack[n - 2];
            let readable = {
                ||| !context.active
                ||| n < 2
                ||| id <= 0x10
                ||| id > 0x15
                ||| index < context.frames@.len()
                ||| index >= context.frame_count
                ||| id == 0x15 && index >= context.current_frame_index
            };
            &&& readable ==> txparamload_ready(machine, context)
            &&& readable || id != 0x12 ==> txparamsize_ready(machine, context)
        }),
{
}

/// APPROVE takes any region of memory that ends where memory can, if there is a divisor
/// for its price, and any region that it cannot pay for. It needs nothing where it ends
/// before it looks at memory, and for no output.
pub proof fn law_what_can_be_approved(machine: Machine, context: FrameTxContext, params: GasParams)
    ensures
        ({
            let n = machine.stack.len() as int;
            let offset = machine.stack[n - 1];
            let len = machine.stack[n - 2];
            let priced = params.memory_quadratic_reduction > 0;
            let acceptable = {
                ||| !context.active
                ||| !in_verify_frame(context)
                ||| n < 3
                ||| len == 0
                ||| len > usize::MAX
                ||| offset > usize::MAX
                ||| priced && offset + len + 31 <= isize::MAX
                ||| priced && offset + len <= usize::MAX && growth(
                    params,
                    machine.memory.len(),
                    offset + len,
                ) > machine.gas
            };
            acceptable ==> approve_ready(machine, context, params)
        }),
{
}

/// TXPARAMCOPY takes any region of memory that ends where memory can, if there is a divisor
/// for its price, and any parameter that can be read. It needs nothing where it ends before
/// it looks at memory, and for no bytes.
pub proof fn law_what_can_be_copied(machine: Machine, context: FrameTxContext, params: GasParams)
    ensures
        ({
            let n = machine.stack.len() as int;
            let id = machine.stack[n - 1];
            let index = machine.stack[n - 2];
            let dest = machine.stack[n - 3];
            let len = machine.stack[n - 5];
            let readable = {
                ||| id <= 0x10
                ||| id > 0x15
                ||| index < context.frames@.len()
                ||| index >= context.frame_count
                ||| id == 0x15 && index >= context.current_frame_index
            };
            let priced = params.memory_quadratic_reduction > 0;
            let acceptable = {
                ||| !context.active
                ||| n < 5
                ||| len == 0
                ||| len > usize::MAX
                ||| dest > usize::MAX
                ||| params.copy_price(len) > machine.gas
                ||| priced && dest + len + 31 <= isize::MAX && readable
                ||| priced && dest + len <= usize::MAX && params.copy_price(len) + growth(
                    params,
                    machine.memory.len(),
                    dest + len,
                ) > machine.gas
            };
            acceptable ==> txparamcopy_ready(machine, context, params)
        }),
{
}

// ---- Tables ----

/// The approval rules, of whatever frame: which scopes are open, how the others are
/// answered, and what each records.
pub proof fn law_scopes(context: FrameTxContext)
    ensures
        context.verifying() <==> in_verify_frame(context),
        context.refusal(0) is None <==> !context.sender_approved,
        context.refusal(1) is None <==> context.sender_approved && !context.payer_approved,
        context.refusal(2) is None <==> !context.sender_approved && !context.payer_approved,
        forall|scope: nat|
            scope <= 2 && #[trigger] context.refusal(scope) is Some ==> context.refusal(scope)->0
                == InstructionResult::Revert,
        forall|scope: nat|
            scope > 2 ==> #[trigger] context.refusal(scope) == Some(
                InstructionResult::InvalidFEOpcode,
            ),
        context.granted(0) == (FrameTxContext {
            sender_approved: true,
            approve_called_current_frame: true,
            ..context
        }),
        context.granted(1) == (FrameTxContext {
            payer_approved: true,
            payer: context.frames@[context.current_frame_index as int].target,
            approve_called_current_frame: true,
            ..context
        }),
        context.granted(2) == (FrameTxContext {
            sender_approved: true,
            payer_approved: true,
            payer: context.sender,
            approve_called_current_frame: true,
            ..context
        }),
{
}

/// The parameters of the transaction, by number, whatever the index.
pub proof fn law_parameters_of_the_transaction(context: FrameTxContext, index: nat)
    ensures
        context.param(0x00, index) == Some(context.tx_type as nat),
        context.param(0x01, index) == Some(context.nonce as nat),
        context.param(0x02, index) == Some(be_value(context.sender.bytes@)),
        context.param(0x03, index) == Some(context.max_priority_fee_per_gas as nat),
        context.param(0x04, index) == Some(context.max_fee_per_gas as nat),
        context.param(0x05, index) == Some(context.max_fee_per_blob_gas as nat),
        context.param(0x06, index) == Some(context.max_cost@),
        context.param(0x07, index) == Some(context.blob_versioned_hashes@.len()),
        context.param(0x08, index) == Some(be_value(context.sig_hash.bytes@)),
        context.param(0x09, index) == Some(context.frame_count as nat),
        context.param(0x10, index) == Some(context.current_frame_index as nat),
{
}

/// The parameters of a frame, by number, with the size and the bytes of its data.
pub proof fn law_parameters_of_a_frame(context: FrameTxContext, index: nat)
    requires
        index < context.frame_count,
        index < context.frames@.len(),
    ensures
        ({
            let frame = context.frames@[index as int];
            let past = index < context.current_frame_index;
            &&& context.param(0x11, index) == Some(be_value(frame.target.bytes@))
            &&& context.param(0x12, index) == if frame.mode == 1 {
                Some(0nat)
            } else {
                Some(be_value(head(frame.data@)))
            }
            &&& context.param(0x13, index) == Some(frame.gas_limit as nat)
            &&& context.param(0x14, index) == Some(frame.mode as nat)
            &&& past && frame.status == Some(true) ==> context.param(0x15, index) == Some(1nat)
            &&& past && frame.status != Some(true) ==> context.param(0x15, index) == Some(0nat)
            &&& frame.mode == 1 ==> context.param_size(0x12, index) == Some(0nat)
            &&& frame.mode != 1 ==> context.param_size(0x12, index) == Some(frame.data@.len())
            &&& frame.mode == 1 ==> context.param_bytes(0x12, index) == Some(Seq::<u8>::empty())
            &&& frame.mode != 1 ==> context.param_bytes(0x12, index) == Some(frame.data@)
        }),
{
    let frame = context.frames@[index as int];
    let shown = window(frame.visible_data(), 0, 32);
    if frame.mode == 1 {
        lemma_be_value_leading_zeros(shown, Seq::<u8>::empty());
        assert(shown + Seq::<u8>::empty() =~= shown);
    } else {
        assert(shown =~= head(frame.data@));
    }
}

/// Which numbers and indices have a value, a size and bytes: those that name a parameter,
/// and no others. A parameter other than data has 32 bytes, which spell its value.
pub proof fn law_what_is_a_parameter(context: FrameTxContext, id: nat, index: nat)
    ensures
        context.param(id, index) is Some <==> names_parameter(context, id, index),
        context.param_size(id, index) is Some <==> names_parameter(context, id, index),
        context.param_bytes(id, index) is Some <==> names_parameter(context, id, index),
        id != 0x12 && names_parameter(context, id, index) ==> {
            &&& context.param_size(id, index) == Some(32nat)
            &&& context.param_bytes(id, index)->0.len() == 32
            &&& be_value(context.param_bytes(id, index)->0) == context.param(id, index)->0
        },
{
    if context.param(id, index) is Some {
        lemma_param_fits_a_word(context, id, index);
        lemma_be_bytes_spell_the_number(context.param(id, index)->0);
    }
}

// ---- All opcodes ----

/// Outside a frame transaction each opcode ends the execution as an unknown one, with
/// stack, memory, gas and context as they were.
pub proof fn law_unknown_outside_frame_transactions(
    machine: Machine,
    context: FrameTxContext,
    params: GasParams,
)
    requires
        !context.active,
    ensures
        approve_step(machine, context, params).0 == stops(
            machine,
            0,
            InstructionResult::OpcodeNotFound,
        ),
        approve_step(machine, context, params).1 == context,
        txparamload_step(machine, context) == stops(machine, 0, InstructionResult::OpcodeNotFound),
        txparamsize_step(machine, context) == stops(machine, 0, InstructionResult::OpcodeNotFound),
        txparamcopy_step(machine, context, params) == stops(
            machine,
            0,
            InstructionResult::OpcodeNotFound,
        ),
{
    assert(machine.stack.subrange(0, machine.stack.len() as int) =~= machine.stack);
}

/// With too few values on the stack, three for APPROVE, two for TXPARAMLOAD and
/// TXPARAMSIZE, five for TXPARAMCOPY, an opcode takes none of them.
pub proof fn law_too_few_operands(machine: Machine, context: FrameTxContext, params: GasParams)
    requires
        context.active,
    ensures
        in_verify_frame(context) && machine.stack.len() < 3 ==> approve_step(
            machine,
            context,
            params,
        ) == (stops(machine, 0, InstructionResult::StackUnderflow), context),
        machine.stack.len() < 2 ==> txparamload_step(machine, context) == stops(
            machine,
            0,
            InstructionResult::StackUnderflow,
        ),
        machine.stack.len() < 2 ==> txparamsize_step(machine, context) == stops(
            machine,
            0,
            InstructionResult::StackUnderflow,
        ),
        machine.stack.len() < 5 ==> txparamcopy_step(machine, context, params) == stops(
            machine,
            0,
            InstructionResult::StackUnderflow,
        ),
{
    assert(machine.stack.subrange(0, machine.stack.len() as int) =~= machine.stack);
}

// ---- APPROVE ----

/// APPROVE succeeds exactly in an active transaction, in a frame that is there and has
/// mode 1, with three operands, a region of memory that there can be and that is paid
/// for, and a scope that is open: 0 before the sender is approved, 1 after the sender and
/// before the payer, 2 before either.
pub proof fn law_when_approve_succeeds(machine: Machine, context: FrameTxContext, params: GasParams)
    requires
        approve_ready(machine, context, params),
    ensures
        ({
            let n = machine.stack.len() as int;
            let offset = machine.stack[n - 1];
            let len = machine.stack[n - 2];
            let scope = machine.stack[n - 3];
            let after = approve_step(machine, context, params).0;
            &&& after.outcome is Some
            &&& after.outcome->0.result == InstructionResult::Return <==> {
                &&& context.active
                &&& context.current_frame_index < context.frames@.len()
                &&& context.frames@[context.current_frame_index as int].mode == 1
                &&& n >= 3
                &&& len == 0 || offset + len <= usize::MAX && growth(
                    params,
                    machine.memory.len(),
                    offset + len,
                ) <= machine.gas
                &&& {
                    ||| scope == 0 && !context.sender_approved
                    ||| scope == 1 && context.sender_approved && !context.payer_approved
                    ||| scope == 2 && !context.sender_approved && !context.payer_approved
                }
            }
        }),
{
    let n = machine.stack.len() as int;
    if n >= 3 && context.active && in_verify_frame(context) {
        let len = machine.stack[n - 2];
        let offset = machine.stack[n - 1];
        lemma_popped(machine, 3);
        if 0 < len && offset + len <= usize::MAX {
            lemma_growth(machine.popped(3), params, offset, len);
        }
    }
}

/// An APPROVE that succeeds sets the approvals of its scope, sets the payer to the target
/// of the current frame for scope 1 and to the sender for scope 2, leaves its mark, and
/// changes nothing else of the transaction.
pub proof fn law_what_approve_records(machine: Machine, context: FrameTxContext, params: GasParams)
    ensures
        ({
            let scope = machine.stack[machine.stack.len() - 3];
            let (after, changed) = approve_step(machine, context, params);
            let target = context.frames@[context.current_frame_index as int].target;
            &&& after.outcome->0.result != InstructionResult::Return ==> changed == context
            &&& after.outcome->0.result == InstructionResult::Return ==> {
                &&& scope == 0 ==> changed == FrameTxContext {
                    sender_approved: true,
                    approve_called_current_frame: true,
                    ..context
                }
                &&& scope == 1 ==> changed == FrameTxContext {
                    payer_approved: true,
                    payer: target,
                    approve_called_current_frame: true,
                    ..context
                }
                &&& scope == 2 ==> changed == FrameTxContext {
                    sender_approved: true,
                    payer_approved: true,
                    payer: context.sender,
                    approve_called_current_frame: true,
                    ..context
                }
            }
        }),
{
}

/// An APPROVE that succeeds takes three operands, grows memory by whole words of zeros up
/// to the end of its region, pays for that and for nothing else, and hands out the region.
pub proof fn law_what_approve_returns(machine: Machine, context: FrameTxContext, params: GasParams)
    requires
        approve_ready(machine, context, params),
        approve_step(machine, context, params).0.outcome->0.result == InstructionResult::Return,
    ensures
        ({
            let n = machine.stack.len() as int;
            let offset = machine.stack[n - 1];
            let len = machine.stack[n - 2];
            let before = machine.memory;
            let after = approve_step(machine, context, params).0;
            let output = after.outcome->0.output;
            &&& after.stack == machine.stack.subrange(0, n - 3)
            &&& after.outcome->0.gas == after.gas
            &&& output.len() == len
            &&& forall|i: int|
                0 <= i < len ==> #[trigger] output[i] == (if offset + i < before.len() {
                    before[offset + i]
                } else {
                    0
                })
            &&& len == 0 ==> after.memory == before && after.gas == machine.gas
            &&& len > 0 ==> {
                &&& grown(before, after.memory, offset + len)
                &&& after.gas == machine.gas - growth(params, before.len(), offset + len)
            }
        }),
{
    let n = machine.stack.len() as int;
    let offset = machine.stack[n - 1];
    let len = machine.stack[n - 2];
    lemma_popped(machine, 3);
    if len > 0 {
        lemma_growth(machine.popped(3), params, offset, len);
    }
}

/// How APPROVE fails. Outside a VERIFY frame it is invalid and takes no operands. An
/// offset or a length that no machine integer holds, memory that cannot be paid for, and
/// a scope that is closed or unknown each have their own answer, without output.
pub proof fn law_how_approve_fails(machine: Machine, context: FrameTxContext, params: GasParams)
    requires
        approve_ready(machine, context, params),
        context.active,
    ensures
        ({
            let n = machine.stack.len() as int;
            let offset = machine.stack[n - 1];
            let len = machine.stack[n - 2];
            let scope = machine.stack[n - 3];
            let after = approve_step(machine, context, params).0;
            let closed = {
                ||| scope == 0 && context.sender_approved
                ||| scope == 1 && (!context.sender_approved || context.payer_approved)
                ||| scope == 2 && (context.sender_approved || context.payer_approved)
            };
            let too_large = len > usize::MAX || len > 0 && offset > usize::MAX;
            let too_dear = len > 0 && (offset + len > usize::MAX || growth(
                params,
                machine.memory.len(),
                offset + len,
            ) > machine.gas);
            &&& !in_verify_frame(context) ==> after == stops(
                machine,
                0,
                InstructionResult::InvalidFEOpcode,
            )
            &&& in_verify_frame(context) && n >= 3 ==> {
                &&& after.stack == machine.stack.subrange(0, n - 3)
                &&& too_large ==> after == stops(machine, 3, InstructionResult::InvalidOperandOOG)
                &&& !too_large && too_dear ==> after == stops(
                    machine,
                    3,
                    InstructionResult::MemoryOOG,
                )
                &&& !too_large && !too_dear && (closed || scope > 2) ==> {
                    &&& after.outcome == Some(
                        Outcome {
                            result: if closed {
                                InstructionResult::Revert
                            } else {
                                InstructionResult::InvalidFEOpcode
                            },
                            output: Seq::<u8>::empty(),
                            gas: after.gas,
                        },
                    )
                    &&& len == 0 ==> after.memory == machine.memory && after.gas == machine.gas
                    &&& len > 0 ==> grown(machine.memory, after.memory, offset + len) && after.gas
                        == machine.gas - growth(params, machine.memory.len(), offset + len)
                }
            }
        }),
{
    let n = machine.stack.len() as int;
    assert(machine.stack.subrange(0, n) =~= machine.stack);
    if n >= 3 && in_verify_frame(context) {
        let offset = machine.stack[n - 1];
        let len = machine.stack[n - 2];
        lemma_popped(machine, 3);
        if 0 < len && offset + len <= usize::MAX {
            lemma_growth(machine.popped(3), params, offset, len);
        }
    }
}

// ---- TXPARAMLOAD ----

/// TXPARAMLOAD of 0x00 to 0x09 and of 0x10 puts the field of the transaction by that
/// number in place of its operands, whatever the second is.
pub proof fn law_load_of_the_transaction(machine: Machine, context: FrameTxContext)
    requires
        context.active,
        2 <= machine.stack.len() <= 1025,
    ensures
        ({
            let id = machine.stack[machine.stack.len() - 1];
            let after = txparamload_step(machine, context);
            &&& id == 0x00 ==> after == answers(machine, 2, context.tx_type as nat)
            &&& id == 0x01 ==> after == answers(machine, 2, context.nonce as nat)
            &&& id == 0x02 ==> after == answers(machine, 2, be_value(context.sender.bytes@))
            &&& id == 0x03 ==> after == answers(
                machine,
                2,
                context.max_priority_fee_per_gas as nat,
            )
            &&& id == 0x04 ==> after == answers(machine, 2, context.max_fee_per_gas as nat)
            &&& id == 0x05 ==> after == answers(machine, 2, context.max_fee_per_blob_gas as nat)
            &&& id == 0x06 ==> after == answers(machine, 2, context.max_cost@)
            &&& id == 0x07 ==> after == answers(machine, 2, context.blob_versioned_hashes@.len())
            &&& id == 0x08 ==> after == answers(machine, 2, be_value(context.sig_hash.bytes@))
            &&& id == 0x09 ==> after == answers(machine, 2, context.frame_count as nat)
            &&& id == 0x10 ==> after == answers(machine, 2, context.current_frame_index as nat)
        }),
{
    lemma_popped(machine, 2);
}

/// TXPARAMLOAD of 0x11 to 0x15 puts the field by that number of the frame at the index in
/// place of its operands. Of data that is the word of its first 32 bytes, or zero in a
/// frame of mode 1. Of the status that is 1 if the frame succeeded, else 0.
pub proof fn law_load_of_a_frame(machine: Machine, context: FrameTxContext)
    requires
        context.active,
        2 <= machine.stack.len() <= 1025,
        machine.stack[machine.stack.len() - 2] < context.frame_count,
        machine.stack[machine.stack.len() - 2] < context.frames@.len(),
    ensures
        ({
            let id = machine.stack[machine.stack.len() - 1];
            let index = machine.stack[machine.stack.len() - 2];
            let frame = context.frames@[index as int];
            let after = txparamload_step(machine, context);
            &&& id == 0x11 ==> after == answers(machine, 2, be_value(frame.target.bytes@))
            &&& id == 0x12 && frame.mode == 1 ==> after == answers(machine, 2, 0)
            &&& id == 0x12 && frame.mode != 1 ==> after == answers(
                machine,
                2,
                be_value(head(frame.data@)),
            )
            &&& id == 0x13 ==> after == answers(machine, 2, frame.gas_limit as nat)
            &&& id == 0x14 ==> after == answers(machine, 2, frame.mode as nat)
            &&& id == 0x15 && index < context.current_frame_index && frame.status == Some(true)
                ==> after == answers(machine, 2, 1)
            &&& id == 0x15 && index < context.current_frame_index && frame.status != Some(true)
                ==> after == answers(machine, 2, 0)
        }),
{
    lemma_popped(machine, 2);
    law_parameters_of_a_frame(context, machine.stack[machine.stack.len() - 2]);
}

/// TXPARAMLOAD and TXPARAMSIZE take two operands. Where these name no parameter the opcode
/// is invalid; where they do and the stack is full without them, it overflows.
pub proof fn law_how_load_and_size_fail(machine: Machine, context: FrameTxContext)
    requires
        context.active,
        machine.stack.len() >= 2,
    ensures
        ({
            let n = machine.stack.len() as int;
            let named = names_parameter(context, machine.stack[n - 1], machine.stack[n - 2]);
            let loaded = txparamload_step(machine, context);
            let sized = txparamsize_step(machine, context);
            &&& !named ==> loaded == stops(machine, 2, InstructionResult::InvalidFEOpcode)
            &&& !named ==> sized == stops(machine, 2, InstructionResult::InvalidFEOpcode)
            &&& named && n - 2 >= 1024 ==> loaded == stops(
                machine,
                2,
                InstructionResult::StackOverflow,
            )
            &&& named && n - 2 >= 1024 ==> sized == stops(
                machine,
                2,
                InstructionResult::StackOverflow,
            )
        }),
{
    lemma_popped(machine, 2);
}

// ---- TXPARAMSIZE ----

/// TXPARAMSIZE puts 32 in place of operands that name a parameter other than data. For the
/// data of a frame it puts as many as there are bytes, or 0 in a frame of mode 1.
pub proof fn law_size_of_a_parameter(machine: Machine, context: FrameTxContext)
    requires
        context.active,
        2 <= machine.stack.len() <= 1025,
    ensures
        ({
            let id = machine.stack[machine.stack.len() - 1];
            let index = machine.stack[machine.stack.len() - 2];
            let frame = context.frames@[index as int];
            let after = txparamsize_step(machine, context);
            &&& id != 0x12 && names_parameter(context, id, index) ==> after == answers(
                machine,
                2,
                32,
            )
            &&& id == 0x12 && index < context.frame_count && index < context.frames@.len() ==> {
                &&& frame.mode == 1 ==> after == answers(machine, 2, 0)
                &&& frame.mode != 1 ==> after == answers(machine, 2, frame.data@.len())
            }
        }),
{
    lemma_popped(machine, 2);
}

// ---- TXPARAMCOPY ----

/// A TXPARAMCOPY of at least one byte goes through exactly where its operands name a
/// parameter and a region of memory that there can be, and the gas pays for the words
/// copied and the words added. Which frame is running plays no part, but for the status
/// of frames before it.
pub proof fn law_when_copy_goes_through(
    machine: Machine,
    context: FrameTxContext,
    params: GasParams,
)
    requires
        txparamcopy_ready(machine, context, params),
        context.active,
        machine.stack.len() >= 5,
        machine.stack[machine.stack.len() - 5] > 0,
        machine.outcome is None,
    ensures
        ({
            let n = machine.stack.len() as int;
            let dest = machine.stack[n - 3];
            let len = machine.stack[n - 5];
            let after = txparamcopy_step(machine, context, params);
            after.outcome is None <==> {
                &&& names_parameter(context, machine.stack[n - 1], machine.stack[n - 2])
                &&& dest + len <= usize::MAX
                &&& params.copy_price(len) <= machine.gas
                &&& params.copy_price(len) + growth(params, machine.memory.len(), dest + len)
                    <= machine.gas
            }
        }),
{
    let n = machine.stack.len() as int;
    let dest = machine.stack[n - 3];
    let len = machine.stack[n - 5];
    lemma_popped(machine, 5);
    if dest + len <= usize::MAX && params.copy_price(len) <= machine.gas {
        lemma_growth(machine.popped(5).charged(params.copy_price(len)), params, dest, len);
    }
}

/// A TXPARAMCOPY that goes through takes five operands, pays for the words copied and the
/// words added, grows memory by whole words of zeros up to the end of its region, and
/// changes no byte outside the region.
pub proof fn law_what_copy_changes(machine: Machine, context: FrameTxContext, params: GasParams)
    requires
        txparamcopy_ready(machine, context, params),
        context.active,
        machine.stack.len() >= 5,
        machine.stack[machine.stack.len() - 5] > 0,
        machine.outcome is None,
        txparamcopy_step(machine, context, params).outcome is None,
    ensures
        ({
            let n = machine.stack.len() as int;
            let dest = machine.stack[n - 3];
            let len = machine.stack[n - 5];
            let before = machine.memory;
            let after = txparamcopy_step(machine, context, params);
            let words = (dest + len + 31) / 32;
            &&& after.stack == machine.stack.subrange(0, n - 5)
            &&& after.gas == machine.gas - params.copy_price(len) - growth(
                params,
                before.len(),
                dest + len,
            )
            &&& dest + len <= after.memory.len()
            &&& after.memory.len() == if words > before.len() / 32 {
                32 * words
            } else {
                before.len()
            }
            &&& forall|i: int|
                0 <= i < after.memory.len() && !(dest <= i < dest + len)
                    ==> #[trigger] after.memory[i] == (if i < before.len() {
                    before[i]
                } else {
                    0
                })
        }),
{
    let n = machine.stack.len() as int;
    let dest = machine.stack[n - 3];
    let len = machine.stack[n - 5];
    lemma_popped(machine, 5);
    lemma_growth(machine.popped(5).charged(params.copy_price(len)), params, dest, len);
}

/// What a TXPARAMCOPY of frame data writes: byte for byte the data of the frame at the
/// index, from the source offset on, and zeros past its end. Of a frame of mode 1 it
/// writes zeros only.
pub proof fn law_copy_of_frame_data(machine: Machine, context: FrameTxContext, params: GasParams)
    requires
        txparamcopy_ready(machine, context, params),
        context.active,
        machine.stack.len() >= 5,
        machine.stack[machine.stack.len() - 1] == 0x12,
        machine.stack[machine.stack.len() - 5] > 0,
        machine.outcome is None,
        txparamcopy_step(machine, context, params).outcome is None,
    ensures
        ({
            let n = machine.stack.len() as int;
            let frame = context.frames@[machine.stack[n - 2] as int];
            let dest = machine.stack[n - 3];
            let src = machine.stack[n - 4];
            let len = machine.stack[n - 5];
            let after = txparamcopy_step(machine, context, params).memory;
            forall|i: int|
                0 <= i < len ==> #[trigger] after[dest + i] == (if frame.mode != 1 && src + i
                    < frame.data@.len() {
                    frame.data@[src + i]
                } else {
                    0
                })
        }),
{
    let n = machine.stack.len() as int;
    let dest = machine.stack[n - 3];
    let len = machine.stack[n - 5];
    lemma_popped(machine, 5);
    lemma_growth(machine.popped(5).charged(params.copy_price(len)), params, dest, len);
}

/// TXPARAMCOPY and TXPARAMLOAD agree: 32 bytes copied from the start of a parameter spell
/// the word that TXPARAMLOAD puts on the stack for it.
pub proof fn law_copied_bytes_spell_the_loaded_word(
    copying: Machine,
    loading: Machine,
    context: FrameTxContext,
    params: GasParams,
)
    requires
        txparamcopy_ready(copying, context, params),
        context.active,
        copying.stack.len() >= 5,
        copying.stack[copying.stack.len() - 4] == 0,
        copying.stack[copying.stack.len() - 5] == 32,
        copying.outcome is None,
        txparamcopy_step(copying, context, params).outcome is None,
        2 <= loading.stack.len() <= 1025,
        loading.stack[loading.stack.len() - 1] == copying.stack[copying.stack.len() - 1],
        loading.stack[loading.stack.len() - 2] == copying.stack[copying.stack.len() - 2],
    ensures
        ({
            let dest = copying.stack[copying.stack.len() - 3] as int;
            let written = txparamcopy_step(copying, context, params).memory.subrange(
                dest,
                dest + 32,
            );
            txparamload_step(loading, context).stack.last() == be_value(written)
        }),
{
    lemma_popped(loading, 2);
    crate::laws::law_load_agrees_with_copy(copying, context, params);
}

/// All copies of one parameter show the same bytes: what two of them write for one place
/// of it is the same, wherever each starts, ends and writes to. Past the 32nd byte of a
/// parameter other than data they write zeros.
pub proof fn law_copies_of_one_parameter_agree(
    first: Machine,
    second: Machine,
    context: FrameTxContext,
    params: GasParams,
    i: nat,
    j: nat,
)
    requires
        txparamcopy_ready(first, context, params),
        txparamcopy_ready(second, context, params),
        context.active,
        first.stack.len() >= 5,
        second.stack.len() >= 5,
        first.outcome is None,
        second.outcome is None,
        txparamcopy_step(first, context, params).outcome is None,
        txparamcopy_step(second, context, params).outcome is None,
        first.stack[first.stack.len() - 1] == second.stack[second.stack.len() - 1],
        first.stack[first.stack.len() - 2] == second.stack[second.stack.len() - 2],
        i < first.stack[first.stack.len() - 5],
        j < second.stack[second.stack.len() - 5],
        first.stack[first.stack.len() - 4] + i == second.stack[second.stack.len() - 4] + j,
    ensures
        ({
            let one = txparamcopy_step(first, context, params).memory;
            let other = txparamcopy_step(second, context, params).memory;
            let written = one[(first.stack[first.stack.len() - 3] + i) as int];
            &&& written == other[(second.stack[second.stack.len() - 3] + j) as int]
            &&& first.stack[first.stack.len() - 1] != 0x12 && first.stack[first.stack.len() - 4] + i
                >= 32 ==> written == 0
        }),
{
    lemma_popped(first, 5);
    lemma_popped(second, 5);
    crate::laws::law_copy_writes_only_its_destination(first, context, params);
    crate::laws::law_copy_writes_only_its_destination(second, context, params);
    let id = first.stack[first.stack.len() - 1];
    let index = first.stack[first.stack.len() - 2];
    if id != 0x12 {
        lemma_be_value_of_digits(context.param(id, index)->0, 32);
    }
}

/// TXPARAMSIZE tells how much there is to copy: a TXPARAMCOPY of frame data from its start,
/// of as many bytes as the word that TXPARAMSIZE puts on the stack, writes the whole data.
pub proof fn law_sized_copy_writes_the_whole_data(
    sizing: Machine,
    copying: Machine,
    context: FrameTxContext,
    params: GasParams,
)
    requires
        txparamcopy_ready(copying, context, params),
        context.active,
        2 <= sizing.stack.len() <= 1025,
        sizing.stack[sizing.stack.len() - 1] == 0x12,
        sizing.stack[sizing.stack.len() - 2] < context.frame_count,
        sizing.stack[sizing.stack.len() - 2] < context.frames@.len(),
        copying.stack.len() >= 5,
        copying.stack[copying.stack.len() - 1] == 0x12,
        copying.stack[copying.stack.len() - 2] == sizing.stack[sizing.stack.len() - 2],
        copying.stack[copying.stack.len() - 4] == 0,
        copying.stack[copying.stack.len() - 5] == txparamsize_step(sizing, context).stack.last(),
        copying.stack[copying.stack.len() - 5] > 0,
        copying.outcome is None,
        txparamcopy_step(copying, context, params).outcome is None,
    ensures
        ({
            let frame = context.frames@[sizing.stack[sizing.stack.len() - 2] as int];
            let dest = copying.stack[copying.stack.len() - 3] as int;
            let after = txparamcopy_step(copying, context, params).memory;
            after.subrange(dest, dest + frame.data@.len()) == frame.data@
        }),
{
    law_size_of_a_parameter(sizing, context);
    law_what_copy_changes(copying, context, params);
    law_copy_of_frame_data(copying, context, params);
    let frame = context.frames@[sizing.stack[sizing.stack.len() - 2] as int];
    let dest = copying.stack[copying.stack.len() - 3] as int;
    let after = txparamcopy_step(copying, context, params).memory;
    let written = after.subrange(dest, dest + frame.data@.len());
    assert forall|i: int| 0 <= i < frame.data@.len() implies written[i] == frame.data@[i] by {
        assert(written[i] == after[dest + i]);
    }
    assert(written =~= frame.data@);
}

/// How TXPARAMCOPY does not go through. A length of 0 only takes the operands. A length or
/// a destination that no machine integer holds costs nothing. Words that cannot be paid
/// for cost nothing. Memory that cannot be paid for comes after the words are paid. That
/// the operands name no parameter shows last, with both paid.
pub proof fn law_how_copy_fails(machine: Machine, context: FrameTxContext, params: GasParams)
    requires
        txparamcopy_ready(machine, context, params),
        context.active,
        machine.stack.len() >= 5,
    ensures
        ({
            let n = machine.stack.len() as int;
            let dest = machine.stack[n - 3];
            let len = machine.stack[n - 5];
            let words = params.copy_price(len);
            let added = growth(params, machine.memory.len(), dest + len);
            let after = txparamcopy_step(machine, context, params);
            &&& len == 0 ==> after == Machine {
                stack: machine.stack.subrange(0, n - 5),
                ..machine
            }
            &&& len > 0 && (len > usize::MAX || dest > usize::MAX) ==> after == stops(
                machine,
                5,
                InstructionResult::InvalidOperandOOG,
            )
            &&& 0 < len <= usize::MAX && dest <= usize::MAX ==> {
                &&& words > machine.gas ==> after == stops(machine, 5, InstructionResult::OutOfGas)
                &&& words <= machine.gas && (dest + len > usize::MAX || words + added > machine.gas)
                    ==> after == stops(
                    Machine { gas: (machine.gas - words) as nat, ..machine },
                    5,
                    InstructionResult::MemoryOOG,
                )
                &&& dest + len <= usize::MAX && words + added <= machine.gas && words <= machine.gas
                    && !names_parameter(context, machine.stack[n - 1], machine.stack[n - 2]) ==> {
                    &&& after.outcome == Some(
                        Outcome {
                            result: InstructionResult::InvalidFEOpcode,
                            output: Seq::<u8>::empty(),
                            gas: after.gas,
                        },
                    )
                    &&& after.gas == machine.gas - words - added
                    &&& after.stack == machine.stack.subrange(0, n - 5)
                    &&& grown(machine.memory, after.memory, dest + len)
                }
            }
        }),
{
    let n = machine.stack.len() as int;
    let dest = machine.stack[n - 3];
    let len = machine.stack[n - 5];
    lemma_popped(machine, 5);
    if 0 < len && dest + len <= usize::MAX && params.copy_price(len) <= machine.gas {
        lemma_growth(machine.popped(5).charged(params.copy_price(len)), params, dest, len);
    }
}

// ---- Lemmas ----

/// A machine without some of its values keeps the ones below.
proof fn lemma_popped(machine: Machine, count: int)
    requires
        0 <= count <= machine.stack.len(),
    ensures
        machine.popped(count).stack == machine.stack.subrange(0, machine.stack.len() - count),
        machine.popped(count) == (Machine { stack: machine.popped(count).stack, ..machine }),
{
}

/// The price of expansion is the price of growth.
proof fn lemma_growth(machine: Machine, params: GasParams, offset: nat, len: nat)
    requires
        offset + len <= usize::MAX,
        machine.expansion_fits(params, offset, len),
    ensures
        machine.expansion_cost(params, offset, len) == growth(
            params,
            machine.memory.len(),
            offset + len,
        ),
        growth(params, machine.memory.len(), offset + len) >= 0,
{
    if (offset + len + 31) / 32 > machine.memory.len() / 32 {
        lemma_memory_price_monotone(
            params,
            machine.memory.len() / 32,
            (offset + len + 31) / 32,
        );
    }
}

} // verus!
