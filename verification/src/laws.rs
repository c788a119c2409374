//! What holds of the opcodes taken together. Every statement is about the step
//! functions and tables that the opcodes' own contracts are written in.
use vstd::prelude::*;

use crate::context::{FrameInfo, FrameTxContext, VERIFY_MODE};
use crate::frame_tx::{
    approve_ready, approve_step, txparamcopy_ready, txparamcopy_step, txparamload_ready,
    txparamload_step, txparamsize_ready, txparamsize_step,
};
use crate::gas::GasParams;
use crate::interpreter::{InstructionResult, Machine};
use crate::memory::window;
use crate::params::lemma_param_fits_a_word;
use crate::stack::STACK_LIMIT;
use crate::word::{be_value, lemma_be_bytes_spell_the_number, lemma_be_value_of_digits};

verus! {

/// Whether an APPROVE that left `machine` behind succeeded.
pub open spec fn approved(machine: Machine) -> bool {
    machine.outcome is Some && machine.outcome->0.result == InstructionResult::Return
}

/// Whether two frames differ at most in data that is not visible.
pub open spec fn look_alike(left: FrameInfo, right: FrameInfo) -> bool {
    &&& left.mode == right.mode
    &&& left.target == right.target
    &&& left.gas_limit == right.gas_limit
    &&& left.status == right.status
    &&& left.mode == VERIFY_MODE || left.data@ == right.data@
}

/// Whether two contexts differ at most in the data of VERIFY frames.
pub open spec fn same_but_verify_data(left: FrameTxContext, right: FrameTxContext) -> bool {
    &&& left == (FrameTxContext { frames: left.frames, ..right })
    &&& left.frames@.len() == right.frames@.len()
    &&& forall|i: int|
        0 <= i < left.frames@.len() ==> look_alike(#[trigger] left.frames@[i], right.frames@[i])
}

/// Outside a frame transaction every one of the opcodes is an unknown one: it ends
/// the execution and changes nothing else.
pub proof fn law_inactive_opcodes_are_unknown(
    machine: Machine,
    context: FrameTxContext,
    params: GasParams,
)
    requires
        !context.active,
    ensures
        approve_step(machine, context, params) == (
            machine.halted(InstructionResult::OpcodeNotFound),
            context,
        ),
        txparamload_step(machine, context) == machine.halted(InstructionResult::OpcodeNotFound),
        txparamsize_step(machine, context) == machine.halted(InstructionResult::OpcodeNotFound),
        txparamcopy_step(machine, context, params) == machine.halted(
            InstructionResult::OpcodeNotFound,
        ),
{
}

/// An APPROVE always ends the execution. One that does not succeed leaves the
/// context as it was. One that succeeds ran in a VERIFY frame, and leaves its mark.
pub proof fn law_refused_approve_changes_no_context(
    machine: Machine,
    context: FrameTxContext,
    params: GasParams,
)
    ensures
        ({
            let (after, changed) = approve_step(machine, context, params);
            &&& after.outcome is Some
            &&& !approved(after) ==> changed == context
            &&& approved(after) ==> {
                &&& context.active
                &&& context.verifying()
                &&& changed.approve_called_current_frame
            }
        }),
{
}

/// An APPROVE that succeeds ends the execution as RETURN does: its output is the
/// region of memory that its operands name, memory keeps what it held, and the only
/// gas spent is for memory that the region adds.
pub proof fn law_approve_ends_like_return(
    machine: Machine,
    context: FrameTxContext,
    params: GasParams,
)
    requires
        approve_ready(machine, context, params),
        approved(approve_step(machine, context, params).0),
    ensures
        ({
            let after = approve_step(machine, context, params).0;
            let offset = machine.operand(0);
            let len = machine.operand(1);
            &&& after.stack == machine.popped(3).stack
            &&& machine.memory.is_prefix_of(after.memory)
            &&& after.outcome->0.gas == after.gas
            &&& len == 0 ==> {
                &&& after.outcome->0.output == Seq::<u8>::empty()
                &&& after.gas == machine.gas
            }
            &&& len > 0 ==> {
                &&& offset + len <= after.memory.len()
                &&& after.outcome->0.output == after.memory.subrange(
                    offset as int,
                    (offset + len) as int,
                )
                &&& machine.gas - after.gas == machine.expansion_cost(params, offset, len)
            }
        }),
{
}

/// No APPROVE withdraws an approval or replaces an approved payer, and none
/// touches anything but the approvals, the payer and its own mark.
pub proof fn law_approvals_are_kept(machine: Machine, context: FrameTxContext, params: GasParams)
    ensures
        ({
            let changed = approve_step(machine, context, params).1;
            &&& context.sender_approved ==> changed.sender_approved
            &&& context.payer_approved ==> changed.payer_approved && changed.payer == context.payer
            &&& changed == (FrameTxContext {
                sender_approved: changed.sender_approved,
                payer_approved: changed.payer_approved,
                payer: changed.payer,
                approve_called_current_frame: changed.approve_called_current_frame,
                ..context
            })
        }),
{
}

/// If the payer is approved only together with or after the sender, that stays so.
pub proof fn law_payer_is_approved_after_sender(
    machine: Machine,
    context: FrameTxContext,
    params: GasParams,
)
    requires
        context.payer_approved ==> context.sender_approved,
    ensures
        ({
            let changed = approve_step(machine, context, params).1;
            changed.payer_approved ==> changed.sender_approved
        }),
{
}

/// A payer that an APPROVE approved is the current frame's target or the sender,
/// by the scope of that APPROVE.
pub proof fn law_payer_follows_scope(machine: Machine, context: FrameTxContext, params: GasParams)
    ensures
        ({
            let (after, changed) = approve_step(machine, context, params);
            let scope = machine.operand(2);
            &&& approved(after) && scope == 0 ==> changed.payer == context.payer
                && changed.payer_approved == context.payer_approved
            &&& approved(after) && scope == 1 ==> changed.payer_approved && changed.payer
                == context.frames@[context.current_frame_index as int].target
            &&& approved(after) && scope == 2 ==> changed.payer_approved && changed.payer
                == context.sender
        }),
{
}

/// A scope is approved at most once: after an APPROVE that succeeded, another of
/// the same scope, or of scope 2, does not, whatever frame it runs in.
pub proof fn law_no_scope_is_approved_twice(
    first: Machine,
    context: FrameTxContext,
    second: Machine,
    later: FrameTxContext,
    params: GasParams,
)
    requires
        approved(approve_step(first, context, params).0),
        later.sender_approved == approve_step(first, context, params).1.sender_approved,
        later.payer_approved == approve_step(first, context, params).1.payer_approved,
        second.operand(2) == first.operand(2) || second.operand(2) == 2,
    ensures
        !approved(approve_step(second, later, params).0),
        approve_step(second, later, params).1 == later,
{
}

/// Once sender and payer are approved no APPROVE succeeds.
pub proof fn law_nothing_is_left_to_approve(
    machine: Machine,
    context: FrameTxContext,
    params: GasParams,
)
    requires
        context.sender_approved,
        context.payer_approved,
    ensures
        !approved(approve_step(machine, context, params).0),
        approve_step(machine, context, params).1 == context,
{
}

/// Whether `contexts` are what APPROVEs on `machines`, one after the other, can find.
/// The first finds no approval, and each later one the approvals that the one before
/// it left. All else may change in between.
pub open spec fn approval_run(
    machines: Seq<Machine>,
    contexts: Seq<FrameTxContext>,
    params: GasParams,
) -> bool {
    &&& machines.len() == contexts.len()
    &&& contexts.len() > 0 ==> !contexts[0].sender_approved && !contexts[0].payer_approved
    &&& forall|i: int|
        0 < i < contexts.len() ==> {
            let left = approve_step(machines[i - 1], contexts[i - 1], params).1;
            &&& (#[trigger] contexts[i]).sender_approved == left.sender_approved
            &&& contexts[i].payer_approved == left.payer_approved
        }
}

/// The scopes of those APPROVEs of a run that succeed, in order.
pub open spec fn approved_scopes(
    machines: Seq<Machine>,
    contexts: Seq<FrameTxContext>,
    params: GasParams,
) -> Seq<nat>
    decreases machines.len(),
{
    if machines.len() == 0 {
        Seq::<nat>::empty()
    } else {
        let before = approved_scopes(machines.drop_last(), contexts.drop_last(), params);
        if approved(approve_step(machines.last(), contexts.last(), params).0) {
            before.push(machines.last().operand(2))
        } else {
            before
        }
    }
}

/// Over any run of APPROVEs the scopes that succeed are none, 0 alone, 0 and then 1,
/// or 2 alone. The approvals that the run leaves are those of these scopes.
pub proof fn law_scopes_of_any_run(
    machines: Seq<Machine>,
    contexts: Seq<FrameTxContext>,
    params: GasParams,
)
    requires
        approval_run(machines, contexts, params),
    ensures
        ({
            let scopes = approved_scopes(machines, contexts, params);
            &&& {
                ||| scopes == Seq::<nat>::empty()
                ||| scopes == seq![0nat]
                ||| scopes == seq![0nat, 1nat]
                ||| scopes == seq![2nat]
            }
            &&& machines.len() > 0 ==> {
                let left = approve_step(machines.last(), contexts.last(), params).1;
                &&& left.sender_approved == (scopes.len() > 0)
                &&& left.payer_approved == (scopes == seq![0nat, 1nat] || scopes == seq![2nat])
            }
        }),
    decreases machines.len(),
{
    if machines.len() > 0 {
        let earlier = machines.drop_last();
        let found = contexts.drop_last();
        assert(approval_run(earlier, found, params)) by {
            assert forall|i: int| 0 < i < found.len() implies {
                let left = approve_step(earlier[i - 1], found[i - 1], params).1;
                &&& (#[trigger] found[i]).sender_approved == left.sender_approved
                &&& found[i].payer_approved == left.payer_approved
            } by {
                assert(found[i] == contexts[i]);
            }
        }
        law_scopes_of_any_run(earlier, found, params);
        let before = approved_scopes(earlier, found, params);
        let scope = machines.last().operand(2);
        assert(contexts[contexts.len() - 1] == contexts.last());
        assert(before.len() == 0 ==> before.push(scope) =~= seq![scope]);
        assert(before == seq![0nat] ==> before.push(scope) =~= seq![0nat, scope]);
        assert(seq![0nat].len() == 1 && seq![2nat].len() == 1 && seq![0nat, 1nat].len() == 2);
        assert(seq![0nat][0] == 0 && seq![2nat][0] == 2);
    }
}

/// Approving the sender and then the payer approves what scope 2 approves. Only
/// the payer differs: the frame's target in place of the sender.
pub proof fn law_two_approvals_make_the_combined_one(context: FrameTxContext)
    requires
        !context.sender_approved,
        !context.payer_approved,
    ensures
        context.refusal(0) is None,
        context.granted(0).refusal(1) is None,
        context.refusal(2) is None,
        context.granted(0).granted(1) == (FrameTxContext {
            payer: context.frames@[context.current_frame_index as int].target,
            ..context.granted(2)
        }),
{
}

/// The data of VERIFY frames is opaque: no opcode does to the machine what tells
/// apart two transactions that differ only there.
pub proof fn law_verify_data_is_opaque(
    machine: Machine,
    left: FrameTxContext,
    right: FrameTxContext,
    params: GasParams,
)
    requires
        same_but_verify_data(left, right),
    ensures
        approve_step(machine, left, params).0 == approve_step(machine, right, params).0,
        txparamload_ready(machine, left) ==> txparamload_step(machine, left) == txparamload_step(
            machine,
            right,
        ),
        txparamsize_ready(machine, left) ==> txparamsize_step(machine, left) == txparamsize_step(
            machine,
            right,
        ),
        txparamcopy_ready(machine, left, params) ==> txparamcopy_step(machine, left, params)
            == txparamcopy_step(machine, right, params),
{
    let current = left.current_frame_index as int;
    assert(current < left.frames@.len() ==> look_alike(
        left.frames@[current],
        right.frames@[current],
    ));
    let index = machine.operand(1) as int;
    assert(index < left.frames@.len() ==> look_alike(left.frames@[index], right.frames@[index]));
}

/// A parameter has a size if and only if it has a value, and if and only if it has
/// bytes, of which there are as many as the size says. Only frame data has a size
/// other than 32.
pub proof fn law_size_value_and_bytes_go_together(context: FrameTxContext, id: nat, index: nat)
    ensures
        context.param(id, index) is Some <==> context.param_size(id, index) is Some,
        context.param(id, index) is Some <==> context.param_bytes(id, index) is Some,
        context.param_bytes(id, index) is Some ==> context.param_size(id, index) == Some(
            context.param_bytes(id, index)->0.len(),
        ),
        context.param_size(id, index) is Some && id != 0x12 ==> context.param_size(id, index)
            == Some(32nat),
{
    if id != 0x12 && context.param(id, index) is Some {
        lemma_be_value_of_digits(context.param(id, index)->0, 32);
    }
}

/// TXPARAMLOAD and TXPARAMSIZE end the execution on the same operands, and then in
/// the same way.
pub proof fn law_load_and_size_halt_together(machine: Machine, context: FrameTxContext)
    ensures
        !context.active || machine.stack.len() < 2 || context.param(
            machine.operand(0),
            machine.operand(1),
        ) is None ==> txparamload_step(machine, context) == txparamsize_step(machine, context),
        machine.stack.len() <= STACK_LIMIT && machine.outcome is None ==> (txparamload_step(
            machine,
            context,
        ).outcome is Some <==> txparamsize_step(machine, context).outcome is Some),
{
}

/// Numbers 0x0A to 0x0F and those above 0x15 stand for no parameter: reading one ends
/// the execution, and copying one does not go through.
pub proof fn law_reserved_numbers_stand_for_nothing(
    machine: Machine,
    context: FrameTxContext,
    params: GasParams,
)
    requires
        context.active,
        machine.stack.len() >= 2,
        0x0A <= machine.operand(0) <= 0x0F || machine.operand(0) > 0x15,
    ensures
        txparamload_step(machine, context) == machine.popped(2).halted(
            InstructionResult::InvalidFEOpcode,
        ),
        txparamsize_step(machine, context) == machine.popped(2).halted(
            InstructionResult::InvalidFEOpcode,
        ),
        !copied(machine, context, params),
{
}

/// Nothing can be read of a frame that the transaction does not have, nor the
/// status of a frame that is not past.
pub proof fn law_only_frames_of_the_transaction_are_read(
    context: FrameTxContext,
    id: nat,
    index: nat,
)
    requires
        0x11 <= id <= 0x15,
        index >= context.frame_count || id == 0x15 && index >= context.current_frame_index,
    ensures
        context.param(id, index) is None,
        context.param_size(id, index) is None,
        context.param_bytes(id, index) is None,
{
}

/// Reading spends no gas and touches no memory, except for copying.
pub proof fn law_reading_is_free(machine: Machine, context: FrameTxContext)
    ensures
        txparamload_step(machine, context).gas == machine.gas,
        txparamload_step(machine, context).memory == machine.memory,
        txparamsize_step(machine, context).gas == machine.gas,
        txparamsize_step(machine, context).memory == machine.memory,
{
}

/// Whether a TXPARAMCOPY of at least one byte went through.
pub open spec fn copied(machine: Machine, context: FrameTxContext, params: GasParams) -> bool {
    &&& context.active
    &&& machine.stack.len() >= 5
    &&& machine.operand(4) > 0
    &&& machine.outcome is None
    &&& txparamcopy_step(machine, context, params).outcome is None
}

/// A copy that goes through is of a parameter that there is. It writes the requested
/// bytes at the destination, zeros past the end of the parameter, and leaves every other byte of memory as it was; bytes
/// of new memory are zero.
pub proof fn law_copy_writes_only_its_destination(
    machine: Machine,
    context: FrameTxContext,
    params: GasParams,
)
    requires
        txparamcopy_ready(machine, context, params),
        copied(machine, context, params),
    ensures
        ({
            let before = machine.memory;
            let after = txparamcopy_step(machine, context, params).memory;
            let dest = machine.operand(2);
            let src = machine.operand(3);
            let len = machine.operand(4);
            let bytes = context.param_bytes(machine.operand(0), machine.operand(1));
            let data = bytes->0;
            &&& bytes is Some
            &&& before.len() <= after.len()
            &&& dest + len <= after.len()
            &&& forall|i: int|
                dest <= i < dest + len ==> #[trigger] after[i] == (if src + (i - dest)
                    < data.len() {
                    data[src + (i - dest)]
                } else {
                    0
                })
            &&& forall|i: int|
                0 <= i < after.len() && !(dest <= i < dest + len) ==> #[trigger] after[i] == (if i
                    < before.len() {
                    before[i]
                } else {
                    0
                })
        }),
{
}

/// What a copy of 32 bytes from the start of a parameter puts into memory spells the
/// word that TXPARAMLOAD gives for that parameter.
pub proof fn law_load_agrees_with_copy(machine: Machine, context: FrameTxContext, params: GasParams)
    requires
        txparamcopy_ready(machine, context, params),
        copied(machine, context, params),
        machine.operand(3) == 0,
        machine.operand(4) == 32,
    ensures
        ({
            let after = txparamcopy_step(machine, context, params).memory;
            let dest = machine.operand(2) as int;
            context.param(machine.operand(0), machine.operand(1)) == Some(
                be_value(after.subrange(dest, dest + 32)),
            )
        }),
{
    law_copy_writes_only_its_destination(machine, context, params);
    let id = machine.operand(0);
    let index = machine.operand(1);
    let after = txparamcopy_step(machine, context, params).memory;
    let dest = machine.operand(2) as int;
    let data = context.param_bytes(id, index)->0;
    assert(after.subrange(dest, dest + 32) =~= window(data, 0, 32));
    if id != 0x12 {
        lemma_param_fits_a_word(context, id, index);
        lemma_be_bytes_spell_the_number(context.param(id, index)->0);
        assert(window(data, 0, 32) =~= data);
    }
}

/// Copying as many bytes as TXPARAMSIZE gives, from the start, yields the parameter,
/// all of it and nothing else. For frame data that is the data itself.
pub proof fn law_size_and_copy_give_all_bytes(
    machine: Machine,
    context: FrameTxContext,
    params: GasParams,
)
    requires
        txparamcopy_ready(machine, context, params),
        copied(machine, context, params),
        machine.operand(3) == 0,
        Some(machine.operand(4)) == context.param_size(machine.operand(0), machine.operand(1)),
    ensures
        ({
            let after = txparamcopy_step(machine, context, params).memory;
            let dest = machine.operand(2) as int;
            let len = machine.operand(4) as int;
            let written = after.subrange(dest, dest + len);
            &&& Some(written) == context.param_bytes(machine.operand(0), machine.operand(1))
            &&& machine.operand(0) == 0x12 ==> written == context.frame(
                machine.operand(1),
            )->0.data@
        }),
{
    law_copy_writes_only_its_destination(machine, context, params);
    law_size_value_and_bytes_go_together(context, machine.operand(0), machine.operand(1));
    let after = txparamcopy_step(machine, context, params).memory;
    let dest = machine.operand(2) as int;
    let len = machine.operand(4) as int;
    assert(after.subrange(dest, dest + len) =~= context.param_bytes(
        machine.operand(0),
        machine.operand(1),
    )->0);
}

/// A copy of no bytes takes its operands off the stack and does nothing else,
/// whatever they are.
pub proof fn law_copy_of_nothing_does_nothing(
    machine: Machine,
    context: FrameTxContext,
    params: GasParams,
)
    requires
        context.active,
        machine.stack.len() >= 5,
        machine.operand(4) == 0,
    ensures
        txparamcopy_step(machine, context, params) == machine.popped(5),
{
}

/// A copy that goes through costs the price of its words and the price of the
/// memory it adds, no more and no less.
pub proof fn law_copy_pays_for_words_and_memory(
    machine: Machine,
    context: FrameTxContext,
    params: GasParams,
)
    requires
        copied(machine, context, params),
    ensures
        ({
            let after = txparamcopy_step(machine, context, params);
            machine.gas - after.gas == params.copy_price(machine.operand(4))
                + machine.expansion_cost(params, machine.operand(2), machine.operand(4))
        }),
{
}

/// No opcode adds gas, takes memory away, or leaves more than the stack's limit.
pub proof fn law_machine_limits_are_kept(
    machine: Machine,
    context: FrameTxContext,
    params: GasParams,
)
    requires
        machine.stack.len() <= STACK_LIMIT,
    ensures
        within_limits(machine, approve_step(machine, context, params).0),
        within_limits(machine, txparamload_step(machine, context)),
        within_limits(machine, txparamsize_step(machine, context)),
        within_limits(machine, txparamcopy_step(machine, context, params)),
{
}

/// Whether `after` has no more gas and no less memory than `before`, and a stack
/// within its limit.
pub open spec fn within_limits(before: Machine, after: Machine) -> bool {
    &&& after.gas <= before.gas
    &&& after.memory.len() >= before.memory.len()
    &&& after.stack.len() <= STACK_LIMIT
}

} // verus!
