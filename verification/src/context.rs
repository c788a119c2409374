//! The transaction-scoped state that the frame opcodes read and write.
use vstd::prelude::*;

use crate::interpreter::InstructionResult;
use crate::primitives::{Address, B256};
use crate::word::U256;

verus! {

/// Mode of a frame that verifies: the only one that may approve, and the one
/// whose data no opcode shows.
pub const VERIFY_MODE: u8 = 1;

/// Metadata for a single frame within a frame transaction.
#[derive(Clone, Debug)]
pub struct FrameInfo {
    /// Frame mode: 0=DEFAULT, 1=VERIFY, 2=SENDER
    pub mode: u8,
    /// Frame target address.
    pub target: Address,
    /// Frame gas limit.
    pub gas_limit: u64,
    /// Frame calldata.
    pub data: Vec<u8>,
    /// Execution status: None=not yet executed, Some(true)=success, Some(false)=fail
    pub status: Option<bool>,
}

impl FrameInfo {
    /// What opcodes see of the frame's data: nothing in a VERIFY frame.
    pub open spec fn visible_data(self) -> Seq<u8> {
        if self.mode == VERIFY_MODE {
            Seq::<u8>::empty()
        } else {
            self.data@
        }
    }
}

impl Default for FrameInfo {
    fn default() -> (frame: FrameInfo)
        ensures
            frame.mode == 0,
            frame.target@ == Seq::new(20, |i: int| 0u8),
            frame.gas_limit == 0,
            frame.data@ == Seq::<u8>::empty(),
            frame.status is None,
    {
        FrameInfo { mode: 0, target: Address::default(), gas_limit: 0, data: Vec::new(), status: None }
    }
}

/// Transaction-scoped state for EIP-8141 frame transactions.
#[derive(Clone, Debug)]
pub struct FrameTxContext {
    /// Whether a frame transaction is executing. When false, all EIP-8141 opcodes
    /// behave as INVALID.
    pub active: bool,
    /// Set to true when a VERIFY frame calls APPROVE with scope 0x0 or 0x2.
    pub sender_approved: bool,
    /// Set to true when APPROVE is called with scope 0x1 or 0x2.
    pub payer_approved: bool,
    /// The explicit sender of the frame transaction.
    pub sender: Address,
    /// The payer address (set when payer_approved becomes true).
    ///
    /// - APPROVE scope 0x1: payer = current frame target (sponsor pattern)
    /// - APPROVE scope 0x2: payer = sender
    pub payer: Address,
    /// Transaction type byte (0x06).
    pub tx_type: u8,
    /// Transaction nonce.
    pub nonce: u64,
    /// max_priority_fee_per_gas
    pub max_priority_fee_per_gas: u128,
    /// max_fee_per_gas
    pub max_fee_per_gas: u128,
    /// max_fee_per_blob_gas
    pub max_fee_per_blob_gas: u128,
    /// Maximum cost of the transaction.
    pub max_cost: U256,
    /// Blob versioned hashes.
    pub blob_versioned_hashes: Vec<B256>,
    /// Signature hash, computed with VERIFY data zeroed.
    pub sig_hash: B256,
    /// Total number of frames in the transaction.
    pub frame_count: usize,
    /// Index of the currently executing frame.
    pub current_frame_index: usize,
    /// Frame metadata for all frames.
    pub frames: Vec<FrameInfo>,
    /// Set to `true` when APPROVE is successfully called during the current frame.
    /// Reset to `false` before each VERIFY frame execution by the executor.
    pub approve_called_current_frame: bool,
}

impl FrameTxContext {
    /// Whether the current frame is one of the transaction's, and verifies.
    pub open spec fn verifying(self) -> bool {
        &&& self.current_frame_index < self.frames@.len()
        &&& self.frames@[self.current_frame_index as int].mode == VERIFY_MODE
    }

    /// Why an APPROVE of `scope` is refused, if it is. Scope 0 approves the
    /// sender, once. Scope 1 approves the payer, once, after the sender. Scope 2
    /// approves both, if neither has been.
    pub open spec fn refusal(self, scope: nat) -> Option<InstructionResult> {
        let allowed = {
            ||| scope == 0 && !self.sender_approved
            ||| scope == 1 && self.sender_approved && !self.payer_approved
            ||| scope == 2 && !self.sender_approved && !self.payer_approved
        };
        if allowed {
            None
        } else if scope <= 2 {
            Some(InstructionResult::Revert)
        } else {
            Some(InstructionResult::InvalidFEOpcode)
        }
    }

    /// The context after an APPROVE of `scope` that is not refused. The payer is
    /// the current frame's target for scope 1 and the sender for scope 2.
    pub open spec fn granted(self, scope: nat) -> FrameTxContext {
        FrameTxContext {
            sender_approved: self.sender_approved || scope == 0 || scope == 2,
            payer_approved: self.payer_approved || scope == 1 || scope == 2,
            payer: if scope == 1 {
                self.frames@[self.current_frame_index as int].target
            } else if scope == 2 {
                self.sender
            } else {
                self.payer
            },
            approve_called_current_frame: true,
            ..self
        }
    }

    /// Whether the current frame is one of the transaction's, and verifies.
    pub fn is_verifying(&self) -> (verifying: bool)
        ensures
            verifying == self.verifying(),
    {
        let index: usize = self.current_frame_index;
        index < self.frames.len() && self.frames[index].mode == VERIFY_MODE
    }

    /// Why an APPROVE of `scope` is refused, if it is.
    pub fn approval_refusal(&self, scope: usize) -> (refusal: Option<InstructionResult>)
        ensures
            refusal == self.refusal(scope as nat),
    {
        match scope {
            // Execution approval
            0x0 => {
                if self.sender_approved {
                    Some(InstructionResult::Revert)
                } else {
                    None
                }
            },
            // Payment approval
            0x1 => {
                if !self.sender_approved || self.payer_approved {
                    Some(InstructionResult::Revert)
                } else {
                    None
                }
            },
            // Combined execution and payment approval
            0x2 => {
                if self.sender_approved || self.payer_approved {
                    Some(InstructionResult::Revert)
                } else {
                    None
                }
            },
            _ => Some(InstructionResult::InvalidFEOpcode),
        }
    }

    /// Records an APPROVE of `scope`.
    pub fn grant(&mut self, scope: usize)
        requires
            old(self).refusal(scope as nat) is None,
            old(self).verifying(),
        ensures
            *final(self) == old(self).granted(scope as nat),
    {
        match scope {
            0x0 => {
                self.sender_approved = true;
            },
            0x1 => {
                let index: usize = self.current_frame_index;
                self.payer = self.frames[index].target;
                self.payer_approved = true;
            },
            _ => {
                self.payer = self.sender;
                self.sender_approved = true;
                self.payer_approved = true;
            },
        }
        self.approve_called_current_frame = true;
    }
}

impl Default for FrameTxContext {
    /// No frame transaction: inactive, and every field zero or empty.
    fn default() -> (context: FrameTxContext)
        ensures
            !context.active,
            !context.sender_approved,
            !context.payer_approved,
            context.sender@ == Seq::new(20, |i: int| 0u8),
            context.payer@ == Seq::new(20, |i: int| 0u8),
            context.tx_type == 0,
            context.nonce == 0,
            context.max_priority_fee_per_gas == 0,
            context.max_fee_per_gas == 0,
            context.max_fee_per_blob_gas == 0,
            context.max_cost@ == 0,
            context.blob_versioned_hashes@ == Seq::<B256>::empty(),
            context.sig_hash@ == Seq::new(32, |i: int| 0u8),
            context.frame_count == 0,
            context.current_frame_index == 0,
            context.frames@ == Seq::<FrameInfo>::empty(),
            !context.approve_called_current_frame,
    {
        FrameTxContext {
            active: false,
            sender_approved: false,
            payer_approved: false,
            sender: Address::default(),
            payer: Address::default(),
            tx_type: 0,
            nonce: 0,
            max_priority_fee_per_gas: 0,
            max_fee_per_gas: 0,
            max_fee_per_blob_gas: 0,
            max_cost: U256::zero(),
            blob_versioned_hashes: Vec::new(),
            sig_hash: B256::default(),
            frame_count: 0,
            current_frame_index: 0,
            frames: Vec::new(),
            approve_called_current_frame: false,
        }
    }
}

/// A host that carries a frame transaction context, to which the opcodes have
/// access.
pub trait FrameTxHost: Sized {
    /// The frame transaction context, as contracts speak of it. Nothing runs it.
    spec fn frame_tx(&self) -> FrameTxContext;

    /// Whether `after` is this host but for its frame transaction context, as
    /// contracts speak of it. Nothing runs it.
    spec fn keeps_rest(&self, after: &Self) -> bool;

    /// Returns a reference to the frame transaction context.
    fn frame_tx_context(&self) -> (context: &FrameTxContext)
        ensures
            *context == self.frame_tx(),
    ;

    /// Returns a mutable reference to the frame transaction context.
    fn frame_tx_context_mut(&mut self) -> (context: &mut FrameTxContext)
        ensures
            *context == old(self).frame_tx(),
            final(self).frame_tx() == *final(context),
            old(self).keeps_rest(&*final(self)),
    ;
}

/// An execution context whose chain-specific part is a frame transaction context.
/// `rest` is everything else that the context holds.
pub struct Context<R> {
    pub chain: FrameTxContext,
    pub rest: R,
}

impl<R> FrameTxHost for Context<R> {
    open spec fn frame_tx(&self) -> FrameTxContext {
        self.chain
    }

    open spec fn keeps_rest(&self, after: &Self) -> bool {
        self.rest == after.rest
    }

    fn frame_tx_context(&self) -> (context: &FrameTxContext) {
        &self.chain
    }

    fn frame_tx_context_mut(&mut self) -> (context: &mut FrameTxContext) {
        &mut self.chain
    }
}

} // verus!
