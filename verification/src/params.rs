//! The transaction parameters that opcodes can read, by number.
//!
//! Numbers 0x00 to 0x09 and 0x10 stand for parameters of the transaction,
//! numbers 0x11 to 0x15 for parameters of one frame, given by its index. No other
//! number stands for a parameter.
use vstd::prelude::*;

use crate::context::{FrameInfo, FrameTxContext, VERIFY_MODE};
use crate::memory::window;
use crate::word::{
    be_bytes, be_value, lemma_be_value_in_range, lemma_be_value_leading_zeros,
    lemma_word_is_32_bytes, word_range, U256,
};

verus! {

impl FrameTxContext {
    /// The frame at `index`, if the transaction has that many frames.
    pub open spec fn frame(self, index: nat) -> Option<FrameInfo> {
        if index < self.frame_count {
            Some(self.frames@[index as int])
        } else {
            None
        }
    }

    /// The metadata of the frame at `index` is there, if the transaction has that
    /// many frames.
    pub open spec fn covers(self, index: nat) -> bool {
        index < self.frame_count ==> index < self.frames@.len()
    }

    /// The value of parameter `id`, or of parameter `id` of the frame at `index`.
    pub open spec fn param(self, id: nat, index: nat) -> Option<nat> {
        if 0x00 <= id <= 0x09 || id == 0x10 {
            Some(self.tx_param(id))
        } else if 0x11 <= id <= 0x15 {
            match self.frame(index) {
                Some(frame) => {
                    if id == 0x15 && index >= self.current_frame_index {
                        None
                    } else {
                        Some(frame_param(frame, id))
                    }
                },
                None => None,
            }
        } else {
            None
        }
    }

    /// The value of the transaction's own parameter `id`.
    pub open spec fn tx_param(self, id: nat) -> nat {
        if id == 0x00 {
            self.tx_type as nat
        } else if id == 0x01 {
            self.nonce as nat
        } else if id == 0x02 {
            be_value(self.sender@)
        } else if id == 0x03 {
            self.max_priority_fee_per_gas as nat
        } else if id == 0x04 {
            self.max_fee_per_gas as nat
        } else if id == 0x05 {
            self.max_fee_per_blob_gas as nat
        } else if id == 0x06 {
            self.max_cost@
        } else if id == 0x07 {
            self.blob_versioned_hashes@.len()
        } else if id == 0x08 {
            be_value(self.sig_hash@)
        } else if id == 0x09 {
            self.frame_count as nat
        } else {
            self.current_frame_index as nat
        }
    }

    /// The size in bytes of parameter `id`, or of parameter `id` of the frame at
    /// `index`: the visible length for frame data, 32 for all else.
    pub open spec fn param_size(self, id: nat, index: nat) -> Option<nat> {
        if 0x00 <= id <= 0x09 || id == 0x10 {
            Some(32)
        } else if 0x11 <= id <= 0x15 {
            match self.frame(index) {
                Some(frame) => {
                    if id == 0x12 {
                        Some(frame.visible_data().len())
                    } else if id == 0x15 && index >= self.current_frame_index {
                        None
                    } else {
                        Some(32)
                    }
                },
                None => None,
            }
        } else {
            None
        }
    }

    /// The bytes of parameter `id`, or of parameter `id` of the frame at `index`:
    /// what is visible of frame data, the 32 bytes of the value for all else.
    pub open spec fn param_bytes(self, id: nat, index: nat) -> Option<Seq<u8>> {
        if id == 0x12 {
            match self.frame(index) {
                Some(frame) => Some(frame.visible_data()),
                None => None,
            }
        } else {
            match self.param(id, index) {
                Some(value) => Some(be_bytes(value)),
                None => None,
            }
        }
    }

    /// Reading parameter `id` of the frame at `index` stays within the metadata.
    pub open spec fn param_covered(self, id: nat, index: nat) -> bool {
        &&& 0x11 <= id <= 0x14 ==> self.covers(index)
        &&& id == 0x15 && index < self.current_frame_index ==> self.covers(index)
    }

    /// The value of parameter `id`, or of parameter `id` of the frame at `index`.
    pub fn load_param(&self, id: usize, index: usize) -> (value: Option<U256>)
        requires
            self.param_covered(id as nat, index as nat),
        ensures
            value is Some <==> self.param(id as nat, index as nat) is Some,
            value is Some ==> value->0@ == self.param(id as nat, index as nat)->0,
    {
        match id {
            0x00 => Some(U256::from_u64(self.tx_type as u64)),
            0x01 => Some(U256::from_u64(self.nonce)),
            0x02 => Some(self.sender.to_word()),
            0x03 => Some(U256::from_u128(self.max_priority_fee_per_gas)),
            0x04 => Some(U256::from_u128(self.max_fee_per_gas)),
            0x05 => Some(U256::from_u128(self.max_fee_per_blob_gas)),
            0x06 => Some(self.max_cost),
            0x07 => Some(U256::from_u64(self.blob_versioned_hashes.len() as u64)),
            0x08 => Some(U256::from_be_bytes(self.sig_hash.bytes)),
            0x09 => Some(U256::from_u64(self.frame_count as u64)),
            0x10 => Some(U256::from_u64(self.current_frame_index as u64)),
            0x11 => {
                if index >= self.frame_count {
                    return None;
                }
                Some(self.frames[index].target.to_word())
            },
            0x12 => {
                if index >= self.frame_count {
                    return None;
                }
                // The data of a VERIFY frame is opaque
                if self.frames[index].mode == VERIFY_MODE {
                    proof {
                        lemma_nothing_spells_zero();
                    }
                    Some(U256::zero())
                } else {
                    Some(first_word(self.frames[index].data.as_slice()))
                }
            },
            0x13 => {
                if index >= self.frame_count {
                    return None;
                }
                Some(U256::from_u64(self.frames[index].gas_limit))
            },
            0x14 => {
                if index >= self.frame_count {
                    return None;
                }
                Some(U256::from_u64(self.frames[index].mode as u64))
            },
            0x15 => {
                // Only frames that have run have a status
                if index >= self.frame_count || index >= self.current_frame_index {
                    return None;
                }
                match self.frames[index].status {
                    Some(true) => Some(U256::from_u64(1)),
                    _ => Some(U256::zero()),
                }
            },
            _ => None,
        }
    }

    /// The size in bytes of parameter `id`, or of parameter `id` of the frame at
    /// `index`.
    pub fn load_param_size(&self, id: usize, index: usize) -> (size: Option<U256>)
        requires
            id == 0x12 ==> self.covers(index as nat),
        ensures
            size is Some <==> self.param_size(id as nat, index as nat) is Some,
            size is Some ==> size->0@ == self.param_size(id as nat, index as nat)->0,
    {
        match id {
            0x00..=0x09 | 0x10 => Some(U256::from_u64(32)),
            0x11 | 0x13 | 0x14 => {
                if index >= self.frame_count {
                    return None;
                }
                Some(U256::from_u64(32))
            },
            0x15 => {
                if index >= self.frame_count || index >= self.current_frame_index {
                    return None;
                }
                Some(U256::from_u64(32))
            },
            0x12 => {
                if index >= self.frame_count {
                    return None;
                }
                // The data of a VERIFY frame is opaque
                if self.frames[index].mode == VERIFY_MODE {
                    Some(U256::zero())
                } else {
                    Some(U256::from_u64(self.frames[index].data.len() as u64))
                }
            },
            _ => None,
        }
    }

    /// The bytes of parameter `id`, or of parameter `id` of the frame at `index`.
    pub fn load_param_bytes(&self, id: usize, index: usize) -> (bytes: Option<Vec<u8>>)
        requires
            self.param_covered(id as nat, index as nat),
        ensures
            bytes is Some <==> self.param_bytes(id as nat, index as nat) is Some,
            bytes is Some ==> bytes->0@ == self.param_bytes(id as nat, index as nat)->0,
    {
        match id {
            0x12 => {
                if index >= self.frame_count {
                    return None;
                }
                // The data of a VERIFY frame is opaque
                if self.frames[index].mode == VERIFY_MODE {
                    Some(Vec::new())
                } else {
                    let data = &self.frames[index].data;
                    let bytes = data.clone();
                    assert(bytes@ =~= data@);
                    Some(bytes)
                }
            },
            _ => match self.load_param(id, index) {
                Some(value) => Some(word_bytes(value)),
                None => None,
            },
        }
    }
}

/// The value of parameter `id` of `frame`. For its data that is the first 32
/// bytes that are visible, zeros past the end.
pub open spec fn frame_param(frame: FrameInfo, id: nat) -> nat {
    if id == 0x11 {
        be_value(frame.target@)
    } else if id == 0x12 {
        be_value(window(frame.visible_data(), 0, 32))
    } else if id == 0x13 {
        frame.gas_limit as nat
    } else if id == 0x14 {
        frame.mode as nat
    } else if frame.status == Some(true) {
        1
    } else {
        0
    }
}

/// The word that the first 32 bytes of `data` spell, zeros past the end.
fn first_word(data: &[u8]) -> (word: U256)
    ensures
        word@ == be_value(window(data@, 0, 32)),
{
    let mut bytes: [u8; 32] = [0u8; 32];
    let mut i: usize = 0;
    while i < 32 && i < data.len()
        invariant
            i <= 32,
            i <= data@.len(),
            forall|j: int| 0 <= j < i ==> bytes@[j] == data@[j],
            forall|j: int| i <= j < 32 ==> bytes@[j] == 0,
        decreases 32 - i,
    {
        bytes[i] = data[i];
        i = i + 1;
    }
    assert(bytes@ =~= window(data@, 0, 32));
    U256::from_be_bytes(bytes)
}

/// The 32 bytes that spell `word`, most significant first.
fn word_bytes(word: U256) -> (bytes: Vec<u8>)
    ensures
        bytes@ == be_bytes(word@),
{
    let spelled: [u8; 32] = word.to_be_bytes();
    let mut bytes: Vec<u8> = Vec::new();
    let mut i: usize = 0;
    while i < 32
        invariant
            i <= 32,
            bytes@ =~= spelled@.take(i as int),
        decreases 32 - i,
    {
        bytes.push(spelled[i]);
        i = i + 1;
    }
    assert(bytes@ =~= spelled@);
    bytes
}

/// The value of a parameter fits a word.
pub proof fn lemma_param_fits_a_word(context: FrameTxContext, id: nat, index: nat)
    ensures
        context.param(id, index) is Some ==> context.param(id, index)->0 < word_range(),
{
    lemma_word_is_32_bytes();
    lemma_be_value_in_range(context.sender@);
    lemma_be_value_in_range(context.sig_hash@);
    assert(context.blob_versioned_hashes@.len() == context.blob_versioned_hashes.len());
    if let Some(frame) = context.frame(index) {
        lemma_be_value_in_range(frame.target@);
        lemma_be_value_in_range(window(frame.visible_data(), 0, 32));
    }
}

/// A window of no data spells zero.
proof fn lemma_nothing_spells_zero()
    ensures
        be_value(window(Seq::<u8>::empty(), 0, 32)) == 0,
{
    let zeros = window(Seq::<u8>::empty(), 0, 32);
    lemma_be_value_leading_zeros(zeros, Seq::<u8>::empty());
    assert(zeros + Seq::<u8>::empty() =~= zeros);
}

} // verus!
