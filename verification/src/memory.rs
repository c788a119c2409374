//! The byte-addressed memory.
use vstd::prelude::*;

verus! {

/// `len` bytes of `data` from `start` on, with zeros past the end of `data`.
pub open spec fn window(data: Seq<u8>, start: nat, len: nat) -> Seq<u8> {
    Seq::new(len, |i: int| if start + i < data.len() { data[start + i] } else { 0u8 })
}

/// `memory` with `bytes` written over it from `offset` on.
pub open spec fn overwrite(memory: Seq<u8>, offset: nat, bytes: Seq<u8>) -> Seq<u8> {
    Seq::new(
        memory.len(),
        |i: int|
            if offset <= i < offset + bytes.len() {
                bytes[i - offset]
            } else {
                memory[i]
            },
    )
}

/// The memory of one execution. Its view is its bytes.
#[derive(Debug)]
pub struct SharedMemory {
    pub data: Vec<u8>,
}

impl View for SharedMemory {
    type V = Seq<u8>;

    open spec fn view(&self) -> Seq<u8> {
        self.data@
    }
}

impl SharedMemory {
    /// An empty memory.
    pub fn new() -> (memory: SharedMemory)
        ensures
            memory@ == Seq::<u8>::empty(),
    {
        SharedMemory { data: Vec::new() }
    }

    /// The number of bytes.
    pub fn len(&self) -> (len: usize)
        ensures
            len as nat == self@.len(),
    {
        self.data.len()
    }

    /// Grows the memory to `len` bytes; the new ones are zero.
    pub fn resize(&mut self, len: usize)
        requires
            old(self)@.len() <= len <= isize::MAX,
        ensures
            final(self)@ == window(old(self)@, 0, len as nat),
    {
        self.data.resize(len, 0u8);
        proof {
            let before = old(self)@;
            assert(self@.subrange(0, before.len() as int) == before);
            assert forall|i: int| 0 <= i < len implies self@[i] == window(before, 0, len as nat)[i] by {
                if i < before.len() {
                    assert(self@.subrange(0, before.len() as int)[i] == self@[i]);
                }
            }
            assert(self@ =~= window(before, 0, len as nat));
        }
    }

    /// The `len` bytes at `offset`.
    pub fn slice_len(&self, offset: usize, len: usize) -> (bytes: Vec<u8>)
        requires
            offset + len <= self@.len(),
        ensures
            bytes@ == self@.subrange(offset as int, offset + len),
    {
        let mut bytes: Vec<u8> = Vec::new();
        let total: usize = self.data.len();
        let mut i: usize = 0;
        while i < len
            invariant
                offset + len <= total == self@.len(),
                i <= len,
                bytes@ =~= self@.subrange(offset as int, offset + i),
            decreases len - i,
        {
            bytes.push(self.data[offset + i]);
            i = i + 1;
        }
        bytes
    }

    /// Copies `len` bytes of `data`, from `data_offset` on, to `offset`. Past the
    /// end of `data` zeros are written.
    pub fn set_data(&mut self, offset: usize, data_offset: usize, len: usize, data: &[u8])
        requires
            offset + len <= old(self)@.len(),
        ensures
            final(self)@ == overwrite(
                old(self)@,
                offset as nat,
                window(data@, data_offset as nat, len as nat),
            ),
    {
        let ghost before = self@;
        let ghost bytes = window(data@, data_offset as nat, len as nat);
        let total: usize = self.data.len();
        let mut i: usize = 0;
        while i < len
            invariant
                offset + len <= total == before.len(),
                i <= len,
                bytes == window(data@, data_offset as nat, len as nat),
                self@ =~= overwrite(before, offset as nat, bytes.take(i as int)),
            decreases len - i,
        {
            let byte: u8 = if data_offset < data.len() && i < data.len() - data_offset {
                data[data_offset + i]
            } else {
                0
            };
            self.data[offset + i] = byte;
            i = i + 1;
        }
        assert(bytes.take(len as int) =~= bytes);
    }
}

} // verus!
