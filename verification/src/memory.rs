//! Byte-addressable memory: little-endian reads and writes of one, two or
//! four bytes, with alignment and bounds checking.

use vstd::prelude::*;
use crate::state::{CoreState, Machine, MEMORY_SIZE};

verus! {

/// The size of a memory access.
#[derive(Debug, Clone, Copy, PartialEq, Eq)]
pub enum Width {
    Byte,
    Half,
    Word,
}

/// Why a memory access cannot be made.
#[derive(Debug, Clone, Copy, PartialEq, Eq)]
pub enum MemoryFault {
    /// The address is not a multiple of the access size.
    Misaligned,
    /// The access does not lie within memory.
    OutOfRange,
}

impl Width {
    /// The number of bytes of the access.
    pub open spec fn bytes(self) -> int {
        match self {
            Width::Byte => 1,
            Width::Half => 2,
            Width::Word => 4,
        }
    }

    /// The number of bytes of the access.
    pub fn size(self) -> (n: u32)
        ensures
            n == self.bytes(),
    {
        match self {
            Width::Byte => 1,
            Width::Half => 2,
            Width::Word => 4,
        }
    }
}

/// The fault of an access of `width` at `address`, if it has one. A
/// misaligned address is reported before one that is out of range.
pub open spec fn access_fault(address: u32, width: Width) -> Option<MemoryFault> {
    if address as int % width.bytes() != 0 {
        Some(MemoryFault::Misaligned)
    } else if address + width.bytes() > MEMORY_SIZE {
        Some(MemoryFault::OutOfRange)
    } else {
        None
    }
}

/// The little-endian value of the `width` bytes of `memory` that start at
/// `address`.
pub open spec fn read_le(memory: Seq<u8>, address: int, width: Width) -> u32
    recommends
        0 <= address,
        address + width.bytes() <= memory.len(),
{
    match width {
        Width::Byte => memory[address] as u32,
        Width::Half => (memory[address] + 0x100 * memory[address + 1]) as u32,
        Width::Word => (memory[address] + 0x100 * memory[address + 1] + 0x1_0000 * memory[address
            + 2] + 0x100_0000 * memory[address + 3]) as u32,
    }
}

/// Byte `index` of `value`, counted from the least significant.
pub open spec fn byte_of(value: u32, index: nat) -> u8
    recommends
        index < 4,
{
    if index == 0 {
        (value % 0x100) as u8
    } else if index == 1 {
        ((value / 0x100) % 0x100) as u8
    } else if index == 2 {
        ((value / 0x1_0000) % 0x100) as u8
    } else {
        ((value / 0x100_0000) % 0x100) as u8
    }
}

/// `memory` after the low `width` bytes of `value` are stored at `address`,
/// least significant byte first.
pub open spec fn write_le(memory: Seq<u8>, address: int, width: Width, value: u32) -> Seq<u8>
    recommends
        0 <= address,
        address + width.bytes() <= memory.len(),
{
    match width {
        Width::Byte => memory.update(address, byte_of(value, 0)),
        Width::Half => memory.update(address, byte_of(value, 0)).update(
            address + 1,
            byte_of(value, 1),
        ),
        Width::Word => memory.update(address, byte_of(value, 0)).update(
            address + 1,
            byte_of(value, 1),
        ).update(address + 2, byte_of(value, 2)).update(address + 3, byte_of(value, 3)),
    }
}

/// `memory` with `bytes` copied over it from `offset` on.
pub open spec fn overlay(memory: Seq<u8>, offset: int, bytes: Seq<u8>) -> Seq<u8>
    recommends
        0 <= offset,
        offset + bytes.len() <= memory.len(),
{
    Seq::new(
        memory.len(),
        |i: int|
            if offset <= i < offset + bytes.len() {
                bytes[i - offset]
            } else {
                memory[i]
            },
    )
}

/// The failure of `load_bytes`: the bytes do not fit into memory at the offset.
#[derive(Debug, Clone, Copy, PartialEq, Eq)]
pub struct OutOfMemory;

impl Machine {
    /// The state with `width` bytes of `value` stored at `address`.
    pub open spec fn with_memory(self, address: u32, width: Width, value: u32) -> Machine {
        Machine { memory: write_le(self.memory, address as int, width, value), ..self }
    }
}

impl CoreState {
    /// Reads `width` bytes at `address`, little-endian and zero-extended.
    /// The read fails where the address is misaligned or the bytes are not
    /// all within memory.
    pub fn read(&self, address: u32, width: Width) -> (value: Result<u32, MemoryFault>)
        ensures
            value == (match access_fault(address, width) {
                Some(fault) => Err::<u32, MemoryFault>(fault),
                None => Ok(read_le(self@.memory, address as int, width)),
            }),
    {
        if address % width.size() != 0 {
            return Err(MemoryFault::Misaligned);
        }
        if address as u64 + width.size() as u64 > MEMORY_SIZE as u64 {
            return Err(MemoryFault::OutOfRange);
        }
        let at = address as usize;
        match width {
            Width::Byte => Ok(self.memory[at] as u32),
            Width::Half => Ok(self.memory[at] as u32 + 0x100 * (self.memory[at + 1] as u32)),
            Width::Word => Ok(
                self.memory[at] as u32 + 0x100 * (self.memory[at + 1] as u32) + 0x1_0000 * (
                self.memory[at + 2] as u32) + 0x100_0000 * (self.memory[at + 3] as u32),
            ),
        }
    }

    /// Stores the low `width` bytes of `value` at `address`, least
    /// significant byte first. Where the address is misaligned or the bytes
    /// are not all within memory the store fails and nothing changes.
    pub fn write(&mut self, address: u32, width: Width, value: u32) -> (done: Result<
        (),
        MemoryFault,
    >)
        ensures
            done == (match access_fault(address, width) {
                Some(fault) => Err::<(), MemoryFault>(fault),
                None => Ok(()),
            }),
            final(self)@ == (if done is Ok {
                old(self)@.with_memory(address, width, value)
            } else {
                old(self)@
            }),
            final(self)@.wf(),
    {
        proof {
            use_type_invariant(&*self);
        }
        if address % width.size() != 0 {
            return Err(MemoryFault::Misaligned);
        }
        if address as u64 + width.size() as u64 > MEMORY_SIZE as u64 {
            return Err(MemoryFault::OutOfRange);
        }
        let at = address as usize;
        self.memory[at] = (value % 0x100) as u8;
        match width {
            Width::Byte => {},
            Width::Half => {
                self.memory[at + 1] = ((value / 0x100) % 0x100) as u8;
            },
            Width::Word => {
                self.memory[at + 1] = ((value / 0x100) % 0x100) as u8;
                self.memory[at + 2] = ((value / 0x1_0000) % 0x100) as u8;
                self.memory[at + 3] = ((value / 0x100_0000) % 0x100) as u8;
            },
        }
        Ok(())
    }
}

impl CoreState {
    /// Copies `bytes` into memory from `offset` on. Where they do not fit,
    /// nothing is copied.
    pub fn load_bytes(&mut self, offset: usize, bytes: &[u8]) -> (done: Result<(), OutOfMemory>)
        ensures
            done is Ok <==> offset + bytes@.len() <= MEMORY_SIZE,
            final(self)@ == (if done is Ok {
                Machine { memory: overlay(old(self)@.memory, offset as int, bytes@), ..old(self)@ }
            } else {
                old(self)@
            }),
            final(self)@.wf(),
    {
        proof {
            use_type_invariant(&*self);
        }
        if offset > MEMORY_SIZE || bytes.len() > MEMORY_SIZE - offset {
            return Err(OutOfMemory);
        }
        let mut i: usize = 0;
        while i < bytes.len()
            invariant
                i <= bytes@.len(),
                offset + bytes@.len() <= MEMORY_SIZE,
                self@ == (Machine { memory: self@.memory, ..old(self)@ }),
                self@.memory.len() == MEMORY_SIZE,
                forall|j: int|
                    0 <= j < MEMORY_SIZE ==> #[trigger] self@.memory[j] == (if offset <= j < offset
                        + i {
                        bytes@[j - offset]
                    } else {
                        old(self)@.memory[j]
                    }),
            decreases bytes@.len() - i,
        {
            proof {
                use_type_invariant(&*self);
            }
            self.memory[offset + i] = bytes[i];
            i += 1;
        }
        assert(self@.memory =~= overlay(old(self)@.memory, offset as int, bytes@));
        Ok(())
    }

    /// The `len` bytes of memory from `start` on; `None` where they are not
    /// all within memory.
    pub fn memory(&self, start: usize, len: usize) -> (bytes: Option<Vec<u8>>)
        ensures
            bytes is Some <==> start + len <= MEMORY_SIZE,
            bytes matches Some(b) ==> b@ == self@.memory.subrange(
                start as int,
                start as int + len as int,
            ),
    {
        if start > MEMORY_SIZE || len > MEMORY_SIZE - start {
            return None;
        }
        let mut bytes: Vec<u8> = Vec::new();
        let mut i: usize = 0;
        while i < len
            invariant
                i <= len,
                start + len <= MEMORY_SIZE,
                bytes@ == self@.memory.subrange(start as int, start as int + i as int),
            decreases len - i,
        {
            bytes.push(self.memory[start + i]);
            i += 1;
            assert(bytes@ =~= self@.memory.subrange(start as int, start as int + i as int));
        }
        Some(bytes)
    }
}

} // verus!
