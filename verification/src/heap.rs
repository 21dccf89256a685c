//! Allocation from the guest process heap.
use vstd::prelude::*;

use crate::cpu;
use crate::cpu::{GuestCpu, MemoryFault};
use crate::process::GuestHeap;

verus! {

/// Size of the control block at the start of the heap. Its first eight bytes hold the
/// address of the first free byte.
pub const HEAP_CONTROL_SIZE: u64 = 16;

/// The first multiple of 16, where blocks start, at or after an address.
pub open spec fn aligned(address: int) -> int {
    (address + 15) / 16 * 16
}

/// The address of the first free byte, as the control block has it.
pub open spec fn cursor(memory: Map<int, u8>, heap: GuestHeap) -> int {
    cpu::le_value(cpu::load(memory, heap.base as int, 8)) as int
}

/// Where the next block starts: past the control block and every earlier block.
pub open spec fn next_block(memory: Map<int, u8>, heap: GuestHeap) -> int {
    let floor = heap.base + HEAP_CONTROL_SIZE;
    aligned(
        if cursor(memory, heap) < floor {
            floor
        } else {
            cursor(memory, heap)
        },
    )
}

/// Whether the heap has room for a block.
pub open spec fn has_room(memory: Map<int, u8>, heap: GuestHeap, len: int) -> bool {
    next_block(memory, heap) + len <= heap.end
}

/// Memory after a block was allocated for `bytes` and filled with them.
pub open spec fn with_block(memory: Map<int, u8>, heap: GuestHeap, bytes: Seq<u8>) -> Map<int, u8> {
    let start = next_block(memory, heap);
    cpu::store(
        cpu::store(memory, heap.base as int, cpu::le_bytes((start + bytes.len()) as nat, 8)),
        start,
        bytes,
    )
}

/// What an allocation answers: no block where the heap is full, and a fault (`None`)
/// where the control block or the new block is not mapped.
pub open spec fn allocation(memory: Map<int, u8>, heap: GuestHeap, len: nat) -> Option<Option<int>> {
    if !cpu::mapped(memory, heap.base as int, 8) {
        None
    } else if !has_room(memory, heap, len as int) {
        Some(None)
    } else if !cpu::mapped(memory, next_block(memory, heap), len) {
        None
    } else {
        Some(Some(next_block(memory, heap)))
    }
}

/// The fault of an allocation: at the control block, or at the new block.
pub open spec fn allocation_fault(memory: Map<int, u8>, heap: GuestHeap) -> MemoryFault {
    MemoryFault {
        address: if !cpu::mapped(memory, heap.base as int, 8) {
            heap.base
        } else {
            next_block(memory, heap) as u64
        },
    }
}

/// A new block overlaps neither the control block nor what was allocated before: the
/// next one starts past it, and earlier contents stay.
pub proof fn blocks_do_not_overlap(memory: Map<int, u8>, heap: GuestHeap, bytes: Seq<u8>, earlier: int, len: nat)
    requires
        allocation(memory, heap, bytes.len()) == Some(Some(next_block(memory, heap))),
        cpu::mapped(memory, earlier, len),
        heap.base + HEAP_CONTROL_SIZE <= earlier,
        earlier + len <= cursor(memory, heap),
    ensures
        ({
            let start = next_block(memory, heap);
            let after = with_block(memory, heap, bytes);
            &&& heap.base + HEAP_CONTROL_SIZE <= start
            &&& earlier + len <= start
            &&& start + bytes.len() <= next_block(after, heap)
            &&& cpu::load(after, start, bytes.len()) == bytes
            &&& cpu::load(after, earlier, len) == cpu::load(memory, earlier, len)
        }),
{
    let start = next_block(memory, heap);
    let after = with_block(memory, heap, bytes);
    let word = cpu::le_bytes((start + bytes.len()) as nat, 8);
    assert(cpu::pow256(8) == 0x1_0000_0000_0000_0000) by {
        reveal_with_fuel(cpu::pow256, 9);
    }
    cpu::le_round_trip((start + bytes.len()) as nat, 8);
    assert forall|i: int| 0 <= i < 8 implies #[trigger] after[heap.base + i] == word[i] by {
        assert(memory.dom().contains(heap.base + i));
    }
    assert(cpu::load(after, heap.base as int, 8) =~= word);
    assert forall|i: int| 0 <= i < bytes.len() implies #[trigger] after[start + i] == bytes[i] by {
        assert(memory.dom().contains(start + i));
    }
    assert(cpu::load(after, start, bytes.len()) =~= bytes);
    assert forall|i: int| 0 <= i < len implies #[trigger] after[earlier + i] == memory[earlier + i] by {
        assert(memory.dom().contains(earlier + i));
    }
    assert(cpu::load(after, earlier, len) =~= cpu::load(memory, earlier, len));
}

impl GuestHeap {
    /// Allocate a block for `bytes` and fill it.
    pub fn allocate(&self, engine: &mut GuestCpu, bytes: &[u8]) -> (result: Result<Option<u64>, MemoryFault>)
        ensures
            final(engine).same_registers(old(engine)),
            match (result, allocation(old(engine).memory(), *self, bytes@.len())) {
                (Ok(Some(at)), Some(Some(start))) => {
                    &&& at == start
                    &&& final(engine).memory() == with_block(old(engine).memory(), *self, bytes@)
                },
                (Ok(None), Some(None)) => final(engine).memory() == old(engine).memory(),
                (Err(fault), None) => {
                    &&& fault == allocation_fault(old(engine).memory(), *self)
                    &&& final(engine).memory() == old(engine).memory()
                },
                _ => false,
            },
    {
        let free: u64 = match engine.read_u64(self.base) {
            Ok(free) => free,
            Err(fault) => {
                return Err(fault);
            },
        };
        let floor: u128 = self.base as u128 + HEAP_CONTROL_SIZE as u128;
        let first: u128 = if (free as u128) < floor {
            floor
        } else {
            free as u128
        };
        let start: u128 = (first + 15) / 16 * 16;
        let len: usize = bytes.len();
        if start + len as u128 > self.end as u128 {
            return Ok(None);
        }
        let at: u64 = start as u64;
        if !engine.is_mapped(at, len) {
            return Err(MemoryFault { address: at });
        }
        let _ = engine.write_u64(self.base, at + len as u64);
        assert(cpu::mapped(engine.memory(), at as int, len as nat));
        let _ = engine.mem_write(at, bytes);
        Ok(Some(at))
    }
}

} // verus!
