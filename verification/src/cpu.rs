//! The guest machine as the API handlers see it: mapped memory and the
//! registers of the Win64 calling convention.
use vstd::prelude::*;

verus! {

/// Offset of the last-error slot inside a thread environment block.
pub const TEB_LAST_ERROR_OFFSET: u64 = 0x68;

/// An access touched an address that no mapped region covers.
#[derive(Debug, Clone, Copy, PartialEq, Eq, Structural)]
pub struct MemoryFault {
    /// First address of the refused access.
    pub address: u64,
}

/// One mapped range of guest memory.
#[derive(Debug, Clone)]
pub struct Region {
    /// First mapped guest address.
    pub base: u64,
    /// The bytes at `base`, `base + 1`, ...
    pub bytes: Vec<u8>,
}

impl Region {
    /// Whether the region holds the byte at `address`.
    pub open spec fn covers(self, address: int) -> bool {
        self.base <= address < self.base + self.bytes@.len()
    }
}

/// The byte that the regions hold at `address`, if one of them covers it.
pub open spec fn lookup(regions: Seq<Region>, address: int) -> Option<u8>
    decreases regions.len(),
{
    if regions.len() == 0 {
        None
    } else if regions.last().covers(address) {
        Some(regions.last().bytes@[address - regions.last().base])
    } else {
        lookup(regions.drop_last(), address)
    }
}

/// Whether every byte of `[address, address + len)` is mapped.
pub open spec fn mapped(memory: Map<int, u8>, address: int, len: nat) -> bool {
    forall|a: int| address <= a < address + len ==> #[trigger] memory.dom().contains(a)
}

/// The `len` bytes at `address`.
pub open spec fn load(memory: Map<int, u8>, address: int, len: nat) -> Seq<u8> {
    Seq::new(len, |i: int| memory[address + i])
}

/// The memory after `bytes` were written at `address`.
pub open spec fn store(memory: Map<int, u8>, address: int, bytes: Seq<u8>) -> Map<int, u8> {
    Map::new(
        |a: int| memory.dom().contains(a),
        |a: int|
            if address <= a < address + bytes.len() {
                bytes[a - address]
            } else {
                memory[a]
            },
    )
}

/// The number that `bytes` spell in little-endian order.
pub open spec fn le_value(bytes: Seq<u8>) -> nat
    decreases bytes.len(),
{
    if bytes.len() == 0 {
        0
    } else {
        bytes[0] as nat + 256 * le_value(bytes.drop_first())
    }
}

/// The `len` little-endian bytes of `value` (its low bytes where it has more).
pub open spec fn le_bytes(value: nat, len: nat) -> Seq<u8>
    decreases len,
{
    if len == 0 {
        Seq::empty()
    } else {
        seq![(value % 256) as u8] + le_bytes(value / 256, (len - 1) as nat)
    }
}

/// Reading back the little-endian bytes of a number that fits gives the number.
pub proof fn le_round_trip(value: nat, len: nat)
    requires
        value < pow256(len),
    ensures
        le_bytes(value, len).len() == len,
        le_value(le_bytes(value, len)) == value,
    decreases len,
{
    if len > 0 {
        le_round_trip(value / 256, (len - 1) as nat);
        let rest = le_bytes(value / 256, (len - 1) as nat);
        assert((seq![(value % 256) as u8] + rest).drop_first() =~= rest);
    }
}

/// 256 to the power `len`: the first number that `len` bytes cannot hold.
pub open spec fn pow256(len: nat) -> nat
    decreases len,
{
    if len == 0 {
        1
    } else {
        256 * pow256((len - 1) as nat)
    }
}

/// Registers and memory of one guest thread.
#[derive(Debug, Clone)]
pub struct GuestCpu {
    /// Mapped memory.
    pub regions: Vec<Region>,
    /// First integer argument, and so on.
    pub rcx: u64,
    pub rdx: u64,
    pub r8: u64,
    pub r9: u64,
    /// Stack pointer; at an API stop it points at the return address.
    pub rsp: u64,
    /// Return value register.
    pub rax: u64,
    /// Base of the thread environment block.
    pub gs_base: u64,
}

proof fn lemma_lookup_push(regions: Seq<Region>, region: Region, address: int)
    ensures
        lookup(regions.push(region), address) == if region.covers(address) {
            Some(region.bytes@[address - region.base])
        } else {
            lookup(regions, address)
        },
{
    assert(regions.push(region).drop_last() =~= regions);
}

/// Where `hit` is the last region that covers `address`, it decides the lookup,
/// and changing one of its bytes changes the lookup at that byte only.
proof fn lemma_lookup_hit(regions: Seq<Region>, hit: int, address: int)
    requires
        0 <= hit < regions.len(),
        regions[hit].covers(address),
        forall|j: int| hit < j < regions.len() ==> !#[trigger] regions[j].covers(address),
    ensures
        lookup(regions, address) == Some(regions[hit].bytes@[address - regions[hit].base]),
    decreases regions.len(),
{
    if hit < regions.len() - 1 {
        assert(!regions[regions.len() - 1].covers(address));
        assert forall|j: int| hit < j < regions.drop_last().len() implies !#[trigger] regions.drop_last()[j].covers(address) by {
            assert(regions[j] == regions.drop_last()[j]);
        }
        lemma_lookup_hit(regions.drop_last(), hit, address);
    }
}

proof fn lemma_lookup_miss(regions: Seq<Region>, address: int)
    requires
        forall|j: int| 0 <= j < regions.len() ==> !#[trigger] regions[j].covers(address),
    ensures
        lookup(regions, address) == None::<u8>,
    decreases regions.len(),
{
    if regions.len() > 0 {
        assert(!regions[regions.len() - 1].covers(address));
        assert forall|j: int| 0 <= j < regions.drop_last().len() implies !#[trigger] regions.drop_last()[j].covers(address) by {
            assert(regions[j] == regions.drop_last()[j]);
        }
        lemma_lookup_miss(regions.drop_last(), address);
    }
}

proof fn lemma_lookup_update(before: Seq<Region>, after: Seq<Region>, hit: int, address: int, value: u8, probe: int)
    requires
        0 <= hit < before.len(),
        after.len() == before.len(),
        forall|j: int| 0 <= j < before.len() && j != hit ==> after[j] == #[trigger] before[j],
        after[hit].base == before[hit].base,
        before[hit].covers(address),
        after[hit].bytes@ == before[hit].bytes@.update(address - before[hit].base, value),
        forall|j: int| hit < j < before.len() ==> !#[trigger] before[j].covers(address),
    ensures
        lookup(after, probe) == if probe == address {
            Some(value)
        } else {
            lookup(before, probe)
        },
    decreases before.len(),
{
    let last = before.len() - 1;
    if hit == last {
        assert(before.drop_last() =~= after.drop_last());
    } else {
        assert(after[last] == before[last]);
        assert(!before[last].covers(address));
        assert forall|j: int| 0 <= j < before.drop_last().len() && j != hit implies after.drop_last()[j] == #[trigger] before.drop_last()[j] by {
            assert(after[j] == before[j]);
        }
        assert forall|j: int| hit < j < before.drop_last().len() implies !#[trigger] before.drop_last()[j].covers(address) by {
            assert(!before[j].covers(address));
        }
        lemma_lookup_update(before.drop_last(), after.drop_last(), hit, address, value, probe);
    }
}

impl GuestCpu {
    /// Memory contents by address.
    pub open spec fn memory(&self) -> Map<int, u8> {
        Map::new(
            |a: int| 0 <= a <= u64::MAX && lookup(self.regions@, a) is Some,
            |a: int| lookup(self.regions@, a)->0,
        )
    }

    /// Everything but the memory equals `other`'s.
    pub open spec fn same_registers(&self, other: &GuestCpu) -> bool {
        &&& self.rcx == other.rcx
        &&& self.rdx == other.rdx
        &&& self.r8 == other.r8
        &&& self.r9 == other.r9
        &&& self.rsp == other.rsp
        &&& self.rax == other.rax
        &&& self.gs_base == other.gs_base
    }

    /// Whether `after` is this machine after it returned `value` from an API call:
    /// one stack slot popped, the value in RAX, all else as it was.
    pub open spec fn returned(&self, value: u64, after: GuestCpu) -> bool {
        &&& after.rax == value
        &&& after.rsp == vstd::wrapping::u64_specs::wrapping_add(self.rsp, 8)
        &&& after.memory() == self.memory()
        &&& after.rcx == self.rcx
        &&& after.rdx == self.rdx
        &&& after.r8 == self.r8
        &&& after.r9 == self.r9
        &&& after.gs_base == self.gs_base
    }

    /// A machine with no mapped memory and zeroed registers.
    pub fn new() -> (cpu: Self)
        ensures
            cpu.memory() == Map::<int, u8>::empty(),
            cpu.rcx == 0,
            cpu.rdx == 0,
            cpu.r8 == 0,
            cpu.r9 == 0,
            cpu.rsp == 0,
            cpu.rax == 0,
            cpu.gs_base == 0,
    {
        let cpu = GuestCpu {
            regions: Vec::new(),
            rcx: 0,
            rdx: 0,
            r8: 0,
            r9: 0,
            rsp: 0,
            rax: 0,
            gs_base: 0,
        };
        assert(cpu.memory() =~= Map::<int, u8>::empty());
        cpu
    }

    /// Map `size` zero bytes at `base`. Refused where the range meets mapped
    /// memory or runs past the end of the address space.
    pub fn mem_map(&mut self, base: u64, size: usize) -> (result: Result<(), MemoryFault>)
        ensures
            final(self).same_registers(old(self)),
            result is Ok <==> base + size <= u64::MAX + 1 && forall|a: int|
                base <= a < base + size ==> !#[trigger] old(self).memory().dom().contains(a),
            match result {
                Ok(_) => final(self).memory() == old(self).memory().union_prefer_right(
                    Map::new(|a: int| base <= a < base + size, |a: int| 0u8),
                ),
                Err(fault) => *final(self) == *old(self) && fault.address == base,
            },
    {
        if size as u64 > 0 && (size as u64) - 1 > u64::MAX - base {
            return Err(MemoryFault { address: base });
        }
        let mut i: usize = 0;
        while i < size
            invariant
                i <= size,
                base + size <= u64::MAX + 1,
                forall|a: int| base <= a < base + i ==> !#[trigger] self.memory().dom().contains(a),
            decreases size - i,
        {
            if self.byte_at(base + i as u64).is_some() {
                assert(self.memory().dom().contains(base + i));
                return Err(MemoryFault { address: base });
            }
            i = i + 1;
        }
        let mut bytes: Vec<u8> = Vec::new();
        let mut n: usize = 0;
        while n < size
            invariant
                n <= size,
                bytes@.len() == n,
                forall|k: int| 0 <= k < n ==> bytes@[k] == 0,
            decreases size - n,
        {
            bytes.push(0);
            n = n + 1;
        }
        let ghost before = self.regions@;
        let region = Region { base, bytes };
        self.regions.push(region);
        proof {
            assert forall|a: int| lookup(#[trigger] before.push(region), a) == (if region.covers(a) {
                Some(region.bytes@[a - region.base])
            } else {
                lookup(before, a)
            }) by {
                lemma_lookup_push(before, region, a);
            }
            assert(self.regions@ == before.push(region));
            let added = Map::new(|a: int| base <= a < base + size, |a: int| 0u8);
            let expected = old(self).memory().union_prefer_right(added);
            assert(self.memory() =~= expected) by {
                assert forall|a: int| #[trigger] self.memory().dom().contains(a) == expected.dom().contains(a) by {
                    lemma_lookup_push(before, region, a);
                }
                assert forall|a: int| #[trigger] self.memory().dom().contains(a) implies self.memory()[a] == expected[a] by {
                    lemma_lookup_push(before, region, a);
                }
            }
        }
        Ok(())
    }

    /// The index of the last region that covers `address`.
    fn find(&self, address: u64) -> (hit: Option<usize>)
        ensures
            match hit {
                Some(i) => {
                    &&& i < self.regions@.len()
                    &&& self.regions@[i as int].covers(address as int)
                    &&& self.regions@[i as int].bytes@.len() <= usize::MAX
                    &&& forall|j: int| i < j < self.regions@.len() ==> !#[trigger] self.regions@[j].covers(address as int)
                },
                None => forall|j: int| 0 <= j < self.regions@.len() ==> !#[trigger] self.regions@[j].covers(address as int),
            },
    {
        let mut i: usize = self.regions.len();
        while i > 0
            invariant
                i <= self.regions@.len(),
                forall|j: int| i <= j < self.regions@.len() ==> !#[trigger] self.regions@[j].covers(address as int),
            decreases i,
        {
            i = i - 1;
            let region = &self.regions[i];
            if region.base <= address && address - region.base < region.bytes.len() as u64 {
                return Some(i);
            }
        }
        None
    }

    /// The byte at `address`, where it is mapped.
    pub fn byte_at(&self, address: u64) -> (byte: Option<u8>)
        ensures
            byte is Some <==> self.memory().dom().contains(address as int),
            byte is Some ==> byte == Some(self.memory()[address as int]),
    {
        match self.find(address) {
            Some(i) => {
                proof {
                    lemma_lookup_hit(self.regions@, i as int, address as int);
                }
                let region = &self.regions[i];
                Some(region.bytes[(address - region.base) as usize])
            },
            None => {
                proof {
                    lemma_lookup_miss(self.regions@, address as int);
                }
                None
            },
        }
    }

    /// Whether all of `[address, address + len)` is mapped.
    pub fn is_mapped(&self, address: u64, len: usize) -> (all: bool)
        ensures
            all == mapped(self.memory(), address as int, len as nat),
    {
        let mut i: usize = 0;
        while i < len
            invariant
                i <= len,
                i > 0 ==> address + i <= u64::MAX + 1,
                mapped(self.memory(), address as int, i as nat),
            decreases len - i,
        {
            if i as u64 > u64::MAX - address {
                proof {
                    assert(!self.memory().dom().contains(address + i));
                }
                return false;
            }
            if self.byte_at(address + i as u64).is_none() {
                assert(!self.memory().dom().contains(address + i));
                return false;
            }
            i = i + 1;
        }
        true
    }

    /// Read `len` bytes at `address`; refused where one of them is unmapped.
    pub fn mem_read(&self, address: u64, len: usize) -> (result: Result<Vec<u8>, MemoryFault>)
        ensures
            result is Ok <==> mapped(self.memory(), address as int, len as nat),
            match result {
                Ok(bytes) => bytes@ == load(self.memory(), address as int, len as nat),
                Err(fault) => fault.address == address,
            },
    {
        if !self.is_mapped(address, len) {
            return Err(MemoryFault { address });
        }
        let mut bytes: Vec<u8> = Vec::new();
        let mut i: usize = 0;
        while i < len
            invariant
                i <= len,
                mapped(self.memory(), address as int, len as nat),
                bytes@ =~= load(self.memory(), address as int, i as nat),
            decreases len - i,
        {
            assert(self.memory().dom().contains(address + i));
            match self.byte_at(address + i as u64) {
                Some(byte) => bytes.push(byte),
                None => {},
            }
            i = i + 1;
        }
        Ok(bytes)
    }

    fn set_byte(&mut self, address: u64, value: u8)
        requires
            old(self).memory().dom().contains(address as int),
        ensures
            final(self).same_registers(old(self)),
            final(self).memory() == store(old(self).memory(), address as int, seq![value]),
    {
        match self.find(address) {
            Some(i) => {
                let ghost before = self.regions@;
                let region = &mut self.regions[i];
                let offset: usize = (address - region.base) as usize;
                region.bytes[offset] = value;
                proof {
                    let expected = store(old(self).memory(), address as int, seq![value]);
                    assert forall|a: int| #[trigger] lookup(self.regions@, a) == (if a == address {
                        Some(value)
                    } else {
                        lookup(before, a)
                    }) by {
                        lemma_lookup_update(before, self.regions@, i as int, address as int, value, a);
                    }
                    assert(self.memory() =~= expected);
                }
            },
            None => {
                proof {
                    lemma_lookup_miss(self.regions@, address as int);
                    assert(false);
                }
            },
        }
    }

    /// Write `bytes` at `address`. All of them or, where one address is
    /// unmapped, none.
    pub fn mem_write(&mut self, address: u64, bytes: &[u8]) -> (result: Result<(), MemoryFault>)
        ensures
            final(self).same_registers(old(self)),
            result is Ok <==> mapped(old(self).memory(), address as int, bytes@.len()),
            match result {
                Ok(_) => final(self).memory() == store(old(self).memory(), address as int, bytes@),
                Err(fault) => *final(self) == *old(self) && fault.address == address,
            },
    {
        if !self.is_mapped(address, bytes.len()) {
            return Err(MemoryFault { address });
        }
        let len: usize = bytes.len();
        let mut i: usize = 0;
        while i < len
            invariant
                i <= len,
                len == bytes@.len(),
                self.same_registers(old(self)),
                mapped(old(self).memory(), address as int, len as nat),
                self.memory() =~= store(old(self).memory(), address as int, bytes@.take(i as int)),
            decreases len - i,
        {
            assert(old(self).memory().dom().contains(address + i));
            self.set_byte(address + i as u64, bytes[i]);
            i = i + 1;
        }
        assert(bytes@.take(len as int) =~= bytes@);
        Ok(())
    }

    /// Read the little-endian number of `len` bytes (at most 8) at `address`.
    fn read_le(&self, address: u64, len: usize) -> (result: Result<u64, MemoryFault>)
        requires
            len <= 8,
        ensures
            result is Ok <==> mapped(self.memory(), address as int, len as nat),
            match result {
                Ok(value) => value == le_value(load(self.memory(), address as int, len as nat))
                    && value < pow256(len as nat),
                Err(fault) => fault.address == address,
            },
    {
        match self.mem_read(address, len) {
            Err(fault) => Err(fault),
            Ok(bytes) => {
                let mut i: usize = len;
                let mut value: u64 = 0;
                proof {
                    assert(bytes@.skip(len as int) =~= Seq::<u8>::empty());
                    reveal_with_fuel(pow256, 9);
                }
                while i > 0
                    invariant
                        i <= len <= 8,
                        bytes@.len() == len,
                        value == le_value(bytes@.skip(i as int)),
                        value < pow256((len - i) as nat),
                        pow256((len - i) as nat) <= 0x1_0000_0000_0000_0000,
                    decreases i,
                {
                    proof {
                        reveal_with_fuel(pow256, 9);
                        assert(bytes@.skip(i - 1).drop_first() =~= bytes@.skip(i as int));
                        assert(bytes@.skip(i - 1)[0] == bytes@[i - 1]);
                        assert(pow256((len - i + 1) as nat) == 256 * pow256((len - i) as nat));
                        assert(pow256((len - i + 1) as nat) <= 0x1_0000_0000_0000_0000);
                    }
                    i = i - 1;
                    value = value * 256 + bytes[i] as u64;
                }
                assert(bytes@.skip(0) =~= bytes@);
                Ok(value)
            },
        }
    }

    /// Write the `len` low bytes (at most 8) of `value` at `address`.
    fn write_le(&mut self, address: u64, value: u64, len: usize) -> (result: Result<(), MemoryFault>)
        requires
            len <= 8,
        ensures
            final(self).same_registers(old(self)),
            result is Ok <==> mapped(old(self).memory(), address as int, len as nat),
            match result {
                Ok(_) => final(self).memory() == store(
                    old(self).memory(),
                    address as int,
                    le_bytes(value as nat, len as nat),
                ),
                Err(fault) => *final(self) == *old(self) && fault.address == address,
            },
    {
        let mut bytes: Vec<u8> = Vec::new();
        let mut rest: u64 = value;
        let mut i: usize = 0;
        while i < len
            invariant
                i <= len,
                bytes@ + le_bytes(rest as nat, (len - i) as nat) =~= le_bytes(value as nat, len as nat),
            decreases len - i,
        {
            let ghost before = bytes@;
            let ghost tail = le_bytes((rest / 256) as nat, (len - i - 1) as nat);
            assert(le_bytes(rest as nat, (len - i) as nat) == seq![(rest as nat % 256) as u8] + tail);
            bytes.push((rest % 256) as u8);
            rest = rest / 256;
            assert(bytes@ + tail =~= before + (seq![bytes@.last()] + tail));
            i = i + 1;
        }
        assert(bytes@ =~= le_bytes(value as nat, len as nat));
        proof {
            lemma_le_bytes_len(value as nat, len as nat);
        }
        self.mem_write(address, bytes.as_slice())
    }

    /// Read a `u16` at `address`.
    pub fn read_u16(&self, address: u64) -> (result: Result<u16, MemoryFault>)
        ensures
            result is Ok <==> mapped(self.memory(), address as int, 2),
            match result {
                Ok(value) => value == le_value(load(self.memory(), address as int, 2)),
                Err(fault) => fault.address == address,
            },
    {
        proof {
            reveal_with_fuel(pow256, 3);
        }
        match self.read_le(address, 2) {
            Ok(value) => Ok(value as u16),
            Err(fault) => Err(fault),
        }
    }

    /// Read a `u32` at `address`.
    pub fn read_u32(&self, address: u64) -> (result: Result<u32, MemoryFault>)
        ensures
            result is Ok <==> mapped(self.memory(), address as int, 4),
            match result {
                Ok(value) => value == le_value(load(self.memory(), address as int, 4)),
                Err(fault) => fault.address == address,
            },
    {
        proof {
            reveal_with_fuel(pow256, 5);
        }
        match self.read_le(address, 4) {
            Ok(value) => Ok(value as u32),
            Err(fault) => Err(fault),
        }
    }

    /// Read a `u64` at `address`.
    pub fn read_u64(&self, address: u64) -> (result: Result<u64, MemoryFault>)
        ensures
            result is Ok <==> mapped(self.memory(), address as int, 8),
            match result {
                Ok(value) => value == le_value(load(self.memory(), address as int, 8)),
                Err(fault) => fault.address == address,
            },
    {
        self.read_le(address, 8)
    }

    /// Write a `u32` at `address`.
    pub fn write_u32(&mut self, address: u64, value: u32) -> (result: Result<(), MemoryFault>)
        ensures
            final(self).same_registers(old(self)),
            result is Ok <==> mapped(old(self).memory(), address as int, 4),
            match result {
                Ok(_) => final(self).memory() == store(
                    old(self).memory(),
                    address as int,
                    le_bytes(value as nat, 4),
                ),
                Err(fault) => *final(self) == *old(self) && fault.address == address,
            },
    {
        self.write_le(address, value as u64, 4)
    }

    /// Write a `u64` at `address`.
    pub fn write_u64(&mut self, address: u64, value: u64) -> (result: Result<(), MemoryFault>)
        ensures
            final(self).same_registers(old(self)),
            result is Ok <==> mapped(old(self).memory(), address as int, 8),
            match result {
                Ok(_) => final(self).memory() == store(
                    old(self).memory(),
                    address as int,
                    le_bytes(value as nat, 8),
                ),
                Err(fault) => *final(self) == *old(self) && fault.address == address,
            },
    {
        self.write_le(address, value, 8)
    }

    /// Leave an API stop: pop the guest return address and put `value` in RAX.
    pub fn return_from_win64_api(&mut self, value: u64) -> (result: Result<u64, MemoryFault>)
        ensures
            result is Ok <==> mapped(old(self).memory(), old(self).rsp as int, 8),
            match result {
                Ok(return_address) => {
                    &&& return_address == le_value(load(old(self).memory(), old(self).rsp as int, 8))
                    &&& old(self).returned(value, *final(self))
                },
                Err(fault) => *final(self) == *old(self) && fault.address == old(self).rsp,
            },
    {
        match self.read_u64(self.rsp) {
            Err(fault) => Err(fault),
            Ok(return_address) => {
                self.rax = value;
                self.rsp = self.rsp.wrapping_add(8);
                Ok(return_address)
            },
        }
    }
}

proof fn lemma_le_bytes_len(value: nat, len: nat)
    ensures
        le_bytes(value, len).len() == len,
    decreases len,
{
    if len > 0 {
        lemma_le_bytes_len(value / 256, (len - 1) as nat);
    }
}

} // verus!
