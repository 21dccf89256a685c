//! Guest memory keeps what is written to it, and texts in it are read as they stand.
use vstd::prelude::*;

use crate::cpu;
use crate::cpu::{GuestCpu, MemoryFault};
use crate::heap;
use crate::process::GuestHeap;
use crate::state;
use crate::state::WinApiHandlerResult;
use crate::text;

verus! {

/// What is written is read back, and every other byte stays as it was; writing maps and
/// unmaps nothing.
pub proof fn written_bytes_are_read_back(memory: Map<int, u8>, address: int, bytes: Seq<u8>, other: int)
    requires
        cpu::mapped(memory, address, bytes.len()),
    ensures
        cpu::load(cpu::store(memory, address, bytes), address, bytes.len()) == bytes,
        cpu::store(memory, address, bytes).dom() == memory.dom(),
        memory.dom().contains(other) && !(address <= other < address + bytes.len()) ==> cpu::store(
            memory,
            address,
            bytes,
        )[other] == memory[other],
{
    let after = cpu::store(memory, address, bytes);
    assert forall|i: int| 0 <= i < bytes.len() implies #[trigger] after[address + i] == bytes[i] by {
        assert(memory.dom().contains(address + i));
    }
    assert(cpu::load(after, address, bytes.len()) =~= bytes);
    assert(after.dom() =~= memory.dom());
}

/// Numbers stand in memory with their low byte first.
pub proof fn numbers_stand_low_byte_first(memory: Map<int, u8>, address: int)
    ensures
        cpu::le_value(cpu::load(memory, address, 2)) == memory[address] + 256 * memory[address + 1],
        cpu::le_value(cpu::load(memory, address, 4)) == memory[address] + 256 * memory[address + 1] + 65536
            * memory[address + 2] + 16777216 * memory[address + 3],
        cpu::le_value(cpu::load(memory, address, 8)) == cpu::le_value(cpu::load(memory, address, 4)) + 0x1_0000_0000
            * cpu::le_value(cpu::load(memory, address + 4, 4)),
{
    reveal_with_fuel(cpu::le_value, 9);
    let two = cpu::load(memory, address, 2);
    let four = cpu::load(memory, address, 4);
    let eight = cpu::load(memory, address, 8);
    let upper = cpu::load(memory, address + 4, 4);
    assert(two.drop_first() =~= seq![memory[address + 1]]);
    assert(two.drop_first().drop_first() =~= Seq::<u8>::empty());
    assert(four.drop_first() =~= cpu::load(memory, address + 1, 3));
    assert(four.drop_first().drop_first() =~= cpu::load(memory, address + 2, 2));
    assert(four.drop_first().drop_first().drop_first() =~= cpu::load(memory, address + 3, 1));
    assert(four.drop_first().drop_first().drop_first().drop_first() =~= Seq::<u8>::empty());
    assert(eight.drop_first() =~= cpu::load(memory, address + 1, 7));
    assert(eight.drop_first().drop_first() =~= cpu::load(memory, address + 2, 6));
    assert(eight.drop_first().drop_first().drop_first() =~= cpu::load(memory, address + 3, 5));
    assert(eight.drop_first().drop_first().drop_first().drop_first() =~= upper);
}

/// A number that is written where it fits is the number that is read.
pub proof fn written_numbers_are_read_back(memory: Map<int, u8>, address: int, value: u64)
    requires
        cpu::mapped(memory, address, 8),
    ensures
        cpu::le_value(cpu::load(cpu::store(memory, address, cpu::le_bytes(value as nat, 8)), address, 8)) == value,
        value <= u32::MAX ==> cpu::le_value(
            cpu::load(cpu::store(memory, address, cpu::le_bytes(value as nat, 4)), address, 4),
        ) == value,
{
    assert(cpu::pow256(8) == 0x1_0000_0000_0000_0000 && cpu::pow256(4) == 0x1_0000_0000) by {
        reveal_with_fuel(cpu::pow256, 9);
    }
    cpu::le_round_trip(value as nat, 8);
    written_bytes_are_read_back(memory, address, cpu::le_bytes(value as nat, 8), 0);
    if value <= u32::MAX {
        cpu::le_round_trip(value as nat, 4);
        assert(cpu::mapped(memory, address, 4));
        written_bytes_are_read_back(memory, address, cpu::le_bytes(value as nat, 4), 0);
    }
}

/// A call that ends goes on at the address on top of the stack, with that slot popped
/// and the result in RAX; memory and the other registers are as they were. Where the
/// stack cannot be read nothing changes.
pub proof fn calls_return_to_the_caller(
    before: GuestCpu,
    after: GuestCpu,
    value: u64,
    result: Result<WinApiHandlerResult, MemoryFault>,
)
    requires
        state::call_returned(before, after, value, result),
    ensures
        match result {
            Ok(done) => {
                &&& done.return_address == cpu::le_value(cpu::load(before.memory(), before.rsp as int, 8))
                &&& done.return_value == value
                &&& after.rax == value
                &&& before.rsp + 8 <= u64::MAX ==> after.rsp == before.rsp + 8
                &&& after.rcx == before.rcx && after.rdx == before.rdx && after.r8 == before.r8 && after.r9 == before.r9
                &&& after.gs_base == before.gs_base
                &&& after.memory() == before.memory()
            },
            Err(fault) => fault.address == before.rsp && after == before,
        },
        (forall|a: int| before.rsp <= a < before.rsp + 8 ==> #[trigger] before.memory().dom().contains(a))
            <==> result is Ok,
{
    assert(cpu::mapped(before.memory(), before.rsp as int, 8) <==> forall|a: int|
        before.rsp <= a < before.rsp + 8 ==> #[trigger] before.memory().dom().contains(a));
}

/// A heap block lies inside the heap, past the control block and past everything that
/// was handed out before, at a multiple of sixteen; the next one starts behind it. It
/// holds what it was made for, and nothing else in memory changes but the cursor.
pub proof fn heap_blocks_lie_behind_one_another(memory: Map<int, u8>, heap: GuestHeap, bytes: Seq<u8>, start: int, a: int)
    requires
        heap::allocation(memory, heap, bytes.len()) == Some(Some(start)),
    ensures
        start % 16 == 0,
        heap.base + 16 <= start,
        cpu::le_value(cpu::load(memory, heap.base as int, 8)) <= start,
        start + bytes.len() <= heap.end,
        ({
            let after = heap::with_block(memory, heap, bytes);
            &&& cpu::load(after, start, bytes.len()) == bytes
            &&& cpu::le_value(cpu::load(after, heap.base as int, 8)) == start + bytes.len()
            &&& after.dom() == memory.dom()
            &&& memory.dom().contains(a) && !(start <= a < start + bytes.len()) && !(heap.base <= a < heap.base + 8)
                ==> after[a] == memory[a]
        }),
{
    let end = (start + bytes.len()) as nat;
    assert(cpu::pow256(8) == 0x1_0000_0000_0000_0000) by {
        reveal_with_fuel(cpu::pow256, 9);
    }
    cpu::le_round_trip(end, 8);
    let word = cpu::le_bytes(end, 8);
    let between = cpu::store(memory, heap.base as int, word);
    written_bytes_are_read_back(memory, heap.base as int, word, a);
    assert(cpu::mapped(between, start, bytes.len()));
    written_bytes_are_read_back(between, start, bytes, a);
    let after = heap::with_block(memory, heap, bytes);
    assert forall|i: int| 0 <= i < 8 implies after[heap.base + i] == word[i] by {
        assert(memory.dom().contains(heap.base + i));
    }
    assert(cpu::load(after, heap.base as int, 8) =~= word);
}

/// The heap is full exactly if the block would run past its end.
pub proof fn a_full_heap_gives_nothing(memory: Map<int, u8>, heap: GuestHeap, len: nat)
    requires
        cpu::mapped(memory, heap.base as int, 8),
        heap::allocation(memory, heap, len) == Some(None::<int>),
    ensures
        ({
            let used = cpu::le_value(cpu::load(memory, heap.base as int, 8)) as int;
            let free = if used < heap.base + 16 {
                heap.base + 16
            } else {
                used
            };
            free + 15 + len > heap.end
        }),
{
}

/// The code points of the Windows-1252 bytes from 0x80 to 0x9F.
pub open spec fn windows_1252_block() -> Seq<int> {
    seq![
        0x20ACint, 0x81, 0x201A, 0x192, 0x201E, 0x2026, 0x2020, 0x2021, 0x2C6, 0x2030, 0x160, 0x2039, 0x152, 0x8D, 0x17D,
        0x8F, 0x90, 0x2018, 0x2019, 0x201C, 0x201D, 0x2022, 0x2013, 0x2014, 0x2DC, 0x2122, 0x161, 0x203A, 0x153, 0x9D,
        0x17E, 0x178,
    ]
}

/// Bytes outside the block from 0x80 to 0x9F stand for the character of their number;
/// inside it they stand for what Windows-1252 has there. A character is written as the
/// byte that stands for it, and as a question mark only if there is none.
pub proof fn bytes_are_windows_1252(byte: u8, c: char)
    ensures
        byte < 0x80 || byte >= 0xA0 ==> text::ansi_char(byte) as int == byte,
        0x80 <= byte < 0xA0 ==> text::ansi_char(byte) as int == windows_1252_block()[byte - 0x80],
        text::ansi_byte(text::ansi_char(byte)) == byte,
        text::ansi_byte(c) != 0x3F ==> text::ansi_char(text::ansi_byte(c)) == c,
        text::ansi_char(byte) == c ==> text::ansi_byte(c) == byte,
{
}

/// A byte string ends at its first NUL: as many characters as bytes before it, each the
/// one that its byte stands for. A null pointer is an empty text, and memory without a
/// NUL holds none.
pub proof fn byte_strings_end_at_the_first_nul(memory: Map<int, u8>, pointer: u64, n: nat)
    requires
        pointer != 0,
        forall|a: int| pointer <= a <= pointer + n ==> #[trigger] memory.dom().contains(a),
        memory[pointer + n] == 0,
        forall|i: int| 0 <= i < n ==> #[trigger] memory[pointer + i] != 0,
    ensures
        text::pointed_name(memory, pointer, false) matches Some(chars) && chars.len() == n && forall|i: int|
            0 <= i < n ==> #[trigger] chars[i] == text::ansi_char(memory[pointer + i]),
        text::pointed_name(memory, 0, false) == Some(Seq::<char>::empty()),
{
    assert(text::is_ansi_string(memory, pointer as int, n));
    text::lemma_ansi_unique(memory, pointer as int, n);
}

/// A text of 16-bit units ends at the first unit that is NUL. Units outside the range of
/// surrogates are the characters of their number.
pub proof fn wide_strings_end_at_the_first_nul(memory: Map<int, u8>, pointer: u64, n: nat)
    requires
        pointer != 0,
        forall|a: int| pointer <= a < pointer + 2 * n + 2 ==> #[trigger] memory.dom().contains(a),
        memory[pointer + 2 * n] == 0,
        memory[pointer + 2 * n + 1] == 0,
        forall|i: int|
            0 <= i < n ==> #[trigger] memory[pointer + 2 * i] + 256 * memory[pointer + 2 * i + 1] != 0,
    ensures
        text::wide_string(memory, pointer as int) matches Some(units) && units.len() == n && forall|i: int|
            0 <= i < n ==> #[trigger] units[i] == memory[pointer + 2 * i] + 256 * memory[pointer + 2 * i + 1],
{
    assert forall|i: int| 0 <= i < n implies #[trigger] text::unit_at(memory, pointer as int, i) != 0 by {
        assert(memory[pointer + 2 * i] + 256 * memory[pointer + 2 * i + 1] != 0);
    }
    assert(text::is_wide_string(memory, pointer as int, n));
    text::lemma_wide_unique(memory, pointer as int, n);
}

/// A character up to U+FFFF is one unit, its number; one beyond is a pair of surrogates
/// that hold its upper and its lower ten bits.
pub proof fn characters_are_one_unit_or_a_pair(c: char)
    ensures
        c as int <= 0xFFFF ==> text::utf16_units(c) == seq![c as u16] && text::utf16_units(c)[0] == c as int,
        c as int > 0xFFFF ==> {
            let units = text::utf16_units(c);
            &&& units.len() == 2
            &&& 0xD800 <= units[0] <= 0xDBFF
            &&& 0xDC00 <= units[1] <= 0xDFFF
            &&& c as int == 0x10000 + (units[0] - 0xD800) * 0x400 + (units[1] - 0xDC00)
        },
{
}

/// Units outside the range of surrogates decode to the character of their number, one
/// each; a surrogate that stands alone is the replacement character.
pub proof fn single_units_decode_to_themselves(units: Seq<u16>)
    requires
        forall|i: int| 0 <= i < units.len() ==> !(0xD800 <= #[trigger] units[i] <= 0xDFFF),
    ensures
        text::utf16_decoded(units).len() == units.len(),
        forall|i: int| 0 <= i < units.len() ==> (#[trigger] text::utf16_decoded(units)[i]) as int == units[i],
    decreases units.len(),
{
    if units.len() > 0 {
        let rest = units.skip(1);
        assert forall|i: int| 0 <= i < rest.len() implies !(0xD800 <= #[trigger] rest[i] <= 0xDFFF) by {
            assert(rest[i] == units[i + 1]);
        }
        single_units_decode_to_themselves(rest);
        assert(text::utf16_decoded(units) == seq![units[0] as char] + text::utf16_decoded(rest));
        assert forall|i: int| 0 <= i < units.len() implies (#[trigger] text::utf16_decoded(units)[i]) as int
            == units[i] by {
            if i > 0 {
                assert(text::utf16_decoded(units)[i] == text::utf16_decoded(rest)[i - 1]);
                assert(rest[i - 1] == units[i]);
            }
        }
    }
}

/// Units decode one after the other: a pair of surrogates is one character, a surrogate
/// without its partner is the replacement character, any other unit is itself.
pub proof fn units_decode_one_after_the_other(units: Seq<u16>)
    requires
        units.len() > 0,
    ensures
        ({
            let decoded = text::utf16_decoded(units);
            let pair = 0xD800 <= units[0] <= 0xDBFF && units.len() > 1 && 0xDC00 <= units[1] <= 0xDFFF;
            &&& decoded.len() > 0
            &&& pair ==> decoded[0] as int == 0x10000 + (units[0] - 0xD800) * 0x400 + (units[1] - 0xDC00)
                && decoded.skip(1) == text::utf16_decoded(units.skip(2))
            &&& !pair && 0xD800 <= units[0] <= 0xDFFF ==> decoded[0] as int == 0xFFFD
            &&& !pair && !(0xD800 <= units[0] <= 0xDFFF) ==> decoded[0] as int == units[0]
            &&& !pair ==> decoded.skip(1) == text::utf16_decoded(units.skip(1))
        }),
{
    let decoded = text::utf16_decoded(units);
    let pair = 0xD800 <= units[0] <= 0xDBFF && units.len() > 1 && 0xDC00 <= units[1] <= 0xDFFF;
    if pair {
        assert(decoded.skip(1) =~= text::utf16_decoded(units.skip(2)));
    } else {
        assert(decoded.skip(1) =~= text::utf16_decoded(units.skip(1)));
    }
}

/// A call that wrote to guest memory leaves what it wrote, returns its value in RAX and
/// goes on at the address on top of the stack as it then stands.
pub proof fn answered_calls_leave_what_they_wrote(
    before: GuestCpu,
    written: Map<int, u8>,
    after: GuestCpu,
    value: u64,
    result: Result<WinApiHandlerResult, MemoryFault>,
)
    requires
        state::answered(before, written, after, value, result),
    ensures
        after.memory() == written,
        after.rcx == before.rcx && after.rdx == before.rdx && after.r8 == before.r8 && after.r9 == before.r9,
        result is Ok <==> cpu::mapped(written, before.rsp as int, 8),
        result matches Ok(done) ==> done.return_value == value && after.rax == value && done.return_address
            == cpu::le_value(cpu::load(written, before.rsp as int, 8)) && (before.rsp + 8 <= u64::MAX ==> after.rsp
            == before.rsp + 8),
        result matches Err(fault) ==> fault.address == before.rsp && after.rax == before.rax && after.rsp == before.rsp,
{
}

} // verus!
