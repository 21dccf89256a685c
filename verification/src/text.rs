//! Guest strings: Windows-1252 and UTF-16, NUL-terminated in guest memory.
use vstd::prelude::*;

use crate::cpu;
use crate::cpu::{GuestCpu, MemoryFault};

verus! {

/// Whether `code` is a Unicode scalar value.
pub open spec fn is_scalar(code: int) -> bool {
    0 <= code <= 0xD7FF || 0xE000 <= code <= 0x10FFFF
}

/// `char::from_u32` of the standard library: the character with this code point,
/// where there is one.
pub assume_specification[ char::from_u32 ](code: u32) -> (result: Option<char>)
    ensures
        match result {
            Some(c) => is_scalar(code as int) && c as int == code,
            None => !is_scalar(code as int),
        },
;

/// `String::push` of the standard library: appends one character.
pub assume_specification[ String::push ](s: &mut String, c: char)
    ensures
        final(s)@ == old(s)@.push(c),
;

/// Collect characters in a string.
pub fn to_string(chars: &[char]) -> (text: String)
    ensures
        text@ == chars@,
{
    let mut text = String::new();
    let mut i: usize = 0;
    while i < chars.len()
        invariant
            i <= chars@.len(),
            text@ == chars@.take(i as int),
        decreases chars@.len() - i,
    {
        text.push(chars[i]);
        i = i + 1;
        assert(text@ =~= chars@.take(i as int));
    }
    assert(chars@.take(i as int) =~= chars@);
    text
}

/// The characters of a string.
pub fn to_chars(text: &str) -> (chars: Vec<char>)
    ensures
        chars@ == text@,
{
    let mut chars: Vec<char> = Vec::new();
    for c in iter: text.chars()
        invariant
            chars@ == iter.seq().take(iter.index() as int),
            iter.seq() == text@,
    {
        chars.push(c);
        assert(chars@ =~= iter.seq().take(iter.index() + 1));
    }
    assert(chars@ =~= text@);
    chars
}

/// The character that a Windows-1252 byte stands for. The five unassigned bytes
/// stand for the control characters of the same number.
pub open spec fn ansi_char(byte: u8) -> char {
    match byte {
        0x80 => '\u{20AC}',
        0x82 => '\u{201A}',
        0x83 => '\u{0192}',
        0x84 => '\u{201E}',
        0x85 => '\u{2026}',
        0x86 => '\u{2020}',
        0x87 => '\u{2021}',
        0x88 => '\u{02C6}',
        0x89 => '\u{2030}',
        0x8A => '\u{0160}',
        0x8B => '\u{2039}',
        0x8C => '\u{0152}',
        0x8E => '\u{017D}',
        0x91 => '\u{2018}',
        0x92 => '\u{2019}',
        0x93 => '\u{201C}',
        0x94 => '\u{201D}',
        0x95 => '\u{2022}',
        0x96 => '\u{2013}',
        0x97 => '\u{2014}',
        0x98 => '\u{02DC}',
        0x99 => '\u{2122}',
        0x9A => '\u{0161}',
        0x9B => '\u{203A}',
        0x9C => '\u{0153}',
        0x9E => '\u{017E}',
        0x9F => '\u{0178}',
        _ => byte as char,
    }
}

/// The Windows-1252 byte of a character, `'?'` where it has none.
pub open spec fn ansi_byte(c: char) -> u8 {
    match c {
        '\u{20AC}' => 0x80,
        '\u{201A}' => 0x82,
        '\u{0192}' => 0x83,
        '\u{201E}' => 0x84,
        '\u{2026}' => 0x85,
        '\u{2020}' => 0x86,
        '\u{2021}' => 0x87,
        '\u{02C6}' => 0x88,
        '\u{2030}' => 0x89,
        '\u{0160}' => 0x8A,
        '\u{2039}' => 0x8B,
        '\u{0152}' => 0x8C,
        '\u{017D}' => 0x8E,
        '\u{2018}' => 0x91,
        '\u{2019}' => 0x92,
        '\u{201C}' => 0x93,
        '\u{201D}' => 0x94,
        '\u{2022}' => 0x95,
        '\u{2013}' => 0x96,
        '\u{2014}' => 0x97,
        '\u{02DC}' => 0x98,
        '\u{2122}' => 0x99,
        '\u{0161}' => 0x9A,
        '\u{203A}' => 0x9B,
        '\u{0153}' => 0x9C,
        '\u{017E}' => 0x9E,
        '\u{0178}' => 0x9F,
        _ => if (c as int) < 0x80 || 0xA0 <= (c as int) <= 0xFF || c as int == 0x81 || c as int == 0x8D || c as int
            == 0x8F || c as int == 0x90 || c as int == 0x9D {
            c as u8
        } else {
            0x3F
        },
    }
}

/// The character that a Windows-1252 byte stands for.
pub fn decode_ansi(byte: u8) -> (c: char)
    ensures
        c == ansi_char(byte),
{
    match byte {
        0x80 => '\u{20AC}',
        0x82 => '\u{201A}',
        0x83 => '\u{0192}',
        0x84 => '\u{201E}',
        0x85 => '\u{2026}',
        0x86 => '\u{2020}',
        0x87 => '\u{2021}',
        0x88 => '\u{02C6}',
        0x89 => '\u{2030}',
        0x8A => '\u{0160}',
        0x8B => '\u{2039}',
        0x8C => '\u{0152}',
        0x8E => '\u{017D}',
        0x91 => '\u{2018}',
        0x92 => '\u{2019}',
        0x93 => '\u{201C}',
        0x94 => '\u{201D}',
        0x95 => '\u{2022}',
        0x96 => '\u{2013}',
        0x97 => '\u{2014}',
        0x98 => '\u{02DC}',
        0x99 => '\u{2122}',
        0x9A => '\u{0161}',
        0x9B => '\u{203A}',
        0x9C => '\u{0153}',
        0x9E => '\u{017E}',
        0x9F => '\u{0178}',
        _ => byte as char,
    }
}

/// The Windows-1252 byte of a character, `'?'` where it has none.
pub fn encode_ansi(c: char) -> (byte: u8)
    ensures
        byte == ansi_byte(c),
{
    match c {
        '\u{20AC}' => 0x80,
        '\u{201A}' => 0x82,
        '\u{0192}' => 0x83,
        '\u{201E}' => 0x84,
        '\u{2026}' => 0x85,
        '\u{2020}' => 0x86,
        '\u{2021}' => 0x87,
        '\u{02C6}' => 0x88,
        '\u{2030}' => 0x89,
        '\u{0160}' => 0x8A,
        '\u{2039}' => 0x8B,
        '\u{0152}' => 0x8C,
        '\u{017D}' => 0x8E,
        '\u{2018}' => 0x91,
        '\u{2019}' => 0x92,
        '\u{201C}' => 0x93,
        '\u{201D}' => 0x94,
        '\u{2022}' => 0x95,
        '\u{2013}' => 0x96,
        '\u{2014}' => 0x97,
        '\u{02DC}' => 0x98,
        '\u{2122}' => 0x99,
        '\u{0161}' => 0x9A,
        '\u{203A}' => 0x9B,
        '\u{0153}' => 0x9C,
        '\u{017E}' => 0x9E,
        '\u{0178}' => 0x9F,
        _ => {
            let code: u32 = c as u32;
            if code < 0x80 || (0xA0 <= code && code <= 0xFF) || code == 0x81 || code == 0x8D || code == 0x8F || code
                == 0x90 || code == 0x9D {
                code as u8
            } else {
                0x3F
            }
        },
    }
}

/// Every byte survives decoding and encoding.
pub proof fn ansi_round_trip(byte: u8)
    ensures
        ansi_byte(ansi_char(byte)) == byte,
{
}

/// The characters that UTF-16 code units spell; an unpaired surrogate reads as
/// U+FFFD.
pub open spec fn utf16_decoded(units: Seq<u16>) -> Seq<char>
    decreases units.len(),
{
    if units.len() == 0 {
        Seq::empty()
    } else if 0xD800 <= units[0] <= 0xDBFF && units.len() > 1 && 0xDC00 <= units[1] <= 0xDFFF {
        seq![(0x10000 + (units[0] - 0xD800) * 0x400 + (units[1] - 0xDC00)) as char] + utf16_decoded(units.skip(2))
    } else if 0xD800 <= units[0] <= 0xDFFF {
        seq!['\u{FFFD}'] + utf16_decoded(units.skip(1))
    } else {
        seq![units[0] as char] + utf16_decoded(units.skip(1))
    }
}

/// The UTF-16 code units of one character.
pub open spec fn utf16_units(c: char) -> Seq<u16> {
    let code = c as int;
    if code < 0x10000 {
        seq![code as u16]
    } else {
        seq![(0xD800 + (code - 0x10000) / 0x400) as u16, (0xDC00 + (code - 0x10000) % 0x400) as u16]
    }
}

/// The UTF-16 code units of a text.
pub open spec fn utf16_encoded(text: Seq<char>) -> Seq<u16>
    decreases text.len(),
{
    if text.len() == 0 {
        Seq::empty()
    } else {
        utf16_encoded(text.drop_last()) + utf16_units(text.last())
    }
}

/// A text survives encoding and decoding.
pub proof fn utf16_round_trip(text: Seq<char>)
    ensures
        utf16_decoded(utf16_encoded(text)) == text,
    decreases text.len(),
{
    if text.len() > 0 {
        utf16_round_trip(text.drop_last());
        lemma_encoded_whole(text.drop_last());
        lemma_decode_append(utf16_encoded(text.drop_last()), utf16_units(text.last()));
        lemma_units_decode(text.last());
        assert(text =~= text.drop_last() + seq![text.last()]);
    }
}

/// Whether a unit sequence does not end in the first half of a pair.
spec fn whole(units: Seq<u16>) -> bool {
    units.len() == 0 || !(0xD800 <= units.last() <= 0xDBFF)
}

/// Every character is a Unicode scalar value.
proof fn lemma_scalar(c: char)
    ensures
        is_scalar(c as int),
{
}

proof fn lemma_encoded_whole(text: Seq<char>)
    ensures
        whole(utf16_encoded(text)),
{
    if text.len() > 0 {
        lemma_scalar(text.last());
        let units = utf16_units(text.last());
        assert(utf16_encoded(text).last() == units.last());
    }
}

proof fn lemma_units_decode(c: char)
    ensures
        utf16_decoded(utf16_units(c)) == seq![c],
{
    lemma_scalar(c);
    reveal_with_fuel(utf16_decoded, 2);
    let units = utf16_units(c);
    let code = c as int;
    assert(units.skip(units.len() as int) =~= Seq::<u16>::empty());
    if code >= 0x10000 {
        assert(units[0] == 0xD800 + (code - 0x10000) / 0x400);
        assert(units[1] == 0xDC00 + (code - 0x10000) % 0x400);
        assert((units[0] - 0xD800) * 0x400 + (units[1] - 0xDC00) == code - 0x10000);
    } else {
        assert(units[0] == code);
    }
    assert(utf16_decoded(units) =~= seq![c]);
}

proof fn lemma_prepend<T>(x: Seq<T>, y: Seq<T>, z: Seq<T>)
    ensures
        x + (y + z) == (x + y) + z,
{
    assert(x + (y + z) =~= (x + y) + z);
}

proof fn lemma_decode_append(a: Seq<u16>, b: Seq<u16>)
    requires
        whole(a),
    ensures
        utf16_decoded(a + b) == utf16_decoded(a) + utf16_decoded(b),
    decreases a.len(),
{
    if a.len() == 0 {
        assert(a + b =~= b);
        assert(utf16_decoded(a) + utf16_decoded(b) =~= utf16_decoded(b));
    } else {
        let n: int = if 0xD800 <= a[0] <= 0xDBFF && a.len() > 1 && 0xDC00 <= a[1] <= 0xDFFF {
            2
        } else {
            1
        };
        assert((a + b)[0] == a[0]);
        assert(a.len() > 1 ==> (a + b)[1] == a[1]);
        assert((a + b).skip(n) =~= a.skip(n) + b);
        assert(a.len() > n ==> a.skip(n).last() == a.last());
        lemma_decode_append(a.skip(n), b);
        let head = utf16_decoded(a).take(1);
        assert(utf16_decoded(a) =~= head + utf16_decoded(a.skip(n)));
        assert(utf16_decoded(a + b) =~= head + utf16_decoded((a + b).skip(n)));
        lemma_prepend(head, utf16_decoded(a.skip(n)), utf16_decoded(b));
    }
}

/// Decode UTF-16 code units; an unpaired surrogate reads as U+FFFD.
pub fn decode_utf16(units: &[u16]) -> (chars: Vec<char>)
    ensures
        chars@ == utf16_decoded(units@),
{
    let mut chars: Vec<char> = Vec::new();
    let mut i: usize = 0;
    assert(units@.skip(0) =~= units@);
    while i < units.len()
        invariant
            i <= units@.len(),
            chars@ + utf16_decoded(units@.skip(i as int)) == utf16_decoded(units@),
        decreases units@.len() - i,
    {
        let unit: u16 = units[i];
        let ghost before = chars@;
        let ghost rest = units@.skip(i as int);
        let high = 0xD800 <= unit && unit <= 0xDBFF;
        if high && units.len() - i > 1 && 0xDC00 <= units[i + 1] && units[i + 1] <= 0xDFFF {
            let code: u32 = 0x10000 + (unit as u32 - 0xD800) * 0x400 + (units[i + 1] as u32 - 0xDC00);
            match char::from_u32(code) {
                Some(c) => chars.push(c),
                None => {
                    assert(false);
                },
            }
            assert(rest.skip(2) =~= units@.skip(i + 2));
            i = i + 2;
        } else {
            match char::from_u32(unit as u32) {
                Some(c) => chars.push(c),
                None => chars.push('\u{FFFD}'),
            }
            assert(rest.skip(1) =~= units@.skip(i + 1));
            i = i + 1;
        }
        assert(chars@ + utf16_decoded(units@.skip(i as int)) =~= before + utf16_decoded(rest));
    }
    assert(utf16_decoded(units@.skip(i as int)) =~= Seq::<char>::empty());
    assert(chars@ + utf16_decoded(units@.skip(i as int)) =~= chars@);
    chars
}

/// Encode a text in UTF-16.
pub fn encode_utf16(text: &[char]) -> (units: Vec<u16>)
    ensures
        units@ == utf16_encoded(text@),
{
    let mut units: Vec<u16> = Vec::new();
    let mut i: usize = 0;
    while i < text.len()
        invariant
            i <= text@.len(),
            units@ == utf16_encoded(text@.take(i as int)),
        decreases text@.len() - i,
    {
        proof {
            lemma_scalar(text@[i as int]);
        }
        let code: u32 = text[i] as u32;
        let ghost before = units@;
        if code < 0x10000 {
            units.push(code as u16);
        } else {
            units.push((0xD800 + (code - 0x10000) / 0x400) as u16);
            units.push((0xDC00 + (code - 0x10000) % 0x400) as u16);
        }
        proof {
            assert(text@.take(i + 1).drop_last() =~= text@.take(i as int));
            assert(units@ =~= before + utf16_units(text@[i as int]));
        }
        i = i + 1;
    }
    assert(text@.take(i as int) =~= text@);
    units
}

/// Whether the `n` bytes at `address` are followed by a NUL, the first there.
pub open spec fn is_ansi_string(memory: Map<int, u8>, address: int, n: nat) -> bool {
    &&& cpu::mapped(memory, address, n + 1)
    &&& memory[address + n] == 0
    &&& forall|i: int| 0 <= i < n ==> #[trigger] memory[address + i] != 0
}

/// The text of the `n` bytes at `address`.
pub open spec fn ansi_text(memory: Map<int, u8>, address: int, n: nat) -> Seq<char> {
    Seq::new(n, |i: int| ansi_char(memory[address + i]))
}

/// The NUL-terminated Windows-1252 string at `address`, where memory holds one.
pub open spec fn ansi_string(memory: Map<int, u8>, address: int) -> Option<Seq<char>> {
    if exists|n: nat| is_ansi_string(memory, address, n) {
        Some(ansi_text(memory, address, choose|n: nat| is_ansi_string(memory, address, n)))
    } else {
        None
    }
}

pub(crate) proof fn lemma_ansi_unique(memory: Map<int, u8>, address: int, n: nat)
    requires
        is_ansi_string(memory, address, n),
    ensures
        ansi_string(memory, address) == Some(ansi_text(memory, address, n)),
{
    let m = choose|m: nat| is_ansi_string(memory, address, m);
    if m < n {
        assert(memory[address + m] != 0);
    }
    if n < m {
        assert(memory[address + n] != 0);
    }
}

/// Read a NUL-terminated Windows-1252 string. It fails where memory ends before a
/// NUL is found.
pub fn read_ansi(engine: &GuestCpu, address: u64) -> (result: Result<Vec<char>, MemoryFault>)
    ensures
        match result {
            Ok(chars) => ansi_string(engine.memory(), address as int) == Some(chars@),
            Err(fault) => ansi_string(engine.memory(), address as int) is None && fault.address == address,
        },
{
    let mut chars: Vec<char> = Vec::new();
    let mut at: u64 = address;
    loop
        invariant
            address <= at,
            chars@.len() == at - address,
            chars@ == ansi_text(engine.memory(), address as int, chars@.len()),
            cpu::mapped(engine.memory(), address as int, chars@.len()),
            forall|i: int| 0 <= i < chars@.len() ==> #[trigger] engine.memory()[address + i] != 0,
        decreases u64::MAX - at,
    {
        match engine.byte_at(at) {
            Some(byte) => {
                if byte == 0 {
                    proof {
                        assert(engine.memory().dom().contains(at as int));
                        lemma_ansi_unique(engine.memory(), address as int, chars@.len());
                    }
                    return Ok(chars);
                }
                let ghost before = chars@;
                chars.push(decode_ansi(byte));
                assert(chars@ =~= ansi_text(engine.memory(), address as int, chars@.len()));
                assert(engine.memory()[address + before.len()] == byte);
                if at == u64::MAX {
                    assert forall|n: nat| !is_ansi_string(engine.memory(), address as int, n) by {
                        if is_ansi_string(engine.memory(), address as int, n) {
                            assert(engine.memory().dom().contains(address + n));
                        }
                    }
                    return Err(MemoryFault { address });
                }
                at = at + 1;
            },
            None => {
                assert forall|n: nat| !is_ansi_string(engine.memory(), address as int, n) by {
                    if is_ansi_string(engine.memory(), address as int, n) {
                        assert(engine.memory().dom().contains(address + n));
                        if n >= chars@.len() {
                            assert(engine.memory().dom().contains(at as int));
                        } else {
                            assert(engine.memory()[address + n] != 0);
                        }
                    }
                }
                return Err(MemoryFault { address });
            },
        }
    }
}

/// The 16-bit unit number `i` at `address`.
pub open spec fn unit_at(memory: Map<int, u8>, address: int, i: int) -> int {
    memory[address + 2 * i] + 256 * memory[address + 2 * i + 1]
}

/// Whether the `n` units at `address` are followed by a NUL, the first there.
pub open spec fn is_wide_string(memory: Map<int, u8>, address: int, n: nat) -> bool {
    &&& cpu::mapped(memory, address, (2 * n + 2) as nat)
    &&& unit_at(memory, address, n as int) == 0
    &&& forall|i: int| 0 <= i < n ==> #[trigger] unit_at(memory, address, i) != 0
}

/// The `n` units at `address`.
pub open spec fn wide_units(memory: Map<int, u8>, address: int, n: nat) -> Seq<u16> {
    Seq::new(n, |i: int| unit_at(memory, address, i) as u16)
}

/// The units of the NUL-terminated UTF-16 string at `address`, where memory holds
/// one.
pub open spec fn wide_string(memory: Map<int, u8>, address: int) -> Option<Seq<u16>> {
    if exists|n: nat| is_wide_string(memory, address, n) {
        Some(wide_units(memory, address, choose|n: nat| is_wide_string(memory, address, n)))
    } else {
        None
    }
}

pub(crate) proof fn lemma_wide_unique(memory: Map<int, u8>, address: int, n: nat)
    requires
        is_wide_string(memory, address, n),
    ensures
        wide_string(memory, address) == Some(wide_units(memory, address, n)),
{
    let m = choose|m: nat| is_wide_string(memory, address, m);
    if m < n {
        assert(unit_at(memory, address, m as int) != 0);
    }
    if n < m {
        assert(unit_at(memory, address, n as int) != 0);
    }
}

/// Read the units of a NUL-terminated UTF-16 string. It fails where memory ends
/// before a NUL is found.
pub fn read_wide(engine: &GuestCpu, address: u64) -> (result: Result<Vec<u16>, MemoryFault>)
    ensures
        match result {
            Ok(units) => wide_string(engine.memory(), address as int) == Some(units@),
            Err(fault) => wide_string(engine.memory(), address as int) is None && fault.address == address,
        },
{
    let mut units: Vec<u16> = Vec::new();
    let mut at: u64 = address;
    loop
        invariant
            address <= at,
            2 * units@.len() == at - address,
            units@ == wide_units(engine.memory(), address as int, units@.len()),
            cpu::mapped(engine.memory(), address as int, (2 * units@.len()) as nat),
            forall|i: int| 0 <= i < units@.len() ==> #[trigger] unit_at(engine.memory(), address as int, i) != 0,
        decreases u64::MAX - at,
    {
        let unit: u16 = match engine.read_u16(at) {
            Ok(unit) => unit,
            Err(_) => {
                assert forall|n: nat| !is_wide_string(engine.memory(), address as int, n) by {
                    if is_wide_string(engine.memory(), address as int, n) {
                        if n >= units@.len() {
                            assert(cpu::mapped(engine.memory(), at as int, 2));
                        } else {
                            assert(unit_at(engine.memory(), address as int, n as int) != 0);
                        }
                    }
                }
                return Err(MemoryFault { address });
            },
        };
        proof {
            reveal_with_fuel(cpu::le_value, 3);
            let bytes = cpu::load(engine.memory(), at as int, 2);
            assert(bytes.drop_first().drop_first() =~= Seq::<u8>::empty());
            assert(bytes[0] == engine.memory()[at as int] && bytes[1] == engine.memory()[at + 1]);
            assert(bytes.drop_first()[0] == bytes[1]);
            assert(unit == unit_at(engine.memory(), address as int, units@.len() as int));
            assert(engine.memory().dom().contains(at + 1));
        }
        if unit == 0 {
            proof {
                assert forall|a: int| address <= a < address + 2 * units@.len() + 2 implies #[trigger] engine.memory().dom().contains(a) by {}
                lemma_wide_unique(engine.memory(), address as int, units@.len());
            }
            return Ok(units);
        }
        let ghost before = units@;
        units.push(unit);
        assert(units@ =~= wide_units(engine.memory(), address as int, units@.len()));
        assert forall|a: int| address <= a < address + 2 * units@.len() implies #[trigger] engine.memory().dom().contains(a) by {}
        assert forall|i: int| 0 <= i < units@.len() implies #[trigger] unit_at(engine.memory(), address as int, i) != 0 by {}
        if u64::MAX - at < 2 {
            assert forall|n: nat| !is_wide_string(engine.memory(), address as int, n) by {
                if is_wide_string(engine.memory(), address as int, n) {
                    if n >= units@.len() {
                        assert(engine.memory().dom().contains(address + 2 * n + 1));
                    } else {
                        assert(unit_at(engine.memory(), address as int, n as int) != 0);
                    }
                }
            }
            return Err(MemoryFault { address });
        }
        at = at + 2;
    }
}

/// The text behind a pointer, in UTF-16 or Windows-1252; a null pointer is an empty
/// text.
pub open spec fn pointed_name(memory: Map<int, u8>, pointer: u64, wide: bool) -> Option<Seq<char>> {
    if pointer == 0 {
        Some(Seq::empty())
    } else if wide {
        match wide_string(memory, pointer as int) {
            Some(units) => Some(utf16_decoded(units)),
            None => None,
        }
    } else {
        ansi_string(memory, pointer as int)
    }
}

/// Read the text behind a pointer, in UTF-16 or Windows-1252.
pub fn read_name(engine: &GuestCpu, pointer: u64, wide: bool) -> (result: Result<Vec<char>, MemoryFault>)
    ensures
        match result {
            Ok(chars) => pointed_name(engine.memory(), pointer, wide) == Some(chars@),
            Err(fault) => pointed_name(engine.memory(), pointer, wide) is None && fault.address == pointer,
        },
{
    if pointer == 0 {
        let none: Vec<char> = Vec::new();
        assert(none@ =~= Seq::<char>::empty());
        Ok(none)
    } else if wide {
        match read_wide(engine, pointer) {
            Ok(units) => Ok(decode_utf16(&units)),
            Err(fault) => Err(fault),
        }
    } else {
        read_ansi(engine, pointer)
    }
}

/// `c` with ASCII upper-case letters in lower case.
pub open spec fn folded(c: char) -> char {
    if 'A' <= c <= 'Z' {
        (c as int + 32) as char
    } else {
        c
    }
}

/// Whether two names are equal without regard to ASCII case.
pub open spec fn same_name(a: Seq<char>, b: Seq<char>) -> bool {
    a.map_values(|c: char| folded(c)) == b.map_values(|c: char| folded(c))
}

fn fold(c: char) -> (lower: u32)
    ensures
        lower == folded(c) as int,
{
    let code: u32 = c as u32;
    if 65 <= code && code <= 90 {
        code + 32
    } else {
        code
    }
}

/// Whether two names are equal without regard to ASCII case.
pub fn names_match(a: &[char], b: &[char]) -> (same: bool)
    ensures
        same == same_name(a@, b@),
{
    let ghost fa = a@.map_values(|c: char| folded(c));
    let ghost fb = b@.map_values(|c: char| folded(c));
    if a.len() != b.len() {
        assert(fa.len() != fb.len());
        return false;
    }
    let mut i: usize = 0;
    while i < a.len()
        invariant
            i <= a@.len(),
            a@.len() == b@.len(),
            fa == a@.map_values(|c: char| folded(c)),
            fb == b@.map_values(|c: char| folded(c)),
            forall|j: int| 0 <= j < i ==> #[trigger] fa[j] == fb[j],
        decreases a@.len() - i,
    {
        if fold(a[i]) != fold(b[i]) {
            assert(fa[i as int] != fb[i as int]);
            return false;
        }
        assert(fa[i as int] == fb[i as int]);
        i = i + 1;
    }
    assert(fa =~= fb);
    true
}

} // verus!
