//! Window messages and the parts of their parameters.
use vstd::prelude::*;

verus! {

pub const WM_SIZE: u32 = 0x0005;

pub const WM_SETFOCUS: u32 = 0x0007;

pub const WM_KILLFOCUS: u32 = 0x0008;

pub const WM_SETTEXT: u32 = 0x000C;

pub const WM_PAINT: u32 = 0x000F;

pub const WM_SETFONT: u32 = 0x0030;

pub const WM_GETFONT: u32 = 0x0031;

pub const WM_KEYDOWN: u32 = 0x0100;

pub const WM_KEYUP: u32 = 0x0101;

pub const WM_CHAR: u32 = 0x0102;

pub const WM_COMMAND: u32 = 0x0111;

pub const WM_TIMER: u32 = 0x0113;

pub const WM_HSCROLL: u32 = 0x0114;

pub const WM_VSCROLL: u32 = 0x0115;

pub const WM_MOUSEMOVE: u32 = 0x0200;

pub const WM_LBUTTONDOWN: u32 = 0x0201;

pub const WM_LBUTTONUP: u32 = 0x0202;

pub const WM_LBUTTONDBLCLK: u32 = 0x0203;

pub const WM_MOUSEWHEEL: u32 = 0x020A;

pub const WM_CUT: u32 = 0x0300;

pub const WM_COPY: u32 = 0x0301;

pub const WM_PASTE: u32 = 0x0302;

pub const WM_CLEAR: u32 = 0x0303;

pub const WM_UNDO: u32 = 0x0304;

pub const EM_GETSEL: u32 = 0x00B0;

pub const EM_SETSEL: u32 = 0x00B1;

pub const EM_SCROLLCARET: u32 = 0x00B7;

pub const EM_GETMODIFY: u32 = 0x00B8;

pub const EM_SETMODIFY: u32 = 0x00B9;

pub const EM_GETLINECOUNT: u32 = 0x00BA;

pub const EM_LINEINDEX: u32 = 0x00BB;

pub const EM_SETHANDLE: u32 = 0x00BC;

pub const EM_GETHANDLE: u32 = 0x00BD;

pub const EM_LINELENGTH: u32 = 0x00C1;

pub const EM_REPLACESEL: u32 = 0x00C2;

pub const EM_GETLINE: u32 = 0x00C4;

pub const EM_LIMITTEXT: u32 = 0x00C5;

pub const EM_CANUNDO: u32 = 0x00C6;

pub const EM_UNDO: u32 = 0x00C7;

pub const EM_LINEFROMCHAR: u32 = 0x00C9;

pub const EM_SETTABSTOPS: u32 = 0x00CB;

pub const EM_EMPTYUNDOBUFFER: u32 = 0x00CD;

pub const EM_GETFIRSTVISIBLELINE: u32 = 0x00CE;

pub const EM_GETLIMITTEXT: u32 = 0x00D5;

pub const EM_POSFROMCHAR: u32 = 0x00D6;

pub const EM_SELECTIONTYPE: u32 = 0x0442;

pub const BM_GETSTATE: u32 = 0x00F2;

pub const BM_SETSTATE: u32 = 0x00F3;

pub const BM_CLICK: u32 = 0x00F5;

pub const LB_ADDSTRING: u32 = 0x0180;

pub const LB_SETCURSEL: u32 = 0x0186;

pub const LB_GETCURSEL: u32 = 0x0188;

pub const SB_SETPARTS: u32 = 0x0404;

pub const SB_GETPARTS: u32 = 0x0406;

pub const SB_SETTEXTW: u32 = 0x040B;

pub const SB_GETTEXTLENGTHW: u32 = 0x040C;

pub const SB_GETTEXTW: u32 = 0x040D;

/// The low 16 bits of a parameter.
pub open spec fn low_word(value: u64) -> int {
    value as int % 0x10000
}

/// Bits 16 to 31 of a parameter.
pub open spec fn high_word(value: u64) -> int {
    (value as int / 0x10000) % 0x10000
}

/// The low 32 bits of a parameter.
pub open spec fn low_dword(value: u64) -> int {
    value as int % 0x1_0000_0000
}

/// A 16-bit number as a signed one.
pub open spec fn signed_word(word: int) -> int {
    if word >= 0x8000 {
        word - 0x10000
    } else {
        word
    }
}

/// Two words in one parameter, `low` in the low 16 bits.
pub open spec fn packed(low: int, high: int) -> int {
    low % 0x10000 + (high % 0x10000) * 0x10000
}

/// The low 16 bits of a parameter.
pub fn loword(value: u64) -> (word: u16)
    ensures
        word == low_word(value),
{
    (value % 0x10000) as u16
}

/// Bits 16 to 31 of a parameter.
pub fn hiword(value: u64) -> (word: u16)
    ensures
        word == high_word(value),
{
    (value / 0x10000 % 0x10000) as u16
}

/// The low 32 bits of a parameter.
pub fn lodword(value: u64) -> (word: u32)
    ensures
        word == low_dword(value),
{
    (value % 0x1_0000_0000) as u32
}

/// A 16-bit number as a signed one.
pub fn sign(word: u16) -> (value: i16)
    ensures
        value == signed_word(word as int),
{
    if word >= 0x8000 {
        (word as i32 - 0x10000) as i16
    } else {
        word as i16
    }
}

/// Pack two words in one parameter.
pub fn pack(low: u64, high: u64) -> (value: u64)
    ensures
        value == packed(low as int, high as int),
{
    low % 0x10000 + (high % 0x10000) * 0x10000
}

/// Packed words come apart again.
pub proof fn pack_round_trip(low: u16, high: u16, value: u64)
    requires
        value == packed(low as int, high as int),
    ensures
        low_word(value) == low,
        high_word(value) == high,
{
}

} // verus!
