//! Guest text, logical lines and message parameters.
use wie_winapi::cpu::{GuestCpu, MemoryFault};
use wie_winapi::lines::{end_of_line, line_number, nth_line_start, start_of_line};
use wie_winapi::messages::{hiword, lodword, loword, pack, sign};
use wie_winapi::text::{
    decode_ansi, decode_utf16, encode_ansi, encode_utf16, names_match, read_ansi, read_name, read_wide, to_chars, to_string,
};

fn chars(text: &str) -> Vec<char> {
    text.chars().collect()
}

#[test]
fn ansi_bytes_round_trip() {
    for byte in 0..=255_u8 {
        assert_eq!(encode_ansi(decode_ansi(byte)), byte);
    }
    assert_eq!(decode_ansi(0x80), '\u{20AC}');
    assert_eq!(decode_ansi(0xE9), '\u{E9}');
    assert_eq!(encode_ansi('\u{20AC}'), 0x80);
    assert_eq!(encode_ansi('\u{4E2D}'), b'?');
}

#[test]
fn utf16_round_trips_and_repairs() {
    let text = chars("a\u{20AC}\u{1F600}z");
    let units = encode_utf16(&text);
    assert_eq!(units, [0x61, 0x20AC, 0xD83D, 0xDE00, 0x7A]);
    assert_eq!(decode_utf16(&units), text);
    assert_eq!(decode_utf16(&[0xD83D, 0x61]), chars("\u{FFFD}a"));
    assert_eq!(decode_utf16(&[0xDE00]), chars("\u{FFFD}"));
    assert_eq!(decode_utf16(&[0xD83D]), chars("\u{FFFD}"));
}

#[test]
fn strings_and_characters_convert() {
    assert_eq!(to_chars("h\u{E9}"), chars("h\u{E9}"));
    assert_eq!(to_string(&chars("h\u{E9}")), "h\u{E9}");
}

#[test]
fn guest_strings_end_at_a_nul() {
    let mut cpu = GuestCpu::new();
    cpu.mem_map(0x1000, 0x10).expect("map");
    cpu.mem_write(0x1000, b"abc\0d").expect("write");
    assert_eq!(read_ansi(&cpu, 0x1000), Ok(chars("abc")));
    assert_eq!(read_ansi(&cpu, 0x1003), Ok(Vec::new()));
    cpu.mem_write(0x100C, b"wxyz").expect("write");
    assert_eq!(read_ansi(&cpu, 0x100C), Err(MemoryFault { address: 0x100C }), "memory ends before a NUL");
    cpu.mem_write(0x1000, &[0x61, 0, 0, 1, 0, 0]).expect("write");
    assert_eq!(read_wide(&cpu, 0x1000), Ok(vec![0x61, 0x100]));
    assert_eq!(read_wide(&cpu, 0x100D), Err(MemoryFault { address: 0x100D }));
    assert_eq!(read_name(&cpu, 0x1000, true), Ok(chars("a\u{100}")));
    assert_eq!(read_name(&cpu, 0x1000, false), Ok(chars("a")));
    assert_eq!(read_name(&cpu, 0, true), Ok(Vec::new()));
}

#[test]
fn names_match_without_case() {
    assert!(names_match(&chars("EdIt"), &chars("eDiT")));
    assert!(!names_match(&chars("edit"), &chars("edits")));
    assert!(!names_match(&chars("edit"), &chars("exit")));
    assert!(!names_match(&chars("\u{C9}"), &chars("\u{E9}")), "only ASCII letters fold");
}

#[test]
fn lines_are_separated_by_newlines() {
    let text = chars("ab\n\ncd");
    let found: Vec<(usize, usize, usize)> = (0..=text.len())
        .map(|i| (line_number(&text, i), start_of_line(&text, i), end_of_line(&text, i)))
        .collect();
    assert_eq!(found, [(0, 0, 2), (0, 0, 2), (0, 0, 2), (1, 3, 3), (2, 4, 6), (2, 4, 6), (2, 4, 6)]);
    assert_eq!(nth_line_start(&text, 0), Some(0));
    assert_eq!(nth_line_start(&text, 1), Some(3));
    assert_eq!(nth_line_start(&text, 2), Some(4));
    assert_eq!(nth_line_start(&text, 3), None);
    assert_eq!(nth_line_start(&chars(""), 0), Some(0));
    assert_eq!(nth_line_start(&chars("a\n"), 1), Some(2));
}

#[test]
fn parameters_come_apart() {
    let value = 0xABCD_8001_FFFE_0102;
    assert_eq!((loword(value), hiword(value), lodword(value)), (0x0102, 0xFFFE, 0xFFFE_0102));
    assert_eq!((sign(0xFFFE), sign(0x7FFF), sign(0x8000)), (-2, 0x7FFF, -0x8000));
    assert_eq!(pack(0x1_000C, 0x0300), 0x0300_000C);
}
