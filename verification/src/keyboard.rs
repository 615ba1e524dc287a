//! The keyboard controller: its status bit and the scancode table.
//!
//! The controller hands out one byte per key event. Bytes below `0x80` are
//! make codes (a key went down), the others are break codes (a key came
//! up). Only make codes of keys that print, plus tab, enter and backspace,
//! stand for a character; there is no shift or other modifier state.

use vstd::prelude::*;

verus! {

/// Number of make codes, and the first break code.
pub const BREAK_CODE_START: u8 = 0x80;

/// The character that the backspace key produces.
pub const BACKSPACE: char = '\x08';

/// The scancode table in memory: entry `i` is the ASCII byte of the
/// character for make code `i`, or 0 where the key has no character.
pub const SCANCODE_MAP: [u8; 128] = [
    0x00, 0x00, 0x31, 0x32, 0x33, 0x34, 0x35, 0x36,
    0x37, 0x38, 0x39, 0x30, 0x2D, 0x3D, 0x08, 0x09,
    0x51, 0x57, 0x45, 0x52, 0x54, 0x59, 0x55, 0x49,
    0x4F, 0x50, 0x5B, 0x5D, 0x0A, 0x00, 0x41, 0x53,
    0x44, 0x46, 0x47, 0x48, 0x4A, 0x4B, 0x4C, 0x3B,
    0x27, 0x60, 0x00, 0x5C, 0x5A, 0x58, 0x43, 0x56,
    0x42, 0x4E, 0x4D, 0x2C, 0x2E, 0x2F, 0x00, 0x2A,
    0x00, 0x20, 0x00, 0x00, 0x00, 0x00, 0x00, 0x00,
    0x00, 0x00, 0x00, 0x00, 0x00, 0x00, 0x00, 0x00,
    0x00, 0x00, 0x00, 0x00, 0x00, 0x00, 0x00, 0x00,
    0x00, 0x00, 0x00, 0x00, 0x00, 0x00, 0x00, 0x00,
    0x00, 0x00, 0x00, 0x00, 0x00, 0x00, 0x00, 0x00,
    0x00, 0x00, 0x00, 0x00, 0x00, 0x00, 0x00, 0x00,
    0x00, 0x00, 0x00, 0x00, 0x00, 0x00, 0x00, 0x00,
    0x00, 0x00, 0x00, 0x00, 0x00, 0x00, 0x00, 0x00,
    0x00, 0x00, 0x00, 0x00, 0x00, 0x00, 0x00, 0x00,
];

/// Whether a status byte says that a scancode waits in the data register:
/// bit 0 of the status register is set.
pub open spec fn data_ready(status: u8) -> bool {
    status % 2 == 1
}

/// The character of each key, by scancode (US layout, scancode set 1,
/// unshifted). Keys that print nothing, unused codes and all break codes
/// have none.
pub open spec fn scancode_char(code: u8) -> Option<char> {
    match code {
        0x02 => Some('1'),
        0x03 => Some('2'),
        0x04 => Some('3'),
        0x05 => Some('4'),
        0x06 => Some('5'),
        0x07 => Some('6'),
        0x08 => Some('7'),
        0x09 => Some('8'),
        0x0A => Some('9'),
        0x0B => Some('0'),
        0x0C => Some('-'),
        0x0D => Some('='),
        0x0E => Some('\x08'),
        0x0F => Some('\t'),
        0x10 => Some('Q'),
        0x11 => Some('W'),
        0x12 => Some('E'),
        0x13 => Some('R'),
        0x14 => Some('T'),
        0x15 => Some('Y'),
        0x16 => Some('U'),
        0x17 => Some('I'),
        0x18 => Some('O'),
        0x19 => Some('P'),
        0x1A => Some('['),
        0x1B => Some(']'),
        0x1C => Some('\n'),
        0x1E => Some('A'),
        0x1F => Some('S'),
        0x20 => Some('D'),
        0x21 => Some('F'),
        0x22 => Some('G'),
        0x23 => Some('H'),
        0x24 => Some('J'),
        0x25 => Some('K'),
        0x26 => Some('L'),
        0x27 => Some(';'),
        0x28 => Some('\''),
        0x29 => Some('`'),
        0x2B => Some('\\'),
        0x2C => Some('Z'),
        0x2D => Some('X'),
        0x2E => Some('C'),
        0x2F => Some('V'),
        0x30 => Some('B'),
        0x31 => Some('N'),
        0x32 => Some('M'),
        0x33 => Some(','),
        0x34 => Some('.'),
        0x35 => Some('/'),
        0x37 => Some('*'),
        0x39 => Some(' '),
        _ => None,
    }
}

/// Tells from the byte read at the status port whether the data port holds
/// a scancode.
pub fn keyboard_has_data(status: u8) -> (ready: bool)
    ensures
        ready == data_ready(status),
{
    assert(status & 1 != 0 <==> status % 2 == 1) by (bit_vector);
    status & 1 != 0
}

/// Decodes one scancode. Break codes and keys without a character give
/// `None`; the result depends on the code alone.
pub fn scancode_to_char(code: u8) -> (c: Option<char>)
    ensures
        c == scancode_char(code),
        code >= BREAK_CODE_START ==> c is None,
{
    if code >= BREAK_CODE_START {
        return None;
    }
    let byte: u8 = SCANCODE_MAP[code as usize];
    if byte == 0 {
        None
    } else {
        Some(byte as char)
    }
}

} // verus!
