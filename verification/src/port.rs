//! The I/O register map of the console hardware.
//!
//! Registers are reached through byte-wide I/O ports, each named by a 16-bit
//! address. The library never touches a port itself: it names the ports and
//! says which bytes to write to them.

use vstd::prelude::*;

verus! {

/// Keyboard controller status register. Bit 0 is set while a byte waits in
/// the data register.
pub const KEYBOARD_STATUS_PORT: u16 = 0x64;

/// Keyboard controller data register. A read yields the next raw scancode.
pub const KEYBOARD_DATA_PORT: u16 = 0x60;

/// CRTC index register. The byte written here selects which CRTC register
/// the data port reaches.
pub const CRTC_INDEX_PORT: u16 = 0x3D4;

/// CRTC data register: the byte of the register selected through
/// [`CRTC_INDEX_PORT`].
pub const CRTC_DATA_PORT: u16 = 0x3D5;

/// CRTC register index of the high byte of the cursor location.
pub const CURSOR_HIGH_REGISTER: u8 = 0x0E;

/// CRTC register index of the low byte of the cursor location.
pub const CURSOR_LOW_REGISTER: u8 = 0x0F;

/// One byte to be written to one I/O port.
#[derive(Clone, Copy, Debug, PartialEq, Eq)]
pub struct PortWrite {
    pub port: u16,
    pub value: u8,
}

} // verus!
