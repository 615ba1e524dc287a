//! Text console for a freestanding x86 machine.
//!
//! The crate holds the rules of a polling console: how a keyboard scancode
//! becomes a character, where the hardware cursor may stand on an 80 x 25
//! grid, and which character cell a keystroke changes. Every function works
//! on plain values, so the caller owns the I/O: it reads a byte from a
//! register, asks the library what to do with it, and carries out the
//! port and video-memory writes that come back.
//!
//! * [`port`]: the register map and the shape of a register write.
//! * [`keyboard`]: the status bit and the scancode table.
//! * [`cursor`]: cursor arithmetic and the CRTC cursor registers.
//! * [`screen`]: character cells, the text operations as values, and the
//!   display as a mathematical value with the laws of the operations.
//! * [`console`]: an in-memory display that carries the operations out.
//! * [`input`]: what one scancode does to the display.

pub mod port;
pub mod keyboard;
pub mod cursor;
pub mod screen;
pub mod console;
pub mod input;
