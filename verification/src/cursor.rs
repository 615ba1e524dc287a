//! Cursor positions and the CRTC cursor-location registers.
//!
//! The display is a grid of 80 columns by 25 rows. A cursor position is the
//! linear index of a cell, row by row: `row * 80 + column`, from 0 to 1999.
//! The hardware keeps it as a 16-bit value split over two byte registers.

use vstd::prelude::*;
use crate::port::{
    PortWrite, CRTC_DATA_PORT, CRTC_INDEX_PORT, CURSOR_HIGH_REGISTER, CURSOR_LOW_REGISTER,
};

verus! {

/// Cells in one row.
pub const COLUMNS: u16 = 80;

/// Rows on the display.
pub const ROWS: u16 = 25;

/// Cells on the display.
pub const CELL_COUNT: u16 = 2000;

/// Position of the last cell, the bottom right corner.
pub const LAST_CELL: u16 = 1999;

/// A position that names a cell of the display.
pub open spec fn valid_cursor(pos: int) -> bool {
    0 <= pos <= LAST_CELL
}

/// Row of a position, counted from the top.
pub open spec fn row_of(pos: int) -> int {
    pos / (COLUMNS as int)
}

/// Column of a position, counted from the left.
pub open spec fn column_of(pos: int) -> int {
    pos % (COLUMNS as int)
}

/// The position one cell to the left, or `pos` itself at the first cell.
pub open spec fn left_of(pos: int) -> int {
    if pos > 0 {
        pos - 1
    } else {
        pos
    }
}

/// The position one cell to the right, or `pos` itself at the last cell
/// (and beyond it): the cursor neither wraps nor scrolls.
pub open spec fn right_of(pos: int) -> int {
    if pos < LAST_CELL {
        pos + 1
    } else {
        pos
    }
}

/// High byte of a cursor position, as the cursor-high register holds it.
pub open spec fn high_byte(pos: u16) -> u8 {
    (pos / 256) as u8
}

/// Low byte of a cursor position, as the cursor-low register holds it.
pub open spec fn low_byte(pos: u16) -> u8 {
    (pos % 256) as u8
}

/// The position that the two cursor registers hold together.
pub open spec fn cursor_of(high: u8, low: u8) -> int {
    high * 256 + low
}

/// The register writes that store `pos` as the cursor location: select the
/// high register and write the high byte, then the same for the low byte.
pub open spec fn cursor_writes(pos: u16) -> Seq<PortWrite> {
    seq![
        PortWrite { port: CRTC_INDEX_PORT, value: CURSOR_HIGH_REGISTER },
        PortWrite { port: CRTC_DATA_PORT, value: high_byte(pos) },
        PortWrite { port: CRTC_INDEX_PORT, value: CURSOR_LOW_REGISTER },
        PortWrite { port: CRTC_DATA_PORT, value: low_byte(pos) },
    ]
}

/// Moves a cursor one cell to the left. At the first cell it stays.
pub fn move_cursor_left(pos: u16) -> (next: u16)
    ensures
        next == left_of(pos as int),
        pos >= 1 ==> next == pos - 1,
        pos == 0 ==> next == 0,
        valid_cursor(pos as int) ==> valid_cursor(next as int),
{
    if pos > 0 {
        pos - 1
    } else {
        pos
    }
}

/// Moves a cursor one cell to the right. At the last cell it stays.
pub fn move_cursor_right(pos: u16) -> (next: u16)
    ensures
        next == right_of(pos as int),
        pos <= LAST_CELL - 1 ==> next == pos + 1,
        pos == LAST_CELL ==> next == LAST_CELL,
        valid_cursor(pos as int) ==> valid_cursor(next as int),
{
    if pos < LAST_CELL {
        pos + 1
    } else {
        pos
    }
}

/// Assembles the cursor position from the bytes read from the cursor-high
/// and cursor-low registers, high byte first.
pub fn get_cursor_position(high: u8, low: u8) -> (pos: u16)
    ensures
        pos == cursor_of(high, low),
        high_byte(pos) == high,
        low_byte(pos) == low,
{
    let pos: u16 = ((high as u16) << 8) | (low as u16);
    assert(pos == high * 256 + low && pos / 256 == high && pos % 256 == low) by (bit_vector)
        requires
            pos == ((high as u16) << 8) | (low as u16),
    ;
    pos
}

/// Splits a cursor position into the four register writes that move the
/// hardware cursor there. The writes are to be performed in order.
pub fn set_cursor_position(pos: u16) -> (writes: [PortWrite; 4])
    requires
        pos <= LAST_CELL,
    ensures
        writes@ == cursor_writes(pos),
{
    assert(pos >> 8 == pos / 256 && pos & 0xFF == pos % 256) by (bit_vector);
    let high: u8 = (pos >> 8) as u8;
    let low: u8 = (pos & 0xFF) as u8;
    let writes: [PortWrite; 4] = [
        PortWrite { port: CRTC_INDEX_PORT, value: CURSOR_HIGH_REGISTER },
        PortWrite { port: CRTC_DATA_PORT, value: high },
        PortWrite { port: CRTC_INDEX_PORT, value: CURSOR_LOW_REGISTER },
        PortWrite { port: CRTC_DATA_PORT, value: low },
    ];
    assert(writes@ =~= cursor_writes(pos));
    writes
}

/// A position written to the cursor registers and read back is unchanged.
pub proof fn lemma_cursor_registers_round_trip(pos: u16)
    ensures
        cursor_of(high_byte(pos), low_byte(pos)) == pos,
{
}

} // verus!
