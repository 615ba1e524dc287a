//! Character cells and the text operations, as values.
//!
//! The display buffer is a fixed region of 80 x 25 cells. A cell is two
//! adjacent bytes, the glyph and then its attribute, so the cell at position
//! `p` starts at byte `2 * p` of the buffer. Typing a character and deleting
//! one each change exactly one cell and may move the cursor; a
//! [`ScreenUpdate`] says which cell and where the cursor goes. [`Screen`] is
//! the display as a mathematical value, on which the operations are defined.

use vstd::prelude::*;
use crate::cursor::{
    column_of, left_of, move_cursor_left, move_cursor_right, right_of, row_of, valid_cursor,
    CELL_COUNT, COLUMNS, LAST_CELL,
};

verus! {

/// Address of the first byte of the display buffer in physical memory.
pub const BUFFER_BASE: usize = 0xB8000;

/// Size of the display buffer in bytes: two for each cell.
pub const BUFFER_BYTES: usize = 4000;

/// The attribute of every cell that the console writes: light cyan on black.
pub const ATTRIBUTE: u8 = 0x0B;

/// The glyph of an empty cell: a space.
pub const BLANK_GLYPH: u8 = 0x20;

/// What one cell of the display holds.
#[derive(Clone, Copy, Debug, PartialEq, Eq)]
pub struct Cell {
    pub glyph: u8,
    pub attribute: u8,
}

/// A cell to be stored at a position of the display.
#[derive(Clone, Copy, Debug, PartialEq, Eq)]
pub struct CellWrite {
    pub index: u16,
    pub cell: Cell,
}

/// The effect of one text operation: the cell it writes and the position of
/// the cursor after it.
#[derive(Clone, Copy, Debug, PartialEq, Eq)]
pub struct ScreenUpdate {
    pub write: CellWrite,
    pub cursor: u16,
}

/// The byte that stands for a character in a cell: its code, cut to the low
/// eight bits.
pub open spec fn glyph_of(c: char) -> u8 {
    ((c as u32) % 256) as u8
}

/// A cell as the console writes it for a character.
pub open spec fn glyph_cell(c: char) -> Cell {
    Cell { glyph: glyph_of(c), attribute: ATTRIBUTE }
}

/// An empty cell.
pub open spec fn blank_cell() -> Cell {
    Cell { glyph: BLANK_GLYPH, attribute: ATTRIBUTE }
}

/// The update that types `c` with the cursor at `pos`: the character goes
/// into the cell under the cursor and the cursor moves right.
pub open spec fn put_update(pos: u16, c: char) -> ScreenUpdate {
    ScreenUpdate {
        write: CellWrite { index: pos, cell: glyph_cell(c) },
        cursor: right_of(pos as int) as u16,
    }
}

/// The update that deletes with the cursor at `pos`: the cursor moves left
/// and the cell it then stands on is blanked.
pub open spec fn backspace_update(pos: u16) -> ScreenUpdate {
    ScreenUpdate {
        write: CellWrite { index: left_of(pos as int) as u16, cell: blank_cell() },
        cursor: left_of(pos as int) as u16,
    }
}

/// The display as a value: where the cursor stands and what each cell holds.
pub struct Screen {
    pub cursor: int,
    pub cells: Seq<Cell>,
}

impl Screen {
    /// The cursor names a cell and there are 2000 cells.
    pub open spec fn wf(self) -> bool {
        &&& valid_cursor(self.cursor)
        &&& self.cells.len() == CELL_COUNT
    }

    /// The empty display: every cell blank, the cursor at the first cell.
    pub open spec fn blank() -> Screen {
        Screen { cursor: 0, cells: Seq::new(CELL_COUNT as nat, |i: int| blank_cell()) }
    }

    /// The same cells with the cursor at `pos`.
    pub open spec fn set_cursor(self, pos: int) -> Screen {
        Screen { cursor: pos, cells: self.cells }
    }

    /// The same cursor with `cell` stored at `index`.
    pub open spec fn write(self, index: int, cell: Cell) -> Screen {
        Screen { cursor: self.cursor, cells: self.cells.update(index, cell) }
    }

    /// The cursor one cell to the left, unless it is at the first cell.
    pub open spec fn move_left(self) -> Screen {
        self.set_cursor(left_of(self.cursor))
    }

    /// The cursor one cell to the right, unless it is at the last cell.
    pub open spec fn move_right(self) -> Screen {
        self.set_cursor(right_of(self.cursor))
    }

    /// Typing `c`: the cell under the cursor takes the character, then the
    /// cursor moves right.
    pub open spec fn put_char(self, c: char) -> Screen {
        self.write(self.cursor, glyph_cell(c)).move_right()
    }

    /// Deleting: the cursor moves left, then the cell under it is blanked.
    /// At the first cell the cursor stays and that cell is blanked.
    pub open spec fn backspace(self) -> Screen {
        let moved = self.move_left();
        moved.write(moved.cursor, blank_cell())
    }

    /// The display after an update: its cell stored, the cursor where the
    /// update puts it.
    pub open spec fn apply(self, update: ScreenUpdate) -> Screen {
        self.write(update.write.index as int, update.write.cell).set_cursor(update.cursor as int)
    }
}

/// The glyph byte of a character.
pub fn glyph_byte(c: char) -> (glyph: u8)
    ensures
        glyph == glyph_of(c),
{
    let code: u32 = c as u32;
    (code % 256) as u8
}

/// Offset of a cell's glyph byte from the start of the display buffer. The
/// attribute byte follows it.
pub fn cell_offset(index: u16) -> (offset: usize)
    requires
        index <= LAST_CELL,
    ensures
        offset == 2 * index,
        offset == (row_of(index as int) * COLUMNS + column_of(index as int)) * 2,
        offset + 1 < BUFFER_BYTES,
{
    (index as usize) * 2
}

/// Types a character with the cursor at `pos`: the cell at `pos` gets the
/// character with the console's attribute, and the cursor moves one cell
/// right, except at the last cell, where it stays.
pub fn vga_put(pos: u16, c: char) -> (update: ScreenUpdate)
    requires
        pos <= LAST_CELL,
    ensures
        update == put_update(pos, c),
        update.write.index <= LAST_CELL,
        update.cursor <= LAST_CELL,
{
    let cell = Cell { glyph: glyph_byte(c), attribute: ATTRIBUTE };
    ScreenUpdate { write: CellWrite { index: pos, cell }, cursor: move_cursor_right(pos) }
}

/// Deletes with the cursor at `pos`: the cursor moves one cell left and the
/// cell it arrives at is blanked. At the first cell the cursor stays and
/// the first cell is blanked.
pub fn backspace_key(pos: u16) -> (update: ScreenUpdate)
    requires
        pos <= LAST_CELL,
    ensures
        update == backspace_update(pos),
        update.write.index <= LAST_CELL,
        update.cursor <= LAST_CELL,
{
    let cursor: u16 = move_cursor_left(pos);
    let cell = Cell { glyph: BLANK_GLYPH, attribute: ATTRIBUTE };
    ScreenUpdate { write: CellWrite { index: cursor, cell }, cursor }
}

/// An update computed for typing at the cursor has the effect of typing.
pub proof fn lemma_put_update_types(s: Screen, c: char)
    requires
        s.wf(),
    ensures
        s.apply(put_update(s.cursor as u16, c)) == s.put_char(c),
{
}

/// An update computed for deleting at the cursor has the effect of deleting.
pub proof fn lemma_backspace_update_deletes(s: Screen)
    requires
        s.wf(),
    ensures
        s.apply(backspace_update(s.cursor as u16)) == s.backspace(),
{
}

/// Typing keeps the display well formed.
pub proof fn lemma_put_char_wf(s: Screen, c: char)
    requires
        s.wf(),
    ensures
        s.put_char(c).wf(),
{
}

/// Deleting keeps the display well formed.
pub proof fn lemma_backspace_wf(s: Screen)
    requires
        s.wf(),
    ensures
        s.backspace().wf(),
{
}

/// Typing a character and deleting it at once blanks the cell where the
/// cursor stood, leaves every other cell as it was, and brings the cursor
/// back. This holds wherever typing moves the cursor, that is everywhere
/// but at the last cell.
pub proof fn lemma_put_char_then_backspace(s: Screen, c: char)
    requires
        s.wf(),
        s.cursor < LAST_CELL,
    ensures
        s.put_char(c).backspace().cursor == s.cursor,
        s.put_char(c).backspace().cells[s.cursor] == blank_cell(),
        s.put_char(c).backspace().cells == s.cells.update(s.cursor, blank_cell()),
{
    assert(s.put_char(c).backspace().cells =~= s.cells.update(s.cursor, blank_cell()));
}

/// At the last cell a typed character is stored and the cursor stays.
pub proof fn lemma_put_char_at_last_cell(s: Screen, c: char)
    requires
        s.wf(),
        s.cursor == LAST_CELL,
    ensures
        s.put_char(c).cursor == LAST_CELL,
        s.put_char(c).cells == s.cells.update(LAST_CELL as int, glyph_cell(c)),
        s.put_char(c).cells[LAST_CELL as int] == glyph_cell(c),
{
}

} // verus!
