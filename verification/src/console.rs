//! An in-memory text display.
//!
//! [`Console`] keeps what the hardware keeps: the cursor position and the
//! bytes of the display buffer, laid out as the hardware lays them out. Its
//! view is a [`Screen`], and each operation does to the view what the
//! operation of that name does to a `Screen`.

use vstd::prelude::*;
use crate::cursor::{move_cursor_left, move_cursor_right, left_of, right_of, CELL_COUNT, LAST_CELL};
use crate::screen::{
    backspace_key, blank_cell, cell_offset, lemma_backspace_update_deletes,
    lemma_put_update_types, vga_put, Cell, Screen, ScreenUpdate, ATTRIBUTE, BLANK_GLYPH,
    BUFFER_BYTES,
};

verus! {

/// The cursor and the display buffer of a text console.
pub struct Console {
    cursor: u16,
    buffer: Vec<u8>,
}

/// The cell that starts at byte `2 * index` of a display buffer.
pub open spec fn cell_in(bytes: Seq<u8>, index: int) -> Cell {
    Cell { glyph: bytes[2 * index], attribute: bytes[2 * index + 1] }
}

impl View for Console {
    type V = Screen;

    closed spec fn view(&self) -> Screen {
        Screen {
            cursor: self.cursor as int,
            cells: Seq::new(CELL_COUNT as nat, |i: int| cell_in(self.buffer@, i)),
        }
    }
}

impl Console {
    /// The cursor names a cell and the buffer has its full size.
    pub closed spec fn wf(&self) -> bool {
        &&& self.cursor <= LAST_CELL
        &&& self.buffer@.len() == BUFFER_BYTES
    }

    /// The view of a well-formed console is a well-formed screen.
    pub proof fn lemma_view_wf(&self)
        requires
            self.wf(),
        ensures
            self@.wf(),
    {
    }

    /// An empty display: every cell blank, the cursor at the first cell.
    pub fn new() -> (console: Console)
        ensures
            console.wf(),
            console@ == Screen::blank(),
    {
        let mut buffer: Vec<u8> = Vec::new();
        let mut filled: usize = 0;
        while filled < 2000
            invariant
                filled <= 2000,
                buffer@.len() == 2 * filled,
                forall|i: int| 0 <= i < filled ==> cell_in(buffer@, i) == blank_cell(),
            decreases 2000 - filled,
        {
            let ghost before = buffer@;
            buffer.push(BLANK_GLYPH);
            buffer.push(ATTRIBUTE);
            filled = filled + 1;
            assert forall|i: int| 0 <= i < filled implies cell_in(buffer@, i) == blank_cell() by {
                if i < filled - 1 {
                    assert(cell_in(before, i) == blank_cell());
                }
            }
        }
        let console = Console { cursor: 0, buffer };
        assert(console@.cells =~= Screen::blank().cells);
        console
    }

    /// The cursor position. It always names a cell.
    pub fn get_cursor(&self) -> (pos: u16)
        requires
            self.wf(),
        ensures
            pos == self@.cursor,
            pos <= LAST_CELL,
    {
        self.cursor
    }

    /// Puts the cursor at `pos`, which must name a cell.
    pub fn set_cursor(&mut self, pos: u16)
        requires
            old(self).wf(),
            pos <= LAST_CELL,
        ensures
            final(self).wf(),
            final(self)@ == old(self)@.set_cursor(pos as int),
    {
        self.cursor = pos;
    }

    /// What the cell at `index` holds, or `None` where `index` names no cell.
    pub fn cell(&self, index: u16) -> (cell: Option<Cell>)
        requires
            self.wf(),
        ensures
            index <= LAST_CELL ==> cell == Some(self@.cells[index as int]),
            index > LAST_CELL ==> cell is None,
    {
        if index > LAST_CELL {
            return None;
        }
        let offset: usize = cell_offset(index);
        Some(Cell { glyph: self.buffer[offset], attribute: self.buffer[offset + 1] })
    }

    /// Carries out an update: stores its cell and moves the cursor.
    pub fn apply(&mut self, update: ScreenUpdate)
        requires
            old(self).wf(),
            update.write.index <= LAST_CELL,
            update.cursor <= LAST_CELL,
        ensures
            final(self).wf(),
            final(self)@ == old(self)@.apply(update),
    {
        let offset: usize = cell_offset(update.write.index);
        self.buffer.set(offset, update.write.cell.glyph);
        self.buffer.set(offset + 1, update.write.cell.attribute);
        self.cursor = update.cursor;
        assert(self@.cells =~= old(self)@.apply(update).cells);
    }

    /// Moves the cursor one cell left. At the first cell nothing changes.
    pub fn move_left(&mut self)
        requires
            old(self).wf(),
        ensures
            final(self).wf(),
            final(self)@ == old(self)@.move_left(),
            final(self)@.cursor == left_of(old(self)@.cursor),
            final(self)@.cells == old(self)@.cells,
    {
        self.cursor = move_cursor_left(self.cursor);
    }

    /// Moves the cursor one cell right. At the last cell nothing changes.
    pub fn move_right(&mut self)
        requires
            old(self).wf(),
        ensures
            final(self).wf(),
            final(self)@ == old(self)@.move_right(),
            final(self)@.cursor == right_of(old(self)@.cursor),
            final(self)@.cells == old(self)@.cells,
    {
        self.cursor = move_cursor_right(self.cursor);
    }

    /// Types a character: stores it in the cell under the cursor, with the
    /// console's attribute, and moves the cursor right. At the last cell the
    /// character is stored and the cursor stays.
    pub fn put_char(&mut self, c: char)
        requires
            old(self).wf(),
        ensures
            final(self).wf(),
            final(self)@ == old(self)@.put_char(c),
    {
        proof {
            self.lemma_view_wf();
            lemma_put_update_types(self@, c);
        }
        let update = vga_put(self.cursor, c);
        self.apply(update);
    }

    /// Deletes: moves the cursor left and blanks the cell it arrives at. At
    /// the first cell the cursor stays and the first cell is blanked.
    pub fn backspace(&mut self)
        requires
            old(self).wf(),
        ensures
            final(self).wf(),
            final(self)@ == old(self)@.backspace(),
    {
        proof {
            self.lemma_view_wf();
            lemma_backspace_update_deletes(self@);
        }
        let update = backspace_key(self.cursor);
        self.apply(update);
    }
}

} // verus!
