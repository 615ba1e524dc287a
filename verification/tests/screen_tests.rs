use vga_console::screen::{
    backspace_key, cell_offset, glyph_byte, vga_put, Cell, CellWrite, ScreenUpdate, ATTRIBUTE,
    BLANK_GLYPH, BUFFER_BASE, BUFFER_BYTES,
};

#[test]
fn display_buffer_constants() {
    assert_eq!(BUFFER_BASE, 0xB8000);
    assert_eq!(BUFFER_BYTES, 80 * 25 * 2);
    assert_eq!(ATTRIBUTE, 0x0B);
    assert_eq!(BLANK_GLYPH, 0x20);
}

#[test]
fn glyph_of_an_ascii_character_is_its_code() {
    assert_eq!(glyph_byte('A'), 0x41);
    assert_eq!(glyph_byte(' '), 0x20);
    assert_eq!(glyph_byte('\n'), 0x0A);
    assert_eq!(glyph_byte('~'), 0x7E);
}

#[test]
fn glyph_keeps_the_low_eight_bits() {
    assert_eq!(glyph_byte('\u{E9}'), 0xE9);
    assert_eq!(glyph_byte('\u{20AC}'), 0xAC);
    assert_eq!(glyph_byte('\u{10FFFF}'), 0xFF);
    assert_eq!(glyph_byte('\u{100}'), 0x00);
}

#[test]
fn cell_offset_is_twice_the_index() {
    assert_eq!(cell_offset(0), 0);
    assert_eq!(cell_offset(1), 2);
    assert_eq!(cell_offset(80), 160);
    assert_eq!(cell_offset(1999), 3998);
}

#[test]
fn cell_offset_follows_row_and_column() {
    for row in 0u16..25 {
        for column in 0u16..80 {
            let index: u16 = row * 80 + column;
            assert_eq!(cell_offset(index), (row as usize * 80 + column as usize) * 2);
            assert!(cell_offset(index) + 1 < BUFFER_BYTES);
        }
    }
}

#[test]
fn typing_writes_under_the_cursor_and_moves_right() {
    let update: ScreenUpdate = vga_put(7, 'A');
    assert_eq!(
        update,
        ScreenUpdate {
            write: CellWrite { index: 7, cell: Cell { glyph: 0x41, attribute: 0x0B } },
            cursor: 8,
        }
    );
}

#[test]
fn typing_at_the_last_cell_keeps_the_cursor() {
    let update: ScreenUpdate = vga_put(1999, 'Z');
    assert_eq!(update.write.index, 1999);
    assert_eq!(update.write.cell, Cell { glyph: 0x5A, attribute: 0x0B });
    assert_eq!(update.cursor, 1999);
}

#[test]
fn typing_at_the_end_of_a_row_goes_to_the_next_row() {
    let update: ScreenUpdate = vga_put(79, 'Q');
    assert_eq!(update.write.index, 79);
    assert_eq!(update.cursor, 80);
}

#[test]
fn deleting_blanks_the_cell_left_of_the_cursor() {
    let update: ScreenUpdate = backspace_key(5);
    assert_eq!(
        update,
        ScreenUpdate {
            write: CellWrite { index: 4, cell: Cell { glyph: 0x20, attribute: 0x0B } },
            cursor: 4,
        }
    );
}

#[test]
fn deleting_at_the_first_cell_blanks_it_and_stays() {
    let update: ScreenUpdate = backspace_key(0);
    assert_eq!(update.write.index, 0);
    assert_eq!(update.write.cell, Cell { glyph: BLANK_GLYPH, attribute: ATTRIBUTE });
    assert_eq!(update.cursor, 0);
}

#[test]
fn deleting_at_the_last_cell_goes_one_back() {
    let update: ScreenUpdate = backspace_key(1999);
    assert_eq!(update.write.index, 1998);
    assert_eq!(update.cursor, 1998);
}

#[test]
fn every_update_stays_on_the_grid() {
    for pos in 0u16..=1999 {
        let typed: ScreenUpdate = vga_put(pos, 'x');
        assert!(typed.write.index <= 1999 && typed.cursor <= 1999);
        assert_eq!(typed.write.cell.attribute, 0x0B);
        let deleted: ScreenUpdate = backspace_key(pos);
        assert!(deleted.write.index <= 1999 && deleted.cursor <= 1999);
        assert_eq!(deleted.write.index, deleted.cursor);
    }
}
