use vga_console::keyboard::{keyboard_has_data, scancode_to_char, BACKSPACE, BREAK_CODE_START, SCANCODE_MAP};

#[test]
fn status_bit_zero_means_data() {
    assert!(keyboard_has_data(0x01));
    assert!(keyboard_has_data(0x1D));
    assert!(keyboard_has_data(0xFF));
    assert!(!keyboard_has_data(0x00));
    assert!(!keyboard_has_data(0x1C));
    assert!(!keyboard_has_data(0xFE));
}

#[test]
fn status_other_bits_do_not_matter() {
    for status in 0u8..=255 {
        assert_eq!(keyboard_has_data(status), status % 2 == 1);
    }
}

#[test]
fn digit_row_decodes() {
    let expected: [char; 14] = ['1', '2', '3', '4', '5', '6', '7', '8', '9', '0', '-', '=', '\x08', '\t'];
    for (offset, want) in expected.iter().enumerate() {
        assert_eq!(scancode_to_char(0x02 + offset as u8), Some(*want));
    }
}

#[test]
fn top_letter_row_decodes() {
    let expected: [char; 13] = ['Q', 'W', 'E', 'R', 'T', 'Y', 'U', 'I', 'O', 'P', '[', ']', '\n'];
    for (offset, want) in expected.iter().enumerate() {
        assert_eq!(scancode_to_char(0x10 + offset as u8), Some(*want));
    }
}

#[test]
fn home_row_decodes() {
    let expected: [char; 12] = ['A', 'S', 'D', 'F', 'G', 'H', 'J', 'K', 'L', ';', '\'', '`'];
    for (offset, want) in expected.iter().enumerate() {
        assert_eq!(scancode_to_char(0x1E + offset as u8), Some(*want));
    }
}

#[test]
fn bottom_row_decodes() {
    let expected: [char; 11] = ['\\', 'Z', 'X', 'C', 'V', 'B', 'N', 'M', ',', '.', '/'];
    for (offset, want) in expected.iter().enumerate() {
        assert_eq!(scancode_to_char(0x2B + offset as u8), Some(*want));
    }
}

#[test]
fn keypad_star_and_space_decode() {
    assert_eq!(scancode_to_char(0x37), Some('*'));
    assert_eq!(scancode_to_char(0x39), Some(' '));
}

#[test]
fn backspace_key_decodes_to_backspace() {
    assert_eq!(scancode_to_char(0x0E), Some(BACKSPACE));
    assert_eq!(BACKSPACE, '\x08');
}

#[test]
fn modifiers_and_escape_have_no_character() {
    assert_eq!(scancode_to_char(0x00), None);
    assert_eq!(scancode_to_char(0x01), None);
    assert_eq!(scancode_to_char(0x1D), None);
    assert_eq!(scancode_to_char(0x2A), None);
    assert_eq!(scancode_to_char(0x36), None);
    assert_eq!(scancode_to_char(0x38), None);
}

#[test]
fn make_codes_past_space_have_no_character() {
    for code in 0x3Au8..0x80 {
        assert_eq!(scancode_to_char(code), None);
    }
}

#[test]
fn every_break_code_has_no_character() {
    assert_eq!(BREAK_CODE_START, 0x80);
    for code in 0x80u8..=0xFF {
        assert_eq!(scancode_to_char(code), None);
    }
}

#[test]
fn first_break_code_has_no_character() {
    assert_eq!(scancode_to_char(0x80), None);
    assert_eq!(scancode_to_char(0x7F), None);
}

#[test]
fn release_of_a_mapped_key_has_no_character() {
    assert_eq!(scancode_to_char(0x22), Some('G'));
    assert_eq!(scancode_to_char(0xA2), None);
}

#[test]
fn decoding_is_repeatable() {
    for code in 0u8..=255 {
        assert_eq!(scancode_to_char(code), scancode_to_char(code));
    }
}

#[test]
fn exactly_fifty_two_codes_have_a_character() {
    let mut mapped: usize = 0;
    for code in 0u8..=255 {
        if scancode_to_char(code).is_some() {
            mapped += 1;
        }
    }
    assert_eq!(mapped, 52);
}

#[test]
fn decoded_characters_follow_the_table() {
    assert_eq!(SCANCODE_MAP.len(), 128);
    for code in 0u8..0x80 {
        let byte: u8 = SCANCODE_MAP[code as usize];
        match scancode_to_char(code) {
            None => assert_eq!(byte, 0),
            Some(c) => assert_eq!(c as u32, byte as u32),
        }
    }
}

#[test]
fn no_key_decodes_to_a_question_mark_or_nul() {
    for code in 0u8..=255 {
        assert_ne!(scancode_to_char(code), Some('?'));
        assert_ne!(scancode_to_char(code), Some('\0'));
    }
}
