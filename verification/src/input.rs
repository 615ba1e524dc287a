//! The input loop, one scancode at a time.
//!
//! The console polls the keyboard. Each scancode it gets is decoded and
//! leads to one of three things: the backspace key deletes, any other key
//! with a character types it, and every other code is ignored.

use vstd::prelude::*;
use crate::console::Console;
use crate::cursor::LAST_CELL;
use crate::keyboard::{scancode_char, scancode_to_char, BACKSPACE, BREAK_CODE_START};
use crate::screen::{
    backspace_key, backspace_update, lemma_backspace_update_deletes, lemma_backspace_wf,
    lemma_put_char_wf, lemma_put_update_types, put_update, vga_put, Screen, ScreenUpdate,
};

verus! {

/// What the input loop does with a scancode.
#[derive(Clone, Copy, Debug, PartialEq, Eq)]
pub enum KeyAction {
    /// The code stands for no character: nothing happens.
    Ignore,
    /// The backspace key: delete.
    Backspace,
    /// A key with a character: type it.
    Put(char),
}

/// The action that belongs to a scancode.
pub open spec fn key_action(code: u8) -> KeyAction {
    match scancode_char(code) {
        None => KeyAction::Ignore,
        Some(c) => if c == BACKSPACE {
            KeyAction::Backspace
        } else {
            KeyAction::Put(c)
        },
    }
}

/// The update that a scancode causes with the cursor at `pos`, if any.
pub open spec fn key_update(pos: u16, code: u8) -> Option<ScreenUpdate> {
    match key_action(code) {
        KeyAction::Ignore => None,
        KeyAction::Backspace => Some(backspace_update(pos)),
        KeyAction::Put(c) => Some(put_update(pos, c)),
    }
}

impl Screen {
    /// The display after the input loop has handled one scancode.
    pub open spec fn key(self, code: u8) -> Screen {
        match key_action(code) {
            KeyAction::Ignore => self,
            KeyAction::Backspace => self.backspace(),
            KeyAction::Put(c) => self.put_char(c),
        }
    }

    /// The display after the input loop has handled a run of scancodes, in
    /// order.
    pub open spec fn keys(self, codes: Seq<u8>) -> Screen
        decreases codes.len(),
    {
        if codes.len() == 0 {
            self
        } else {
            self.keys(codes.drop_last()).key(codes.last())
        }
    }
}

/// Decides what a scancode asks for.
pub fn dispatch(code: u8) -> (action: KeyAction)
    ensures
        action == key_action(code),
        code >= BREAK_CODE_START ==> action == KeyAction::Ignore,
{
    match scancode_to_char(code) {
        None => KeyAction::Ignore,
        Some(c) => if c == BACKSPACE {
            KeyAction::Backspace
        } else {
            KeyAction::Put(c)
        },
    }
}

/// Handles one scancode with the cursor at `pos`: says which cell to write
/// and where to put the cursor, or `None` where the code is ignored.
pub fn handle_scancode(pos: u16, code: u8) -> (update: Option<ScreenUpdate>)
    requires
        pos <= LAST_CELL,
    ensures
        update == key_update(pos, code),
        update matches Some(u) ==> u.write.index <= LAST_CELL && u.cursor <= LAST_CELL,
{
    match dispatch(code) {
        KeyAction::Ignore => None,
        KeyAction::Backspace => Some(backspace_key(pos)),
        KeyAction::Put(c) => Some(vga_put(pos, c)),
    }
}

impl Console {
    /// Handles one scancode: types its character, deletes, or does nothing.
    pub fn process_scancode(&mut self, code: u8)
        requires
            old(self).wf(),
        ensures
            final(self).wf(),
            final(self)@ == old(self)@.key(code),
    {
        match dispatch(code) {
            KeyAction::Ignore => {},
            KeyAction::Backspace => self.backspace(),
            KeyAction::Put(c) => self.put_char(c),
        }
    }

    /// Handles a run of scancodes in order.
    pub fn process_scancodes(&mut self, codes: &[u8])
        requires
            old(self).wf(),
        ensures
            final(self).wf(),
            final(self)@ == old(self)@.keys(codes@),
    {
        let mut done: usize = 0;
        while done < codes.len()
            invariant
                done <= codes.len(),
                self.wf(),
                self@ == old(self)@.keys(codes@.take(done as int)),
            decreases codes.len() - done,
        {
            self.process_scancode(codes[done]);
            proof {
                let head = codes@.take(done + 1);
                assert(head.drop_last() =~= codes@.take(done as int));
            }
            done = done + 1;
        }
        assert(codes@.take(done as int) =~= codes@);
    }
}

/// A scancode's update, carried out, is what the input loop does with the
/// scancode; an ignored scancode changes nothing.
pub proof fn lemma_key_update_is_key(s: Screen, code: u8)
    requires
        s.wf(),
    ensures
        s.key(code) == match key_update(s.cursor as u16, code) {
            None => s,
            Some(update) => s.apply(update),
        },
{
    match key_action(code) {
        KeyAction::Ignore => {},
        KeyAction::Backspace => lemma_backspace_update_deletes(s),
        KeyAction::Put(c) => lemma_put_update_types(s, c),
    }
}

/// A break code, and any code without a character, leaves the display as it
/// is: nothing is written and the cursor does not move.
pub proof fn lemma_unmapped_code_ignored(s: Screen, code: u8)
    requires
        code >= BREAK_CODE_START || scancode_char(code) is None,
    ensures
        s.key(code) == s,
{
}

/// The cursor names a cell after every scancode.
pub proof fn lemma_key_wf(s: Screen, code: u8)
    requires
        s.wf(),
    ensures
        s.key(code).wf(),
{
    match key_action(code) {
        KeyAction::Ignore => {},
        KeyAction::Backspace => lemma_backspace_wf(s),
        KeyAction::Put(c) => lemma_put_char_wf(s, c),
    }
}

/// The cursor names a cell after every run of scancodes.
pub proof fn lemma_keys_wf(s: Screen, codes: Seq<u8>)
    requires
        s.wf(),
    ensures
        s.keys(codes).wf(),
    decreases codes.len(),
{
    if codes.len() > 0 {
        lemma_keys_wf(s, codes.drop_last());
        lemma_key_wf(s.keys(codes.drop_last()), codes.last());
    }
}

} // verus!
