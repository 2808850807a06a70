use vstd::prelude::*;
use vstd::utf8::encode_utf8;
use crate::key::{Key, KeyCode};

verus! {

/// What a text field is: its caption, its content as characters, the caret as a count
/// of characters from the left, and whether the field has the focus.
pub struct UserInputView {
    pub title: Seq<char>,
    pub text: Seq<char>,
    pub cursor: nat,
    pub active: bool,
}

impl UserInputView {
    /// The caret never stands beyond the end of the text.
    pub open spec fn wf(self) -> bool {
        self.cursor <= self.text.len()
    }
}

/// A single-line text field with a caret.
pub struct UserInput {
    title: String,
    input: String,
    character_index: usize,
    active: bool,
}

impl View for UserInput {
    type V = UserInputView;

    closed spec fn view(&self) -> UserInputView {
        UserInputView {
            title: self.title@,
            text: self.input@,
            cursor: self.character_index as nat,
            active: self.active,
        }
    }
}

impl UserInput {
    /// The caret never stands beyond the end of the text.
    pub open spec fn wf(&self) -> bool {
        self@.wf()
    }

    /// The caret position between 0 and `length` that is nearest to `position`.
    pub open spec fn clamped(position: int, length: nat) -> nat {
        if position < 0 {
            0
        } else if position > length {
            length
        } else {
            position as nat
        }
    }

    /// An empty field with the caret at the start.
    pub fn new(title: String, active: bool) -> (r: Self)
        ensures
            r.wf(),
            r@ == (UserInputView { title: title@, text: Seq::empty(), cursor: 0, active }),
    {
        Self { title, input: String::new(), character_index: 0, active }
    }

    /// Gives the field the focus if it had none, and takes it away if it had it.
    pub fn switch_active(&mut self)
        ensures
            final(self)@ == (UserInputView { active: !old(self)@.active, ..old(self)@ }),
    {
        self.active = !self.active;
    }

    /// The content of the field.
    pub fn get_input(&self) -> (r: &str)
        ensures
            r@ == self@.text,
    {
        self.input.as_str()
    }

    /// Replaces the content and puts the caret behind its last character.
    pub fn set_input(&mut self, input: String)
        ensures
            final(self).wf(),
            final(self)@ == (UserInputView {
                text: input@,
                cursor: input@.len(),
                ..old(self)@
            }),
    {
        self.input = input;
        self.set_cursor_max_position();
    }

    /// Moves the caret one character to the left; at the start it stays. The caret is
    /// then held within the text.
    pub fn move_cursor_left(&mut self)
        ensures
            final(self).wf(),
            final(self)@ == (UserInputView {
                cursor: Self::clamped(old(self)@.cursor - 1, old(self)@.text.len()),
                ..old(self)@
            }),
    {
        let cursor_moved_left = self.character_index.saturating_sub(1);
        self.character_index = self.clamp_cursor(cursor_moved_left);
    }

    /// Moves the caret one character to the right; at the end it stays. The caret is
    /// then held within the text.
    pub fn move_cursor_right(&mut self)
        ensures
            final(self).wf(),
            final(self)@ == (UserInputView {
                cursor: Self::clamped(old(self)@.cursor as int + 1, old(self)@.text.len()),
                ..old(self)@
            }),
    {
        let cursor_moved_right = self.character_index.saturating_add(1);
        self.character_index = self.clamp_cursor(cursor_moved_right);
    }

    /// Puts `new_char` in at the caret and moves the caret behind it.
    pub fn enter_char(&mut self, new_char: char)
        requires
            old(self).wf(),
        ensures
            final(self).wf(),
            final(self)@ == (UserInputView {
                text: old(self)@.text.insert(old(self)@.cursor as int, new_char),
                cursor: old(self)@.cursor + 1,
                ..old(self)@
            }),
    {
        let length = self.input.as_str().unicode_len();
        let before = self.input.as_str().substring_char(0, self.character_index);
        let mut text = String::from_str(before);
        text.push(new_char);
        text.append(self.input.as_str().substring_char(self.character_index, length));
        assert(text@ =~= self.input@.insert(self.character_index as int, new_char));
        self.input = text;
        self.move_cursor_right();
    }

    /// Where the caret stands, counted in bytes of the UTF-8 form of the text.
    pub fn byte_index(&self) -> (r: usize)
        requires
            self.wf(),
        ensures
            r == encode_utf8(self@.text.subrange(0, self@.cursor as int)).len(),
    {
        self.input.as_str().substring_char(0, self.character_index).as_bytes().len()
    }

    /// Takes out the character left of the caret and moves the caret one to the left.
    /// With the caret at the start nothing changes.
    pub fn delete_char(&mut self)
        requires
            old(self).wf(),
        ensures
            final(self).wf(),
            old(self)@.cursor == 0 ==> final(self)@ == old(self)@,
            old(self)@.cursor > 0 ==> final(self)@ == (UserInputView {
                text: old(self)@.text.remove(old(self)@.cursor - 1),
                cursor: (old(self)@.cursor - 1) as nat,
                ..old(self)@
            }),
    {
        let is_not_cursor_leftmost = self.character_index != 0;
        if is_not_cursor_leftmost {
            let current_index = self.character_index;
            let from_left_to_current_index = current_index - 1;
            let length = self.input.as_str().unicode_len();
            let mut text = String::from_str(
                self.input.as_str().substring_char(0, from_left_to_current_index),
            );
            text.append(self.input.as_str().substring_char(current_index, length));
            assert(text@ =~= self.input@.remove(current_index - 1));
            self.input = text;
            self.move_cursor_left();
        }
    }

    /// The caret position nearest to `new_cursor_pos` that the text has.
    pub fn clamp_cursor(&self, new_cursor_pos: usize) -> (r: usize)
        ensures
            r == Self::clamped(new_cursor_pos as int, self@.text.len()),
            self@.text.len() <= usize::MAX,
    {
        let length = self.input.as_str().unicode_len();
        if new_cursor_pos <= length {
            new_cursor_pos
        } else {
            length
        }
    }

    /// Puts the caret at the start.
    pub fn reset_cursor(&mut self)
        ensures
            final(self).wf(),
            final(self)@ == (UserInputView { cursor: 0, ..old(self)@ }),
    {
        self.character_index = 0;
    }

    /// Puts the caret behind the last character.
    pub fn set_cursor_max_position(&mut self)
        ensures
            final(self).wf(),
            final(self)@ == (UserInputView { cursor: old(self)@.text.len(), ..old(self)@ }),
    {
        self.character_index = self.input.as_str().unicode_len();
    }

    /// Empties the field and puts the caret at the start.
    pub fn reset(&mut self)
        ensures
            final(self).wf(),
            final(self)@ == (UserInputView { text: Seq::empty(), cursor: 0, ..old(self)@ }),
    {
        self.input = String::new();
        self.reset_cursor();
    }

    /// What a key press does to a field with a sound caret: a character is put in,
    /// backspace deletes, the arrows move the caret, and any other key does nothing.
    pub open spec fn after_key(before: UserInputView, key: Key) -> UserInputView {
        match key.code {
            KeyCode::Char(c) => UserInputView {
                text: before.text.insert(before.cursor as int, c),
                cursor: before.cursor + 1,
                ..before
            },
            KeyCode::Backspace => if before.cursor == 0 {
                before
            } else {
                UserInputView {
                    text: before.text.remove(before.cursor - 1),
                    cursor: (before.cursor - 1) as nat,
                    ..before
                }
            },
            KeyCode::Left => UserInputView {
                cursor: Self::clamped(before.cursor - 1, before.text.len()),
                ..before
            },
            KeyCode::Right => UserInputView {
                cursor: Self::clamped(before.cursor as int + 1, before.text.len()),
                ..before
            },
            _ => before,
        }
    }

    /// Applies one key press to the field.
    pub fn handle_key_events(&mut self, key: Key)
        requires
            old(self).wf(),
        ensures
            final(self).wf(),
            final(self)@ == Self::after_key(old(self)@, key),
    {
        match key.code {
            KeyCode::Char(to_insert) => self.enter_char(to_insert),
            KeyCode::Backspace => self.delete_char(),
            KeyCode::Left => self.move_cursor_left(),
            KeyCode::Right => self.move_cursor_right(),
            _ => {},
        }
    }

    /// Where the caret is drawn for a field whose frame starts at column `x` and row
    /// `y`: one cell inside the frame, as many columns to the right as the caret has
    /// characters before it. A field without the focus shows no caret, nor does one
    /// whose caret would lie beyond the last column or row that can be addressed.
    pub fn caret_position(&self, x: u16, y: u16) -> (r: Option<(u16, u16)>)
        ensures
            r == Self::spec_caret_position(self@, x, y),
    {
        if !self.active || y == u16::MAX {
            return None;
        }
        let room: u16 = u16::MAX - x;
        if room == 0 || self.character_index > (room - 1) as usize {
            return None;
        }
        Some((x + self.character_index as u16 + 1, y + 1))
    }

    /// The place of the caret on screen, if it is shown.
    pub open spec fn spec_caret_position(field: UserInputView, x: u16, y: u16) -> Option<
        (u16, u16),
    > {
        if field.active && x + field.cursor + 1 <= u16::MAX && y + 1 <= u16::MAX {
            Some(((x + field.cursor + 1) as u16, (y + 1) as u16))
        } else {
            None
        }
    }

    /// The caption of the field.
    pub fn title(&self) -> (r: &str)
        ensures
            r@ == self@.title,
    {
        self.title.as_str()
    }

    /// How many characters stand left of the caret.
    pub fn cursor(&self) -> (r: usize)
        ensures
            r == self@.cursor,
    {
        self.character_index
    }

    /// Whether the field has the focus.
    pub fn is_active(&self) -> (r: bool)
        ensures
            r == self@.active,
    {
        self.active
    }
}

} // verus!
