//! An editable line of text with a cursor.
//!
//! The cursor stands between characters: at `0` before the first, at the
//! length of the text behind the last. It never leaves that range.

use vstd::prelude::*;

verus! {

/// A text field as its users see it: the characters and the cursor position.
pub struct FieldModel {
    pub buffer: Seq<char>,
    pub cursor: nat,
}

impl FieldModel {
    /// The cursor is inside the text or at one of its ends.
    pub open spec fn wf(self) -> bool {
        self.cursor <= self.buffer.len()
    }

    /// The field without text.
    pub open spec fn empty() -> Self {
        FieldModel { buffer: Seq::empty(), cursor: 0 }
    }

    /// The field after `c` was typed at the cursor.
    pub open spec fn insert_char(self, c: char) -> Self {
        FieldModel { buffer: self.buffer.insert(self.cursor as int, c), cursor: self.cursor + 1 }
    }

    /// The field after the character in front of the cursor was erased. At
    /// the start of the text there is none, and the field stays as it is.
    pub open spec fn delete_before_cursor(self) -> Self {
        if self.cursor > 0 {
            FieldModel {
                buffer: self.buffer.remove(self.cursor - 1),
                cursor: (self.cursor - 1) as nat,
            }
        } else {
            self
        }
    }

    /// The field after the cursor went one character left, unless it was at
    /// the start.
    pub open spec fn move_left(self) -> Self {
        if self.cursor > 0 {
            FieldModel { buffer: self.buffer, cursor: (self.cursor - 1) as nat }
        } else {
            self
        }
    }

    /// The field after the cursor went one character right, unless it was at
    /// the end.
    pub open spec fn move_right(self) -> Self {
        if self.cursor < self.buffer.len() {
            FieldModel { buffer: self.buffer, cursor: self.cursor + 1 }
        } else {
            self
        }
    }
}

/// `String::push` of the standard library appends the given character to the
/// end of the string and changes nothing else of it.
pub assume_specification[ String::push ](s: &mut String, c: char)
    ensures
        final(s)@ == old(s)@.push(c),
;

/// A mutable text buffer with a bounded cursor.
pub struct TextInputField {
    buffer: Vec<char>,
    cursor: usize,
}

impl View for TextInputField {
    type V = FieldModel;

    closed spec fn view(&self) -> FieldModel {
        FieldModel { buffer: self.buffer@, cursor: self.cursor as nat }
    }
}

impl TextInputField {
    #[verifier::type_invariant]
    spec fn inv(&self) -> bool {
        self@.wf()
    }

    /// An empty field with the cursor at the start.
    pub fn new() -> (field: Self)
        ensures
            field@ == FieldModel::empty(),
    {
        TextInputField { buffer: Vec::new(), cursor: 0 }
    }

    /// The text.
    pub fn value(&self) -> (text: String)
        ensures
            text@ == self@.buffer,
    {
        let mut text = String::new();
        let mut i: usize = 0;
        while i < self.buffer.len()
            invariant
                i <= self.buffer@.len(),
                text@ == self.buffer@.take(i as int),
            decreases self.buffer@.len() - i,
        {
            text.push(self.buffer[i]);
            i += 1;
        }
        text
    }

    /// The cursor position, which is never behind the end of the text.
    pub fn cursor(&self) -> (cursor: usize)
        ensures
            cursor == self@.cursor,
            self@.wf(),
    {
        proof {
            use_type_invariant(self);
        }
        self.cursor
    }

    /// Inserts `c` at the cursor and moves the cursor behind it.
    pub fn insert_char(&mut self, c: char)
        ensures
            final(self)@ == old(self)@.insert_char(c),
            final(self)@.wf(),
    {
        proof {
            use_type_invariant(&*self);
        }
        let at = self.cursor;
        let mut buffer: Vec<char> = Vec::new();
        self.cursor = 0;
        core::mem::swap(&mut self.buffer, &mut buffer);
        buffer.insert(at, c);
        assert(at < buffer.len());
        self.buffer = buffer;
        self.cursor = at + 1;
    }

    /// Removes the character in front of the cursor and moves the cursor one
    /// back. Does nothing where the cursor is at the start.
    pub fn delete_before_cursor(&mut self)
        ensures
            final(self)@ == old(self)@.delete_before_cursor(),
            final(self)@.wf(),
    {
        proof {
            use_type_invariant(&*self);
        }
        if self.cursor > 0 {
            let at = self.cursor - 1;
            let mut buffer: Vec<char> = Vec::new();
            self.cursor = 0;
            core::mem::swap(&mut self.buffer, &mut buffer);
            buffer.remove(at);
            self.buffer = buffer;
            self.cursor = at;
        }
    }

    /// Moves the cursor one character left. Does nothing where the cursor is
    /// at the start.
    pub fn move_left(&mut self)
        ensures
            final(self)@ == old(self)@.move_left(),
            final(self)@.wf(),
    {
        proof {
            use_type_invariant(&*self);
        }
        if self.cursor > 0 {
            self.cursor -= 1;
        }
    }

    /// Moves the cursor one character right. Does nothing where the cursor is
    /// at the end.
    pub fn move_right(&mut self)
        ensures
            final(self)@ == old(self)@.move_right(),
            final(self)@.wf(),
    {
        proof {
            use_type_invariant(&*self);
        }
        if self.cursor < self.buffer.len() {
            self.cursor += 1;
        }
    }
}

impl Default for TextInputField {
    /// An empty field with the cursor at the start.
    fn default() -> (field: Self)
        ensures
            field@ == FieldModel::empty(),
    {
        TextInputField::new()
    }
}

} // verus!
