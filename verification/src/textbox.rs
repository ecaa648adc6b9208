//! A single-line text field with a cursor.

use vstd::prelude::*;
use vstd::string::*;

verus! {

/// `String::push` appends one character to the end of the string.
pub assume_specification[ String::push ](text: &mut String, ch: char)
    ensures
        final(text)@ == old(text)@.push(ch),
;

/// What a text field holds: its characters and the cursor, an index between
/// characters counted in characters.
pub struct TextboxView {
    pub text: Seq<char>,
    pub cursor: nat,
}

impl TextboxView {
    /// The cursor stands at a character boundary of the text.
    pub open spec fn wf(self) -> bool {
        self.cursor <= self.text.len()
    }

    /// The empty field.
    pub open spec fn empty() -> Self {
        TextboxView { text: Seq::empty(), cursor: 0 }
    }

    /// The cursor one character to the left, unless it is at the start.
    pub open spec fn cursor_left(self) -> Self {
        if self.cursor > 0 {
            TextboxView { text: self.text, cursor: (self.cursor - 1) as nat }
        } else {
            self
        }
    }

    /// The cursor one character to the right, unless it is at the end.
    pub open spec fn cursor_right(self) -> Self {
        if self.cursor < self.text.len() {
            TextboxView { text: self.text, cursor: self.cursor + 1 }
        } else {
            self
        }
    }

    /// `c` inserted at the cursor, and the cursor behind it.
    pub open spec fn entered(self, c: char) -> Self {
        TextboxView { text: self.text.insert(self.cursor as int, c), cursor: self.cursor + 1 }
    }

    /// The character before the cursor removed and the cursor moved onto its
    /// place; unchanged when the cursor is at the start.
    pub open spec fn deleted(self) -> Self {
        if self.cursor > 0 {
            TextboxView {
                text: self.text.remove(self.cursor - 1),
                cursor: (self.cursor - 1) as nat,
            }
        } else {
            self
        }
    }

    /// Every edit leaves the cursor at a character boundary of the text.
    pub proof fn lemma_edits_keep_cursor_in_text(self, c: char)
        requires
            self.wf(),
        ensures
            self.cursor_left().wf(),
            self.cursor_right().wf(),
            self.entered(c).wf(),
            self.deleted().wf(),
    {
    }

    /// Deleting straight after entering a character restores the field.
    pub proof fn lemma_delete_undoes_enter(self, c: char)
        requires
            self.wf(),
        ensures
            self.entered(c).deleted() == self,
    {
        assert(self.entered(c).deleted().text =~= self.text);
    }

    /// Every edit but the entering of a character leaves the text no longer
    /// than it was, and entering one makes it one character longer.
    pub proof fn lemma_edit_lengths(self, c: char)
        requires
            self.wf(),
        ensures
            self.cursor_left().text == self.text,
            self.cursor_right().text == self.text,
            self.entered(c).text.len() == self.text.len() + 1,
            self.entered(c).text[self.cursor as int] == c,
            self.deleted().text.len() == if self.cursor > 0 {
                self.text.len() - 1
            } else {
                self.text.len() as int
            },
    {
    }
}

/// A single-line text field. The cursor never leaves the text.
pub struct Textbox {
    input: String,
    cursor: usize,
}

impl View for Textbox {
    type V = TextboxView;

    closed spec fn view(&self) -> TextboxView {
        TextboxView { text: self.input@, cursor: self.cursor as nat }
    }
}

impl Textbox {
    #[verifier::type_invariant]
    spec fn cursor_in_text(&self) -> bool {
        self.cursor <= self.input@.len()
    }

    /// An empty field with the cursor at the start.
    pub fn new() -> (textbox: Self)
        ensures
            textbox@ == TextboxView::empty(),
            textbox@.wf(),
    {
        Textbox { input: String::new(), cursor: 0 }
    }

    /// The text of the field.
    pub fn input(&self) -> (text: &str)
        ensures
            text@ == self@.text,
            self@.wf(),
    {
        proof {
            use_type_invariant(self);
        }
        self.input.as_str()
    }

    /// The cursor, which is never behind the end of the text.
    pub fn cursor(&self) -> (cursor: usize)
        ensures
            cursor == self@.cursor,
            self@.wf(),
    {
        proof {
            use_type_invariant(self);
        }
        self.cursor
    }

    /// Moves the cursor one character to the left; at the start it stays.
    pub fn move_cursor_left(&mut self)
        ensures
            final(self)@ == old(self)@.cursor_left(),
            old(self)@.wf(),
            final(self)@.wf(),
    {
        proof {
            use_type_invariant(&*self);
        }
        if self.cursor > 0 {
            self.cursor = self.cursor - 1;
        }
    }

    /// Moves the cursor one character to the right; at the end it stays.
    pub fn move_cursor_right(&mut self)
        ensures
            final(self)@ == old(self)@.cursor_right(),
            old(self)@.wf(),
            final(self)@.wf(),
    {
        proof {
            use_type_invariant(&*self);
        }
        let length: usize = self.input.as_str().unicode_len();
        if self.cursor < length {
            self.cursor = self.cursor + 1;
        }
    }

    /// Inserts `c` at the cursor and moves the cursor behind it.
    pub fn enter_char(&mut self, c: char)
        ensures
            final(self)@ == old(self)@.entered(c),
            old(self)@.wf(),
            final(self)@.wf(),
    {
        proof {
            use_type_invariant(&*self);
        }
        let length: usize = self.input.as_str().unicode_len();
        let mut text = String::from_str(self.input.as_str().substring_char(0, self.cursor));
        text.push(c);
        text.append(self.input.as_str().substring_char(self.cursor, length));
        assert(text@ =~= old(self)@.text.insert(old(self)@.cursor as int, c));
        self.input = text;
        self.move_cursor_right();
    }

    /// Removes the character before the cursor and moves the cursor onto its
    /// place; with the cursor at the start nothing changes.
    pub fn delete_char(&mut self)
        ensures
            final(self)@ == old(self)@.deleted(),
            old(self)@.wf(),
            final(self)@.wf(),
    {
        proof {
            use_type_invariant(&*self);
        }
        if self.cursor > 0 {
            let length: usize = self.input.as_str().unicode_len();
            let mut text = String::from_str(
                self.input.as_str().substring_char(0, self.cursor - 1),
            );
            text.append(self.input.as_str().substring_char(self.cursor, length));
            assert(text@ =~= old(self)@.text.remove(old(self)@.cursor - 1));
            self.move_cursor_left();
            self.input = text;
        }
    }
}

} // verus!
