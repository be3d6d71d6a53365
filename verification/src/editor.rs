//! The editable input line: text plus an edit cursor.

use vstd::prelude::*;

verus! {

/// The line currently being edited, with the cursor offset at which the next
/// character is inserted.
///
/// Every operation keeps the cursor between 0 and the text length, checking
/// its bounds instead of failing: movement and deletion at the ends are
/// no-ops.
pub struct InputLine {
    /// The characters of the line, left to right.
    pub text: Vec<char>,
    /// The edit cursor, as an offset in 0 ..= `text.len()`.
    pub cursor: usize,
}

impl InputLine {
    /// The cursor stands inside the text: between 0 and its length.
    pub open spec fn wf(self) -> bool {
        self.cursor <= self.text@.len()
    }

    /// A fresh, empty line with the cursor at the left end.
    pub fn new() -> (line: InputLine)
        ensures
            line.wf(),
            line.text@ == Seq::<char>::empty(),
            line.cursor == 0,
    {
        InputLine { text: Vec::new(), cursor: 0 }
    }

    /// Inserts `ch` at the cursor; the cursor advances past it.
    pub fn insert(&mut self, ch: char)
        requires
            old(self).wf(),
        ensures
            final(self).wf(),
            final(self).text@ == old(self).text@.insert(old(self).cursor as int, ch),
            final(self).cursor == old(self).cursor + 1,
    {
        self.text.insert(self.cursor, ch);
        let len = self.text.len();
        assert(self.cursor < len);
        self.cursor = self.cursor + 1;
    }

    /// Removes the character just before the cursor and moves the cursor onto
    /// its place; a no-op when the cursor stands at the left end.
    pub fn delete_before_cursor(&mut self)
        requires
            old(self).wf(),
        ensures
            final(self).wf(),
            old(self).cursor > 0 ==> final(self).text@ == old(self).text@.remove(
                old(self).cursor - 1,
            ) && final(self).cursor == old(self).cursor - 1,
            old(self).cursor == 0 ==> *final(self) == *old(self),
    {
        if self.cursor > 0 {
            self.cursor = self.cursor - 1;
            self.text.remove(self.cursor);
        }
    }

    /// Moves the cursor one place left, stopping at the left end.
    pub fn move_left(&mut self)
        requires
            old(self).wf(),
        ensures
            final(self).wf(),
            final(self).text@ == old(self).text@,
            old(self).cursor > 0 ==> final(self).cursor == old(self).cursor - 1,
            old(self).cursor == 0 ==> final(self).cursor == 0,
    {
        if self.cursor > 0 {
            self.cursor = self.cursor - 1;
        }
    }

    /// Moves the cursor one place right, stopping at the end of the text.
    pub fn move_right(&mut self)
        requires
            old(self).wf(),
        ensures
            final(self).wf(),
            final(self).text@ == old(self).text@,
            old(self).cursor < old(self).text@.len() ==> final(self).cursor == old(self).cursor
                + 1,
            old(self).cursor == old(self).text@.len() ==> final(self).cursor == old(self).cursor,
    {
        if self.cursor < self.text.len() {
            self.cursor = self.cursor + 1;
        }
    }

    /// Replaces the whole line with `new_text` — as when a history entry is
    /// recalled; the cursor moves to the end of the new text.
    pub fn replace(&mut self, new_text: Vec<char>)
        ensures
            final(self).wf(),
            final(self).text@ == new_text@,
            final(self).cursor == new_text@.len(),
    {
        self.cursor = new_text.len();
        self.text = new_text;
    }

    /// Empties the line; the cursor returns to the left end.
    pub fn clear(&mut self)
        ensures
            final(self).wf(),
            final(self).text@ == Seq::<char>::empty(),
            final(self).cursor == 0,
    {
        self.text.clear();
        self.cursor = 0;
    }
}

} // verus!
