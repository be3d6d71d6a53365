//! The input dispatcher: one editing session and its state machine.
//!
//! The embedding program owns the terminal. It decodes each raw key into a
//! [`KeyEvent`], hands it to [`Session::step`], and performs the returned
//! [`Action`]: redraw the line, or append the submitted line to the backing
//! log and run the evaluator, or end the session. Editing is the only steady
//! state; submission and termination are transient, decided one event at a
//! time.

use vstd::prelude::*;

use crate::editor::InputLine;
use crate::history::Direction;
use crate::history::History;
use crate::history::lemma_navigate_in_range;
use crate::history::spec_get;
use crate::history::spec_navigate;
use crate::text::copy_chars;

verus! {

/// One raw key event, as the embedding program decodes it from the terminal.
#[derive(Clone, Copy, Debug, PartialEq, Eq, Structural)]
pub enum KeyEvent {
    /// A printable character typed with no control modifier.
    Char(char),
    /// A character typed together with the control modifier.
    Ctrl(char),
    /// The backspace key.
    Backspace,
    /// The left arrow key.
    Left,
    /// The right arrow key.
    Right,
    /// The up arrow key.
    Up,
    /// The down arrow key.
    Down,
    /// The enter key.
    Enter,
    /// Any key the dispatcher does not react to.
    Other,
}

/// What the embedding program must do after one dispatched event.
#[derive(Debug, PartialEq, Eq)]
pub enum Action {
    /// Redraw the prompt and the line, then wait for the next key.
    Redraw,
    /// The carried line was submitted: append it to the backing log, leave
    /// raw mode, hand it to the evaluator and print the result, re-enter raw
    /// mode, then redraw the now-empty line.
    Submit(Vec<char>),
    /// Leave raw mode, flush, and end the process with success.
    Terminate,
}

/// One interactive editing session: the line being edited, the history log,
/// and the recall index.
pub struct Session {
    /// The line being edited.
    pub line: InputLine,
    /// The log of submitted lines.
    pub history: History,
    /// The recall index, in 0 ..= the history count; the count itself stands
    /// for the fresh, empty line.
    pub hist_index: usize,
}

impl Session {
    /// The line's cursor and the recall index are in their bounds.
    pub open spec fn wf(self) -> bool {
        self.line.wf() && self.hist_index <= self.history@.len()
    }

    /// A fresh session over `history`: an empty line, the recall index at
    /// the count — the empty-line position.
    pub fn new(history: History) -> (session: Session)
        ensures
            session.wf(),
            session.history@ == history@,
            session.line.text@ == Seq::<char>::empty(),
            session.line.cursor == 0,
            session.hist_index == history@.len(),
    {
        let hist_index = history.count();
        Session { line: InputLine::new(), history, hist_index }
    }

    /// Recalls the entry one step in `dir` from the current recall index,
    /// wrapping at the ends, and replaces the line with it; at the count
    /// position the recalled line is empty.
    fn recall(&mut self, dir: Direction)
        requires
            old(self).wf(),
        ensures
            final(self).wf(),
            final(self).history@ == old(self).history@,
            final(self).hist_index == spec_navigate(
                old(self).history@.len() as int,
                old(self).hist_index as int,
                dir,
            ),
            final(self).line.text@ == spec_get(old(self).history@, final(self).hist_index as int),
            final(self).line.cursor == final(self).line.text@.len(),
    {
        let next = self.history.navigate(self.hist_index, dir);
        proof {
            lemma_navigate_in_range(
                self.history@.len() as int,
                self.hist_index as int,
                dir,
            );
        }
        self.hist_index = next;
        let entry = self.history.get(next);
        self.line.replace(entry);
    }

    /// Dispatches one key event while editing, and says what the embedding
    /// program must do next.
    ///
    /// A printable character is inserted at the cursor; backspace deletes
    /// before the cursor; the left and right arrows move the cursor, clamped
    /// to the line; the up and down arrows recall history with wrap-around;
    /// enter on an empty line only resets the recall index — the history
    /// grows by nothing and no line is handed out for evaluation; enter on a
    /// non-empty line records it as the newest history entry, resets the
    /// line and the recall index, and hands the line out for evaluation;
    /// control-d ends the session; anything else changes nothing.
    pub fn step(&mut self, event: KeyEvent) -> (action: Action)
        requires
            old(self).wf(),
        ensures
            final(self).wf(),
            action is Submit <==> event == KeyEvent::Enter && old(self).line.text@.len() > 0,
            action is Terminate <==> event == KeyEvent::Ctrl('d'),
            event matches KeyEvent::Char(c) ==> ({
                &&& final(self).line.text@ == old(self).line.text@.insert(
                    old(self).line.cursor as int,
                    c,
                )
                &&& final(self).line.cursor == old(self).line.cursor + 1
                &&& final(self).history@ == old(self).history@
                &&& final(self).hist_index == old(self).hist_index
            }),
            event matches KeyEvent::Ctrl(c) ==> *final(self) == *old(self),
            event == KeyEvent::Backspace && old(self).line.cursor > 0 ==> ({
                &&& final(self).line.text@ == old(self).line.text@.remove(old(self).line.cursor - 1)
                &&& final(self).line.cursor == old(self).line.cursor - 1
                &&& final(self).history@ == old(self).history@
                &&& final(self).hist_index == old(self).hist_index
            }),
            event == KeyEvent::Backspace && old(self).line.cursor == 0 ==> *final(self) == *old(self),
            event == KeyEvent::Left ==> ({
                &&& final(self).line.text@ == old(self).line.text@
                &&& final(self).line.cursor == (if old(self).line.cursor > 0 {
                    old(self).line.cursor - 1
                } else {
                    0int
                })
                &&& final(self).history@ == old(self).history@
                &&& final(self).hist_index == old(self).hist_index
            }),
            event == KeyEvent::Right ==> ({
                &&& final(self).line.text@ == old(self).line.text@
                &&& final(self).line.cursor == (if old(self).line.cursor < old(self).line.text@.len() {
                    old(self).line.cursor + 1
                } else {
                    old(self).line.cursor as int
                })
                &&& final(self).history@ == old(self).history@
                &&& final(self).hist_index == old(self).hist_index
            }),
            event == KeyEvent::Up || event == KeyEvent::Down ==> ({
                let dir = if event == KeyEvent::Up {
                    Direction::Up
                } else {
                    Direction::Down
                };
                let next = spec_navigate(
                    old(self).history@.len() as int,
                    old(self).hist_index as int,
                    dir,
                );
                &&& final(self).hist_index == next
                &&& final(self).line.text@ == spec_get(old(self).history@, next)
                &&& final(self).line.cursor == final(self).line.text@.len()
                &&& final(self).history@ == old(self).history@
            }),
            event == KeyEvent::Enter && old(self).line.text@.len() == 0 ==> ({
                &&& final(self).history@ == old(self).history@
                &&& final(self).hist_index == old(self).history@.len()
                &&& final(self).line.text@ == old(self).line.text@
                &&& final(self).line.cursor == 0
            }),
            event == KeyEvent::Enter && old(self).line.text@.len() > 0 ==> ({
                &&& final(self).history@ == old(self).history@.push(old(self).line.text@)
                &&& final(self).hist_index == old(self).history@.len() + 1
                &&& final(self).line.text@.len() == 0
                &&& final(self).line.cursor == 0
                &&& (action matches Action::Submit(line) && line@ == old(self).line.text@)
            }),
            event == KeyEvent::Other ==> *final(self) == *old(self),
    {
        match event {
            KeyEvent::Char(c) => {
                self.line.insert(c);
                Action::Redraw
            },
            KeyEvent::Ctrl(c) => {
                if c == 'd' {
                    Action::Terminate
                } else {
                    Action::Redraw
                }
            },
            KeyEvent::Backspace => {
                self.line.delete_before_cursor();
                Action::Redraw
            },
            KeyEvent::Left => {
                self.line.move_left();
                Action::Redraw
            },
            KeyEvent::Right => {
                self.line.move_right();
                Action::Redraw
            },
            KeyEvent::Up => {
                self.recall(Direction::Up);
                Action::Redraw
            },
            KeyEvent::Down => {
                self.recall(Direction::Down);
                Action::Redraw
            },
            KeyEvent::Enter => {
                if self.line.text.len() == 0 {
                    self.hist_index = self.history.count();
                    Action::Redraw
                } else {
                    let submitted = copy_chars(&self.line.text);
                    self.history.append(copy_chars(&submitted));
                    self.hist_index = self.history.count();
                    self.line.clear();
                    Action::Submit(submitted)
                }
            },
            KeyEvent::Other => Action::Redraw,
        }
    }
}

} // verus!
