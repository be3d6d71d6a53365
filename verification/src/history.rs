//! The history store: an append-only log of submitted lines with a
//! wrap-around recall cursor.

use vstd::prelude::*;

use crate::text::copy_chars;

verus! {

/// Direction of one history-recall step.
#[derive(Clone, Copy, Debug, PartialEq, Eq, Structural)]
pub enum Direction {
    Up,
    Down,
}

/// The ordered log of previously submitted lines, oldest first.
///
/// The log is append-only: past entries are never edited or dropped. Recall
/// navigation moves an index over 0 ..= count, where `count` itself stands
/// for the fresh, empty line; a step past either end wraps to the opposite
/// end instead of clamping. The backing store — a newline-delimited append
/// log on disk — is read and written by the embedding program, which loads
/// its lines through [`History::from_entries`] at startup and appends each
/// submitted line alongside [`History::append`].
pub struct History {
    entries: Vec<Vec<char>>,
}

impl View for History {
    type V = Seq<Seq<char>>;

    closed spec fn view(&self) -> Seq<Seq<char>> {
        self.entries.deep_view()
    }
}

/// The entry of `entries` at `index`, oldest first; the empty string when
/// `index` is out of range.
pub open spec fn spec_get(entries: Seq<Seq<char>>, index: int) -> Seq<char> {
    if 0 <= index < entries.len() {
        entries[index]
    } else {
        Seq::empty()
    }
}

/// The recall index one step in `dir` from `current`, over a log of `count`
/// entries: up goes toward older entries and wraps from 0 to `count`; down
/// goes toward newer entries and wraps from `count` to 0.
pub open spec fn spec_navigate(count: int, current: int, dir: Direction) -> int {
    match dir {
        Direction::Up => if current > 0 {
            current - 1
        } else {
            count
        },
        Direction::Down => if current < count {
            current + 1
        } else {
            0
        },
    }
}

impl History {
    /// An empty log.
    pub fn new() -> (history: History)
        ensures
            history@ == Seq::<Seq<char>>::empty(),
    {
        let history = History { entries: Vec::new() };
        proof {
            assert(history@ =~= Seq::<Seq<char>>::empty());
        }
        history
    }

    /// A log holding `entries`, oldest first — as read back from the backing
    /// store at startup.
    pub fn from_entries(entries: Vec<Vec<char>>) -> (history: History)
        ensures
            history@ == entries.deep_view(),
    {
        History { entries }
    }

    /// The number of recorded entries.
    pub fn count(&self) -> (count: usize)
        ensures
            count == self@.len(),
    {
        self.entries.len()
    }

    /// The entry at `index`, oldest first; the empty string when `index` is
    /// out of range — callers rely on that as the "no such entry" sentinel
    /// rather than on an error path.
    pub fn get(&self, index: usize) -> (line: Vec<char>)
        ensures
            line@ == spec_get(self@, index as int),
    {
        if index < self.entries.len() {
            copy_chars(&self.entries[index])
        } else {
            Vec::new()
        }
    }

    /// Records `line` as the newest entry; an empty line is never recorded.
    pub fn append(&mut self, line: Vec<char>)
        ensures
            line@.len() > 0 ==> final(self)@ == old(self)@.push(line@),
            line@.len() == 0 ==> final(self)@ == old(self)@,
    {
        if line.len() > 0 {
            let ghost previous = self@;
            let ghost entry = line@;
            let ghost entry_deep = line.deep_view();
            self.entries.push(line);
            proof {
                assert(entry_deep =~= entry);
                assert(self@ =~= previous.push(entry));
            }
        }
    }

    /// The recall index one step in `dir` from `current`, wrapping at the
    /// ends: one step up from 0 jumps to `count`, one step down from `count`
    /// jumps to 0.
    pub fn navigate(&self, current: usize, dir: Direction) -> (next: usize)
        requires
            current <= self@.len(),
        ensures
            next == spec_navigate(self@.len() as int, current as int, dir),
    {
        match dir {
            Direction::Up => if current > 0 {
                current - 1
            } else {
                self.entries.len()
            },
            Direction::Down => if current < self.entries.len() {
                current + 1
            } else {
                0
            },
        }
    }
}

/// History navigation wraps at the ends: over a log of `count` entries, one
/// step up from index 0 lands on `count`, and one step down from `count`
/// lands on 0.
pub proof fn lemma_navigate_wraps(count: int)
    requires
        0 <= count,
    ensures
        spec_navigate(count, 0, Direction::Up) == count,
        spec_navigate(count, count, Direction::Down) == 0,
{
}

/// One navigation step from an index in 0 ..= `count` lands in 0 ..= `count`.
pub proof fn lemma_navigate_in_range(count: int, current: int, dir: Direction)
    requires
        0 <= current <= count,
    ensures
        0 <= spec_navigate(count, current, dir) <= count,
{
}

} // verus!
