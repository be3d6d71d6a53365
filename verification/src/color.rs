//! Terminal display colors for styled runs.

use vstd::prelude::*;

verus! {

/// A terminal display color, as assigned to a styled run; `Plain` marks
/// unstyled text.
#[derive(Clone, Copy, Debug, PartialEq, Eq, Structural)]
pub enum Color {
    Red,
    Green,
    Yellow,
    Blue,
    Magenta,
    White,
    Cyan,
    Plain,
}

/// The fixed numeric code under which a terminal displays `c`; `Plain`
/// carries the reset code.
pub open spec fn spec_color_code(c: Color) -> u8 {
    match c {
        Color::Red => 31,
        Color::Green => 32,
        Color::Yellow => 33,
        Color::Blue => 34,
        Color::Magenta => 35,
        Color::White => 26,
        Color::Cyan => 36,
        Color::Plain => 0,
    }
}

impl Color {
    /// The numeric terminal display code of this color, as it appears in a
    /// style escape sequence.
    pub fn code(&self) -> (code: u8)
        ensures
            code == spec_color_code(*self),
    {
        match self {
            Color::Red => 31,
            Color::Green => 32,
            Color::Yellow => 33,
            Color::Blue => 34,
            Color::Magenta => 35,
            Color::White => 26,
            Color::Cyan => 36,
            Color::Plain => 0,
        }
    }
}

} // verus!
