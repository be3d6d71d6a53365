//! The conditions that end a whole session.

use vstd::prelude::*;

verus! {

/// A fatal condition: the engine cannot continue once the history log cannot
/// be opened or written, or once the terminal's raw mode cannot be switched.
/// Whoever runs the session restores the terminal and ends the process when
/// one of these arises.
#[derive(Clone, Copy, Debug, PartialEq, Eq, Structural)]
pub enum FatalError {
    /// The history log could not be opened or appended to.
    Storage,
    /// Raw terminal mode could not be enabled or disabled.
    Terminal,
}

/// The message shown for `e` before the session ends.
pub open spec fn spec_error_message(e: FatalError) -> Seq<char> {
    match e {
        FatalError::Storage => "history log cannot be opened or written"@,
        FatalError::Terminal => "terminal raw mode cannot be switched"@,
    }
}

impl FatalError {
    /// The user-visible message for this condition.
    pub fn message(&self) -> (msg: &'static str)
        ensures
            msg@ == spec_error_message(*self),
    {
        match self {
            FatalError::Storage => "history log cannot be opened or written",
            FatalError::Terminal => "terminal raw mode cannot be switched",
        }
    }
}

} // verus!
