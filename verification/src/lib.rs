//! An embeddable line-editing engine for command-line REPL tools.
//!
//! The crate holds the verified core of such a tool: the visible-width
//! calculator for prompts with invisible styling spans, the token classifier
//! that partitions a line into styled runs, the history store with its
//! wrap-around recall cursor, the editable line buffer, and the key-event
//! dispatcher that drives them. Terminal I/O — raw mode, key reading, the
//! history file, the screen — stays outside, in whatever program embeds the
//! engine; the engine hands it plain values and redraw instructions.

pub mod color;
pub mod editor;
pub mod errors;
pub mod highlight;
pub mod history;
pub mod repl;
pub mod text;
pub mod width;

pub use color::Color;
pub use editor::InputLine;
pub use errors::FatalError;
pub use highlight::highlight;
pub use highlight::StyledRun;
pub use highlight::TokenRule;
pub use history::Direction;
pub use history::History;
pub use repl::Action;
pub use repl::KeyEvent;
pub use repl::Session;
pub use width::calculate_whitespace;
