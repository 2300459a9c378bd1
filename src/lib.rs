//! A terminal emulation core: a byte stream of text and ANSI control
//! sequences becomes a fixed-size grid of colored cells with a cursor.
//! The lexer stage (`vte`) finds sequence boundaries; the interpreting stage
//! applies the few sequences a full-screen editor needs to the screen.

pub mod action;
pub mod cell;
pub mod keys;
pub mod laws;
pub mod lexer;
pub mod pipeline;
pub mod screen;
pub mod snapshot;
pub mod terminal;

pub use action::Action;
pub use cell::{Cell, Rgb};
pub use keys::{key_to_byte, Key};
pub use pipeline::Step;
pub use screen::{ANSIParser, OutOfRange, COLS, ROWS};
pub use snapshot::{CursorStyle, Snapshot};
pub use terminal::Terminal;
