//! Core of a minimal interactive terminal: a fixed-size character grid with a
//! cursor and bounded scrollback, a key-event-to-action translation layer, a
//! command dispatcher, a prefix completer over a fixed command list, and the
//! controller that ties them together. Rendering, window management and the
//! actual child processes live outside this crate; the library hands them
//! plain values and takes plain values back.

pub mod commands;
pub mod completer;
pub mod grid;
pub mod key;
pub mod pty;
pub mod terminal;
pub mod text;
pub mod theme;
