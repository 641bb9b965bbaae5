//! A line editor in the manner of readline.
//!
//! The library holds what a line editor decides: what each key does to the line, the cursor and
//! the place in the history, which part of a long line is shown, and what is written to the
//! terminal. It performs no input or output. `session::start_line` and `session::step` take what
//! was typed, one character at a time, and `output::Output` collects what is to be written.
//!
//! `model` describes the editor mathematically. `effects` proves what each command does to the line,
//! the cursor and the row, `typing` what each key does, and `laws` what holds of the editor as a
//! whole.

pub mod consts;
pub mod edit;
pub mod effects;
pub mod error;
pub mod history;
pub mod input;
pub mod keys;
pub mod laws;
pub mod model;
pub mod output;
pub mod screen;
pub mod session;
pub mod state;
pub mod strings;
pub mod terminal;
pub mod text;
pub mod typing;
pub mod width;
