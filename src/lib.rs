//! A number-guessing game: the session state machine, the decisions of a
//! hand-drawn window frame, and the palette they use.

pub mod chrome;
pub mod text;
pub mod palette;
pub mod game;
