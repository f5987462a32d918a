//! Decision logic of a command-line tool that sets monitor brightness over
//! DDC/CI: reading the argument list, and what to read from and write to each
//! display for the chosen action.

pub mod number;
pub mod text;
pub mod command;
pub mod display;
pub mod laws;
pub mod messages;
