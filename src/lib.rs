//! Decisions of an interactive network-interface configuration tool: menu
//! parsing, input validation, the command lines to run, and the messages to
//! report from what those commands returned. Running the commands and talking
//! to the terminal is left to the caller.

pub mod text;
pub mod command;
pub mod menu;
pub mod laws;
