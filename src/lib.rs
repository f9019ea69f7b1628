//! A line-oriented script language for input automation: each line of a script is a
//! `wait`, `kbd` or `mouse` command. Scripts are parsed into typed commands, and each
//! command is carried out as a short plan of primitive key, button and pointer actions
//! whose next step the library decides from the outcomes so far.
pub mod command;
pub mod exec;
pub mod kbd;
pub mod lexer;
pub mod mouse;
pub mod number;
pub mod wait;
