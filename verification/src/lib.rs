//! The decision logic of a chat bot: how a chat line is split into a command
//! and its arguments, which commands exist and who may run them, what each
//! command asks of the outside world and what it answers, and how a snippet is
//! taken through the sandbox.
//!
//! Nothing here opens a file, a socket or a process. Every function takes
//! plain values and returns plain values, and the caller does what the
//! returned value asks for. The clock and the dice are the two things that
//! the library looks at by itself, and each function that does so says what
//! holds whatever they show.

pub mod chance;
pub mod commands;
pub mod config;
pub mod helpers;
pub mod messages;
pub mod services;
pub mod text;
