//! A command-line assistant that turns a task description into a shell command.
//!
//! The library holds the logic: the answer cache, the rules for what to do
//! with an answer, the breaking of a command line into a program and its
//! arguments, and the steps of a call to the completion API. Reading files,
//! the network, the terminal and the environment is left to the caller.

pub mod decompose;
pub mod postprocess;
pub mod text;
pub mod cache;
pub mod gpt3;
pub mod should_exit;
