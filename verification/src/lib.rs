//! Protocol core of a supervisor for Model Context Protocol servers that are
//! spoken to over the standard streams of a child process.
//!
//! The crate holds the decisions and leaves the input and output to its
//! caller: every operation takes what the outside world answered as a plain
//! value and says, in its contract, what is to be done next.

pub mod commands;
pub mod error;
pub mod json;
pub mod process;
pub mod registry;
pub mod rpc;
pub mod text;
