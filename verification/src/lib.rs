//! Verified core of a pinentry program that speaks the Assuan protocol.
//!
//! The library holds what the program decides: how a request line is
//! answered, how pinentry commands change the prompt state, how keys move
//! the focus of the terminal prompt. Reading and writing file descriptors,
//! drawing on the terminal and running threads stay with the caller.

pub mod text;
pub mod error;
mod outside;
pub mod assuan;
pub mod pinentry;
pub mod prompt;
pub mod secret;
