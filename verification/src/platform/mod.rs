//! What the program does with its own files: its state, its runtime and its updates.

pub mod encoding;
pub mod laws;
pub mod runtime;
pub mod state;
pub mod update;
