//! Core of a minimal terminal text editor: a line-based text buffer with a
//! cursor and scroll viewport, and the keystroke-driven edit state machine.
//! Terminal input/output itself lives outside this crate; the functions here
//! work on plain values and carry proofs of the buffer, cursor and viewport
//! invariants.

pub mod model;
pub mod text;
pub mod editor;
pub mod engine;
pub mod laws;
