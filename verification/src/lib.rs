//! Core of a terminal typing-practice tool.
//!
//! The library owns the typing-evaluation and navigation state machine: it
//! tracks the user's in-progress input against a fixed target passage,
//! classifies each target character as correct, incorrect, or pending,
//! manages navigation between a passage list and the two modes (selecting /
//! typing), and enforces the input-length and index-bounds invariants.
//! Screen drawing, keyboard plumbing and configuration loading are left to
//! the host program, which feeds key events in and pulls render models out.

pub mod style;
pub mod passage;
pub mod buffer;
pub mod diff;
pub mod nav;
pub mod session;
pub mod render;
pub mod laws;
