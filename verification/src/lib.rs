//! skyrogue: the startup core of a small game client.
//!
//! The library covers the decision logic of program startup: parsing a
//! verbosity name, choosing where the game's data directory lives by probing
//! a deterministic sequence of candidate directories for a sentinel file,
//! and driving the application shell's state machine from configuration to
//! shutdown. All filesystem, logging and windowing calls live outside the
//! library; it exchanges plain values with them.

pub mod config;
pub mod errors;
pub mod events;
pub mod numfmt;
pub mod paths;
pub mod resolver;
pub mod shell;
pub mod verbosity;
