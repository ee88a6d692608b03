//! A minimal interactive terminal counter application, as a verified library.
//!
//! The library holds everything the application decides or computes: the
//! key-dispatch state machine that drives the single integer counter, the
//! exact text of each rendered frame, and the acquire/release discipline for
//! the terminal's raw mode and alternate screen buffer. The unverified
//! binary around it only performs the terminal I/O and feeds events in.

pub mod input;
pub mod render;
pub mod session;
pub mod state;
