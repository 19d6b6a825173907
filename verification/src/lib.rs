//! A verified pseudo-terminal session bridge.
//!
//! The library allocates a PTY, launches an interactive shell that runs a
//! target program on the slave side, relays the master's output to the
//! caller as byte-exact chunks, and forwards caller input to the master.

use vstd::prelude::*;

pub mod command;
pub mod errors;
pub mod launch;
pub mod pty;
pub mod relay;
pub mod session;

verus! {

/// Size of the buffer used for each read from the PTY master.
pub const CHUNK_SIZE: usize = 4096;

} // verus!
