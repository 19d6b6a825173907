//! Errors surfaced to the caller of the session operations.
//!
//! Every operation-level failure is reported synchronously as a value of
//! [`BridgeError`] carrying a human-readable message; nothing is retried.

use vstd::prelude::*;

verus! {

/// The failure taxonomy of the bridge.
///
/// * `PtyAllocation`: the OS could not create the pseudo-terminal, or a
///   read/write half could not be obtained from the master.
/// * `Spawn`: the child process could not be launched on the slave side.
/// * `Write`: an I/O failure while writing caller input to an active session.
#[derive(Debug)]
pub enum BridgeError {
    PtyAllocation(String),
    Spawn(String),
    Write(String),
}

impl BridgeError {
    /// The message carried by the error, whichever variant it is.
    pub open spec fn message_spec(&self) -> Seq<char> {
        match self {
            BridgeError::PtyAllocation(m) => m@,
            BridgeError::Spawn(m) => m@,
            BridgeError::Write(m) => m@,
        }
    }

    /// Returns the human-readable message of this error.
    pub fn message(&self) -> (m: String)
        ensures
            m@ == self.message_spec(),
    {
        match self {
            BridgeError::PtyAllocation(m) => m.clone(),
            BridgeError::Spawn(m) => m.clone(),
            BridgeError::Write(m) => m.clone(),
        }
    }
}

} // verus!
