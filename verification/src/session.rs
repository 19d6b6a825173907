//! The session lifecycle: opening a PTY, launching the child, installing
//! the input writer, forwarding caller input, and the resize stub.
//!
//! At most one session's writer is held at a time. Starting again
//! installs the new session's writer in its place: the caller's input
//! path to the old session is gone, while an output relay already
//! running on the old session is unaffected.

use vstd::prelude::*;
use crate::command::build_command;
use crate::errors::BridgeError;
use crate::launch::LaunchConfig;
use crate::pty::ChildHandle;
use crate::pty::WriterHandle;
use crate::pty::anyhow_message;
use crate::pty::clone_reader;
use crate::pty::flush_raw;
use crate::pty::io_message;
use crate::pty::new_pty_system;
use crate::pty::open_pty;
use crate::pty::spawn_in_slave;
use crate::pty::take_writer;
use crate::pty::write_all_raw;
use crate::relay::OutputReader;

verus! {

/// The master's input side, together with the history of the bytes
/// written and flushed through it.
pub struct InputWriter {
    handle: WriterHandle,
    log: Ghost<Seq<u8>>,
}

impl InputWriter {
    /// The bytes written and flushed so far, oldest first: exactly the
    /// concatenation, in submission order, of the accepted writes, with
    /// no transformation.
    pub closed spec fn fed(self) -> Seq<u8> {
        self.log@
    }

    /// Wraps a fresh writable handle with an empty history.
    pub(crate) fn new(handle: WriterHandle) -> (w: InputWriter)
        ensures
            w.fed() == Seq::<u8>::empty(),
    {
        InputWriter { handle, log: Ghost(Seq::empty()) }
    }

    /// Writes the whole byte sequence and flushes it at once, so that
    /// interactive input reaches the child without buffering latency.
    pub fn feed(&mut self, data: &[u8]) -> (r: Result<(), BridgeError>)
        ensures
            r is Ok ==> final(self).fed() == old(self).fed() + data@,
            r is Err ==> final(self).fed() == old(self).fed() && r->Err_0 is Write,
    {
        match write_all_raw(&mut self.handle, data) {
            Ok(()) => {}
            Err(e) => {
                return Err(BridgeError::Write(io_message(&e)));
            }
        }
        match flush_raw(&mut self.handle) {
            Ok(()) => {
                self.log = Ghost(self.log@ + data@);
                Ok(())
            }
            Err(e) => Err(BridgeError::Write(io_message(&e))),
        }
    }
}

/// What a successful [`start`] hands back for the session's background
/// work: the output side to drain, and the child to reap when the
/// stream ends.
pub struct SessionRun {
    pub reader: OutputReader,
    pub child: ChildHandle,
}

/// The single slot holding the live session's input writer, and, as
/// ghost state, the size the live session's PTY was opened with.
///
/// The caller guards a value of this type with its own exclusive lock:
/// every operation takes it exclusively, so writes never interleave.
pub struct SessionState {
    writer: Option<InputWriter>,
    size: Ghost<Option<(u16, u16)>>,
}

impl SessionState {
    /// Whether a session's writer is installed.
    pub closed spec fn has_session(self) -> bool {
        self.writer is Some
    }

    /// The bytes fed to the live session so far.
    pub closed spec fn session_fed(self) -> Seq<u8>
        recommends
            self.has_session(),
    {
        self.writer->0.fed()
    }

    /// The `(cols, rows)` the live session's PTY was opened with.
    pub closed spec fn session_size(self) -> Option<(u16, u16)> {
        self.size@
    }

    /// The empty state a process starts with: no session.
    pub fn new() -> (s: SessionState)
        ensures
            !s.has_session(),
            s.session_size() is None,
    {
        SessionState { writer: None, size: Ghost(None) }
    }
}

/// Opens a PTY of the given size, launches the configured command onto
/// its slave side, installs the new session's writer in the state, and
/// hands back the output side for the caller to relay.
///
/// On success exactly one session is live: the new writer, with nothing
/// fed yet, replaces whatever writer was installed before, and the
/// recorded size is the new one. On any failure the state is left as it
/// was. Errors arise only from the operating-system calls: allocating
/// the PTY or its read/write halves (`PtyAllocation`) and launching the
/// child (`Spawn`).
pub fn start(
    state: &mut SessionState,
    cfg: &LaunchConfig,
    cols: u16,
    rows: u16,
) -> (r: Result<SessionRun, BridgeError>)
    ensures
        r is Ok ==> {
            &&& final(state).has_session()
            &&& final(state).session_fed() == Seq::<u8>::empty()
            &&& final(state).session_size() == Some((cols, rows))
            &&& r->Ok_0.reader.chunks() == Seq::<Seq<u8>>::empty()
            &&& !r->Ok_0.reader.ended()
        },
        r is Err ==> {
            &&& *final(state) == *old(state)
            &&& (r->Err_0 is PtyAllocation || r->Err_0 is Spawn)
        },
{
    let sys = new_pty_system();
    let (master, slave) = match open_pty(&sys, cols, rows) {
        Ok(pair) => pair,
        Err(e) => {
            return Err(BridgeError::PtyAllocation(anyhow_message(&e)));
        }
    };
    let cmd = build_command(cfg);
    let child = match spawn_in_slave(&slave, cmd) {
        Ok(c) => c,
        Err(e) => {
            return Err(BridgeError::Spawn(anyhow_message(&e)));
        }
    };
    let reader_handle = match clone_reader(&master) {
        Ok(h) => h,
        Err(e) => {
            return Err(BridgeError::PtyAllocation(anyhow_message(&e)));
        }
    };
    let writer_handle = match take_writer(&master) {
        Ok(h) => h,
        Err(e) => {
            return Err(BridgeError::PtyAllocation(anyhow_message(&e)));
        }
    };
    state.writer = Some(InputWriter::new(writer_handle));
    state.size = Ghost(Some((cols, rows)));
    Ok(SessionRun { reader: OutputReader::new(reader_handle), child })
}

/// Forwards caller input to the live session's writer.
///
/// With no session installed this is a silent no-op success: the bytes
/// are swallowed, nothing fails and nothing changes. With a session, the
/// whole sequence is written and flushed in order, unchanged; an I/O
/// failure is reported as `Write` and tears nothing down.
pub fn write(state: &mut SessionState, data: &[u8]) -> (r: Result<(), BridgeError>)
    ensures
        !old(state).has_session() ==> r is Ok && *final(state) == *old(state),
        old(state).has_session() ==> {
            &&& final(state).has_session()
            &&& final(state).session_size() == old(state).session_size()
            &&& (r is Ok ==> final(state).session_fed() == old(state).session_fed() + data@)
            &&& (r is Err ==> final(state).session_fed() == old(state).session_fed())
        },
        r is Err ==> r->Err_0 is Write,
{
    match &mut state.writer {
        None => Ok(()),
        Some(w) => w.feed(data),
    }
}

/// Propagating a size change to the live PTY is not wired up: the call
/// accepts the new size, changes nothing and reports success. A caller
/// may log the intent; the session keeps the size it was started with.
pub fn resize(state: &mut SessionState, _cols: u16, _rows: u16) -> (r: Result<(), BridgeError>)
    ensures
        r is Ok,
        *final(state) == *old(state),
{
    Ok(())
}

} // verus!
