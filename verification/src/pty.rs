//! The trusted surface over the operating system's pseudo-terminal, as
//! `portable_pty` exposes it.
//!
//! Every handle here is opaque: what the logic needs of the bytes that
//! flow through them is stated by the verified wrappers around these in
//! [`relay`](crate::relay) and [`session`](crate::session).

use vstd::prelude::*;

verus! {

#[verifier::external_type_specification]
#[verifier::external_body]
pub struct ExAnyhowError(anyhow::Error);

#[verifier::external_type_specification]
#[verifier::external_body]
pub struct ExIoError(std::io::Error);

/// A pseudo-terminal allocator for the platform this runs on.
#[verifier::external_body]
pub struct PtySystemHandle {
    inner: Box<dyn portable_pty::PtySystem + Send>,
}

/// The controlling end of an open pseudo-terminal.
#[verifier::external_body]
pub struct MasterHandle {
    inner: Box<dyn portable_pty::MasterPty + Send>,
}

/// The controlled end of an open pseudo-terminal; child processes are
/// spawned onto it.
#[verifier::external_body]
pub struct SlaveHandle {
    inner: Box<dyn portable_pty::SlavePty + Send>,
}

/// A readable handle onto the master's output side.
#[verifier::external_body]
pub struct ReaderHandle {
    inner: Box<dyn std::io::Read + Send>,
}

/// A writable handle onto the master's input side.
#[verifier::external_body]
pub struct WriterHandle {
    inner: Box<dyn std::io::Write + Send>,
}

/// A handle on the child process spawned into the session.
#[verifier::external_body]
pub struct ChildHandle {
    inner: Box<dyn portable_pty::Child + Send + Sync>,
}

/// What one read from the master's output side yielded.
pub enum ReadOutcome {
    /// Some bytes arrived; never empty.
    Data(Vec<u8>),
    /// End of stream: every writable handle on the slave side is gone.
    Eof,
    /// A read error; treated like end of stream.
    Failed,
}

/// Relies on `portable_pty::native_pty_system`: yields the allocator for
/// the native platform.
#[verifier::external_body]
pub(crate) fn new_pty_system() -> PtySystemHandle {
    PtySystemHandle { inner: portable_pty::native_pty_system() }
}

/// Relies on `PtySystem::openpty`: allocates a master/slave pair sized to
/// the given number of columns and rows (cell pixel sizes left zero).
#[verifier::external_body]
pub(crate) fn open_pty(
    sys: &PtySystemHandle,
    cols: u16,
    rows: u16,
) -> Result<(MasterHandle, SlaveHandle), anyhow::Error> {
    let size = portable_pty::PtySize { rows, cols, pixel_width: 0, pixel_height: 0 };
    let pair = sys.inner.openpty(size)?;
    Ok((MasterHandle { inner: pair.master }, SlaveHandle { inner: pair.slave }))
}

/// Relies on `SlavePty::spawn_command`: launches the command described by
/// the builder with its standard streams bound to the slave side.
#[verifier::external_body]
pub(crate) fn spawn_in_slave(
    slave: &SlaveHandle,
    cmd: portable_pty::CommandBuilder,
) -> Result<ChildHandle, anyhow::Error> {
    let child = slave.inner.spawn_command(cmd)?;
    Ok(ChildHandle { inner: child })
}

/// Relies on `MasterPty::try_clone_reader`: yields a stream carrying the
/// slave side's output.
#[verifier::external_body]
pub(crate) fn clone_reader(master: &MasterHandle) -> Result<ReaderHandle, anyhow::Error> {
    let r = master.inner.try_clone_reader()?;
    Ok(ReaderHandle { inner: r })
}

/// Relies on `MasterPty::take_writer`: yields the stream feeding the
/// slave side; valid to take once per master.
#[verifier::external_body]
pub(crate) fn take_writer(master: &MasterHandle) -> Result<WriterHandle, anyhow::Error> {
    let w = master.inner.take_writer()?;
    Ok(WriterHandle { inner: w })
}

/// Relies on `std::io::Read::read`: reads at most `max` bytes; a return
/// of zero bytes means the stream ended.
#[verifier::external_body]
pub(crate) fn read_some(r: &mut ReaderHandle, max: usize) -> (o: ReadOutcome)
    requires
        max > 0,
    ensures
        match o {
            ReadOutcome::Data(d) => 0 < d@.len() <= max,
            _ => true,
        },
{
    let mut buf = vec![0u8; max];
    match r.inner.read(&mut buf) {
        Ok(0) => ReadOutcome::Eof,
        Ok(n) => {
            buf.truncate(n);
            ReadOutcome::Data(buf)
        }
        Err(_) => ReadOutcome::Failed,
    }
}

/// Relies on `std::io::Write::write_all`: on success the whole buffer was
/// handed to the stream.
#[verifier::external_body]
pub(crate) fn write_all_raw(w: &mut WriterHandle, data: &[u8]) -> Result<(), std::io::Error> {
    w.inner.write_all(data)
}

/// Relies on `std::io::Write::flush`: pushes buffered bytes through.
#[verifier::external_body]
pub(crate) fn flush_raw(w: &mut WriterHandle) -> Result<(), std::io::Error> {
    w.inner.flush()
}

/// Relies on `portable_pty::Child::wait` and `ExitStatus::exit_code`:
/// blocks until the child exits and reports its exit code, or `None` when
/// waiting itself failed.
#[verifier::external_body]
pub(crate) fn wait_child(child: &mut ChildHandle) -> Option<u32> {
    match child.inner.wait() {
        Ok(status) => Some(status.exit_code()),
        Err(_) => None,
    }
}

/// Relies on `anyhow::Error`'s display implementation: renders the error
/// as its message text.
#[verifier::external_body]
pub(crate) fn anyhow_message(e: &anyhow::Error) -> String {
    e.to_string()
}

/// Relies on `std::io::Error`'s display implementation: renders the error
/// as its message text.
#[verifier::external_body]
pub(crate) fn io_message(e: &std::io::Error) -> String {
    e.to_string()
}

} // verus!
