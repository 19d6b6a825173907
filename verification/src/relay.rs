//! The output relay: drains the master's output side and forwards every
//! chunk, byte for byte and in order, to the caller's event channel.
//!
//! The relay owns no thread of its own: the caller runs [`run_relay`] on
//! whatever execution context it likes, hands in the reader obtained from
//! [`start`](crate::session::start) and a sink over the channel it drains.

use vstd::prelude::*;
use crate::pty::ChildHandle;
use crate::pty::ReadOutcome;
use crate::pty::ReaderHandle;
use crate::pty::read_some;
use crate::pty::wait_child;
use crate::CHUNK_SIZE;

verus! {

#[verifier::external_type_specification]
#[verifier::external_body]
#[verifier::reject_recursive_types(T)]
pub struct ExSender<T>(std::sync::mpsc::Sender<T>);

/// Relies on `std::sync::mpsc::Sender::send`: hands the value to the
/// channel; it fails only when the receiving half is gone, and the value
/// is then dropped.
#[verifier::external_body]
pub(crate) fn send_chunk(tx: &std::sync::mpsc::Sender<Vec<u8>>, data: Vec<u8>) -> bool {
    tx.send(data).is_ok()
}

/// The master's output side, together with the history of what has been
/// read from it.
pub struct OutputReader {
    handle: ReaderHandle,
    log: Ghost<Seq<Seq<u8>>>,
    done: Ghost<bool>,
}

impl OutputReader {
    /// The non-empty chunks read so far, in the order they arrived.
    pub closed spec fn chunks(self) -> Seq<Seq<u8>> {
        self.log@
    }

    /// Whether end of stream, or a read error, has been observed; the
    /// two are treated alike.
    pub closed spec fn ended(self) -> bool {
        self.done@
    }

    /// Wraps a fresh readable handle with an empty history.
    pub(crate) fn new(handle: ReaderHandle) -> (r: OutputReader)
        ensures
            r.chunks() == Seq::<Seq<u8>>::empty(),
            !r.ended(),
    {
        OutputReader { handle, log: Ghost(Seq::empty()), done: Ghost(false) }
    }

    /// Reads the next chunk, up to [`CHUNK_SIZE`] bytes. A data chunk is
    /// recorded exactly as it arrived; end of stream and read errors
    /// mark the reader ended and record nothing.
    pub fn next_chunk(&mut self) -> (o: ReadOutcome)
        ensures
            match o {
                ReadOutcome::Data(d) => {
                    &&& 0 < d@.len() <= CHUNK_SIZE
                    &&& final(self).chunks() == old(self).chunks().push(d@)
                    &&& final(self).ended() == old(self).ended()
                },
                _ => {
                    &&& final(self).chunks() == old(self).chunks()
                    &&& final(self).ended()
                },
            },
    {
        let o = read_some(&mut self.handle, CHUNK_SIZE);
        match &o {
            ReadOutcome::Data(d) => {
                self.log = Ghost(self.log@.push(d@));
            }
            _ => {
                self.done = Ghost(true);
            }
        }
        o
    }
}

/// The caller's end of the output event stream, together with the
/// history of the chunks handed to it.
///
/// A chunk counts as forwarded once it is handed to the channel; a
/// caller that has dropped the receiving side misses it silently, as a
/// caller that has gone away must.
pub struct EventSink {
    tx: std::sync::mpsc::Sender<Vec<u8>>,
    history: Ghost<Seq<Seq<u8>>>,
}

impl EventSink {
    /// The chunks handed to the channel so far, in order.
    pub closed spec fn forwarded(self) -> Seq<Seq<u8>> {
        self.history@
    }

    /// Wraps the sending half of the channel the caller drains.
    pub fn new(tx: std::sync::mpsc::Sender<Vec<u8>>) -> (s: EventSink)
        ensures
            s.forwarded() == Seq::<Seq<u8>>::empty(),
    {
        EventSink { tx, history: Ghost(Seq::empty()) }
    }

    /// Hands one chunk to the channel, unchanged.
    pub fn forward(&mut self, data: Vec<u8>)
        ensures
            final(self).forwarded() == old(self).forwarded().push(data@),
    {
        let ghost dv = data@;
        let _delivered = send_chunk(&self.tx, data);
        self.history = Ghost(self.history@.push(dv));
    }
}

/// How a call of [`run_relay`] came to return.
pub enum RelayEnd {
    /// The stream ended (end of stream or a read error); the child was
    /// reaped, and its exit code reported when one could be had.
    Ended(Option<u32>),
    /// The cap on reads for this call was reached before the stream
    /// ended; the child runs on, and the relay may be called again.
    CapReached,
}

/// Drains the reader until end of stream or a read error, forwarding
/// every chunk to the sink in the order read and byte for byte; once the
/// stream has ended it reaps the child. A cap bounds the reads made in
/// one call; a driver that wants the relay to run for the whole session
/// passes the largest cap it has.
///
/// The contract is the relay's ordering law: the chunks forwarded during
/// the call are exactly the chunks read during the call, in order, with
/// nothing dropped, reordered or altered; and, short of the cap, the
/// relay returns only once the stream has ended, after which it forwards
/// nothing further.
pub fn run_relay(
    reader: &mut OutputReader,
    sink: &mut EventSink,
    child: &mut ChildHandle,
    max_reads: usize,
) -> (end: RelayEnd)
    ensures
        old(reader).chunks().len() <= final(reader).chunks().len(),
        final(reader).chunks().len() <= old(reader).chunks().len() + max_reads,
        final(reader).chunks().take(old(reader).chunks().len() as int)
            == old(reader).chunks(),
        final(sink).forwarded() == old(sink).forwarded()
            + final(reader).chunks().skip(old(reader).chunks().len() as int),
        end is Ended ==> final(reader).ended(),
        end is CapReached
            ==> final(reader).chunks().len() == old(reader).chunks().len() + max_reads,
{
    let ghost seen0 = reader.chunks();
    let ghost fwd0 = sink.forwarded();
    let mut remaining: usize = max_reads;
    let mut going: bool = true;
    while going && remaining > 0
        invariant
            remaining <= max_reads,
            seen0.len() <= reader.chunks().len(),
            reader.chunks().len() <= seen0.len() + (max_reads - remaining),
            going ==> reader.chunks().len() == seen0.len() + (max_reads - remaining),
            reader.chunks().take(seen0.len() as int) == seen0,
            sink.forwarded() == fwd0 + reader.chunks().skip(seen0.len() as int),
            !going ==> reader.ended(),
        decreases remaining,
    {
        remaining = remaining - 1;
        let ghost pre_seen = reader.chunks();
        match reader.next_chunk() {
            ReadOutcome::Data(d) => {
                let ghost dv = d@;
                sink.forward(d);
                proof {
                    assert(reader.chunks().take(seen0.len() as int) =~= seen0);
                    assert(reader.chunks().skip(seen0.len() as int)
                        =~= pre_seen.skip(seen0.len() as int).push(dv));
                    assert(sink.forwarded() =~= fwd0 + reader.chunks().skip(seen0.len() as int));
                }
            }
            _ => {
                going = false;
            }
        }
    }
    if going {
        RelayEnd::CapReached
    } else {
        RelayEnd::Ended(wait_child(child))
    }
}

} // verus!
