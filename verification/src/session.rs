//! The echo handler for one accepted connection.
//!
//! An [`EchoSession`] tracks the handling of a single connection: the phase
//! it is in, the number of bytes echoed so far, and (in ghost state) the
//! bytes received from the peer and the bytes written back. The surrounding
//! process performs the socket calls and reports each outcome as an event;
//! the session decides what to do with it and returns the action to perform.
//!
//! The central guarantee is that the bytes written back are exactly the
//! bytes received, in order, however the peer splits them across writes.

use vstd::prelude::*;

use crate::error::ServerError;
use crate::lifecycle::ConnPhase;
use crate::lifecycle::phase_steps_to;

verus! {

/// The outcome of one read from the connection, reported by the caller.
#[derive(Debug)]
pub enum ReadEvent {
    /// The read returned these bytes.
    Data(Vec<u8>),
    /// The read returned zero bytes: the peer closed the stream cleanly.
    Eof,
    /// The read failed.
    Error,
}

/// What the caller must do next with the connection.
#[derive(Debug, PartialEq)]
pub enum EchoAction {
    /// Write these bytes back to the peer, before reading again.
    Write(Vec<u8>),
    /// The stream ended cleanly; log this total byte count and release
    /// the connection.
    FinishClean(u64),
    /// Echoing failed; log this error and release the connection.
    Fail(ServerError),
}

/// The abstract state of one connection's handling: its phase, the bytes
/// the peer has sent, and the bytes written back to it.
pub ghost struct SessionModel {
    pub phase: ConnPhase,
    pub received: Seq<u8>,
    pub echoed: Seq<u8>,
}

impl SessionModel {
    /// The bytes written back never differ from the bytes received, and no
    /// byte arrives before the handler reaches its echo loop.
    pub open spec fn wf(self) -> bool {
        &&& self.echoed == self.received
        &&& (self.phase is Accepted || self.phase is Duplicating) ==> self.received.len() == 0
    }
}

/// The model's step for a read that returned data: the same bytes are
/// appended to both sides of the stream and the session keeps echoing.
pub open spec fn model_on_data(m: SessionModel, d: Seq<u8>) -> SessionModel {
    SessionModel { phase: ConnPhase::Echoing, received: m.received + d, echoed: m.echoed + d }
}

/// The model's step for a clean end of stream.
pub open spec fn model_on_eof(m: SessionModel) -> SessionModel {
    SessionModel { phase: ConnPhase::Closed, ..m }
}

/// The model's step for a failed read or write.
pub open spec fn model_on_error(m: SessionModel) -> SessionModel {
    SessionModel { phase: ConnPhase::Failed, ..m }
}

/// The abstract state of a session whose echo loop is about to start:
/// nothing received, nothing echoed.
pub open spec fn model_ready() -> SessionModel {
    SessionModel { phase: ConnPhase::Echoing, received: Seq::empty(), echoed: Seq::empty() }
}

/// The whole stream a peer sends when it delivers these chunks in order.
pub open spec fn stream_of(chunks: Seq<Seq<u8>>) -> Seq<u8>
    decreases chunks.len(),
{
    if chunks.len() == 0 {
        Seq::empty()
    } else {
        chunks[0] + stream_of(chunks.drop_first())
    }
}

/// The abstract state a session reaches after echoing these chunks of data,
/// one read at a time, in order.
pub open spec fn model_after_chunks(m: SessionModel, chunks: Seq<Seq<u8>>) -> SessionModel
    decreases chunks.len(),
{
    if chunks.len() == 0 {
        m
    } else {
        model_after_chunks(model_on_data(m, chunks[0]), chunks.drop_first())
    }
}

/// Data sent in separate writes is echoed preserving overall byte order:
/// however a stream is split into chunks, echoing them one read at a time
/// appends exactly the concatenated stream — nothing reordered, nothing
/// duplicated, nothing dropped — and the session keeps echoing.
pub proof fn lemma_echo_preserves_stream(m: SessionModel, chunks: Seq<Seq<u8>>)
    requires
        m.wf(),
        m.phase is Echoing,
    ensures
        model_after_chunks(m, chunks).wf(),
        model_after_chunks(m, chunks).phase is Echoing,
        model_after_chunks(m, chunks).received == m.received + stream_of(chunks),
        model_after_chunks(m, chunks).echoed == m.echoed + stream_of(chunks),
    decreases chunks.len(),
{
    if chunks.len() == 0 {
        assert(m.received + stream_of(chunks) =~= m.received);
        assert(m.echoed + stream_of(chunks) =~= m.echoed);
    } else {
        let stepped = model_on_data(m, chunks[0]);
        lemma_echo_preserves_stream(stepped, chunks.drop_first());
        assert((m.received + chunks[0]) + stream_of(chunks.drop_first())
            =~= m.received + stream_of(chunks));
        assert((m.echoed + chunks[0]) + stream_of(chunks.drop_first())
            =~= m.echoed + stream_of(chunks));
    }
}

/// Every byte sequence a peer sends — empty included, and however it is
/// split across writes — followed by a clean close comes back exactly and
/// in order, and the clean close reports the full stream's length.
pub proof fn lemma_round_trip(chunks: Seq<Seq<u8>>)
    ensures
        model_after_chunks(model_ready(), chunks).echoed == stream_of(chunks),
        model_after_chunks(model_ready(), chunks).received == stream_of(chunks),
        model_on_eof(model_after_chunks(model_ready(), chunks)).phase is Closed,
        model_on_eof(model_after_chunks(model_ready(), chunks)).echoed == stream_of(chunks),
{
    lemma_echo_preserves_stream(model_ready(), chunks);
    assert(Seq::<u8>::empty() + stream_of(chunks) =~= stream_of(chunks));
}

/// The handling of one accepted connection.
pub struct EchoSession {
    /// Where in its lifecycle this connection's handling is.
    pub phase: ConnPhase,
    /// How many bytes have been echoed so far.
    pub bytes_echoed: u64,
    /// The bytes the peer has sent on this connection.
    pub received: Ghost<Seq<u8>>,
    /// The bytes written back to the peer on this connection.
    pub echoed: Ghost<Seq<u8>>,
}

impl EchoSession {
    /// The abstract state this session is in.
    pub open spec fn model(self) -> SessionModel {
        SessionModel { phase: self.phase, received: self.received@, echoed: self.echoed@ }
    }

    /// The byte counter agrees with the stream, and the stream is echoed
    /// exactly.
    pub open spec fn wf(self) -> bool {
        &&& self.model().wf()
        &&& self.bytes_echoed == self.received@.len()
    }

    /// Start handling a newly accepted connection: nothing has been read,
    /// nothing echoed.
    pub fn accept() -> (s: EchoSession)
        ensures
            s.wf(),
            s.phase is Accepted,
            s.bytes_echoed == 0,
            s.received@ == Seq::<u8>::empty(),
            s.echoed@ == Seq::<u8>::empty(),
    {
        EchoSession {
            phase: ConnPhase::Accepted,
            bytes_echoed: 0,
            received: Ghost(Seq::empty()),
            echoed: Ghost(Seq::empty()),
        }
    }

    /// Record that the handler is about to duplicate the connection handle
    /// into its read and write sides.
    pub fn begin_duplicate(&mut self)
        requires
            old(self).wf(),
            old(self).phase is Accepted,
        ensures
            final(self).wf(),
            phase_steps_to(old(self).phase, final(self).phase),
            final(self).phase is Duplicating,
            final(self).bytes_echoed == old(self).bytes_echoed,
            final(self).received@ == old(self).received@,
            final(self).echoed@ == old(self).echoed@,
    {
        self.phase = ConnPhase::Duplicating;
    }

    /// Record whether duplicating the connection handle succeeded. On
    /// failure the connection is abandoned without echoing and the caller
    /// gets the error to log; on success the echo loop may begin.
    pub fn on_duplicate_result(&mut self, ok: bool) -> (r: Result<(), ServerError>)
        requires
            old(self).wf(),
            old(self).phase is Duplicating,
        ensures
            final(self).wf(),
            phase_steps_to(old(self).phase, final(self).phase),
            ok ==> r == Ok::<(), ServerError>(()) && final(self).phase is Echoing,
            !ok ==> r == Err::<(), ServerError>(ServerError::ConnectionClone)
                && final(self).phase is Failed,
            final(self).bytes_echoed == old(self).bytes_echoed,
            final(self).received@ == old(self).received@,
            final(self).echoed@ == old(self).echoed@,
    {
        if ok {
            self.phase = ConnPhase::Echoing;
            Ok(())
        } else {
            self.phase = ConnPhase::Failed;
            Err(ServerError::ConnectionClone)
        }
    }

    /// Take one step of the echo loop, given the outcome of one read.
    ///
    /// Data is echoed back unchanged and in order; a clean end of stream
    /// closes the session and reports the total byte count; a failed read
    /// ends the session with the I/O error to log.
    pub fn on_read(&mut self, event: ReadEvent) -> (action: EchoAction)
        requires
            old(self).wf(),
            old(self).phase is Echoing,
            event matches ReadEvent::Data(d) ==> old(self).bytes_echoed + d@.len() <= u64::MAX,
        ensures
            final(self).wf(),
            phase_steps_to(old(self).phase, final(self).phase),
            event matches ReadEvent::Data(d) ==> {
                &&& final(self).model() == model_on_data(old(self).model(), d@)
                &&& final(self).bytes_echoed == old(self).bytes_echoed + d@.len()
                &&& action == EchoAction::Write(d)
            },
            event is Eof ==> {
                &&& final(self).model() == model_on_eof(old(self).model())
                &&& final(self).bytes_echoed == old(self).bytes_echoed
                &&& action == EchoAction::FinishClean(old(self).bytes_echoed)
            },
            event is Error ==> {
                &&& final(self).model() == model_on_error(old(self).model())
                &&& final(self).bytes_echoed == old(self).bytes_echoed
                &&& action == EchoAction::Fail(ServerError::EchoIo)
            },
    {
        match event {
            ReadEvent::Data(d) => {
                self.bytes_echoed = self.bytes_echoed + d.len() as u64;
                proof {
                    self.received@ = self.received@ + d@;
                    self.echoed@ = self.echoed@ + d@;
                }
                EchoAction::Write(d)
            }
            ReadEvent::Eof => {
                self.phase = ConnPhase::Closed;
                EchoAction::FinishClean(self.bytes_echoed)
            }
            ReadEvent::Error => {
                self.phase = ConnPhase::Failed;
                EchoAction::Fail(ServerError::EchoIo)
            }
        }
    }
}

} // verus!
