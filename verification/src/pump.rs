//! The connection pump.
//!
//! Once a session holds both streams, bytes are copied concurrently in both
//! directions until either direction observes end-of-stream or an I/O error.
//! The pump is a transparent relay: it frames nothing, inspects nothing, and
//! hands every chunk on unchanged, so each receiver sees exactly the byte
//! sequence its peer sent, in order. A shutdown observed in either direction
//! stops the whole pump — no half-duplex lingering.
//!
//! The state here is the model the binary drives: it reads a chunk from one
//! stream, passes it through [`PumpState::forward`], and writes the returned
//! bytes to the other stream; on end-of-stream or a read/write error it calls
//! [`PumpState::close`] and releases both streams.

use vstd::prelude::*;
use crate::ProxyError;

verus! {

/// One of the two copy directions of a session.
#[derive(Clone, Copy, Debug, PartialEq, Eq, Structural)]
pub enum Direction {
    /// Bytes the client sent, on their way to the backend.
    ClientToBackend,
    /// Bytes the backend sent, on their way to the client.
    BackendToClient,
}

/// Why a direction stopped: its stream ended, or reading or writing failed.
#[derive(Clone, Copy, Debug, PartialEq, Eq, Structural)]
pub enum ShutdownCause {
    EndOfStream,
    IoError,
}

/// The pump of one session: a single running flag shared by both directions,
/// and per-direction transcripts of every byte forwarded so far.
pub struct PumpState {
    /// Both directions copy while this holds; a shutdown in either clears it.
    pub running: bool,
    /// All bytes forwarded client-to-backend, in order.
    pub to_backend: Ghost<Seq<u8>>,
    /// All bytes forwarded backend-to-client, in order.
    pub to_client: Ghost<Seq<u8>>,
}

impl PumpState {
    /// The bytes forwarded in one direction so far, in order.
    pub open spec fn transcript(&self, dir: Direction) -> Seq<u8> {
        match dir {
            Direction::ClientToBackend => self.to_backend@,
            Direction::BackendToClient => self.to_client@,
        }
    }

    /// A pump that has forwarded nothing yet, both directions running.
    pub fn start() -> (s: PumpState)
        ensures
            s.running,
            s.transcript(Direction::ClientToBackend) == Seq::<u8>::empty(),
            s.transcript(Direction::BackendToClient) == Seq::<u8>::empty(),
    {
        PumpState {
            running: true,
            to_backend: Ghost(Seq::empty()),
            to_client: Ghost(Seq::empty()),
        }
    }

    /// Forwards one chunk read in `dir`: the bytes to write to the other
    /// stream are exactly the bytes read, and the direction's transcript
    /// grows by them while the opposite transcript is untouched.
    pub fn forward(&mut self, dir: Direction, data: Vec<u8>) -> (out: Vec<u8>)
        requires
            old(self).running,
        ensures
            final(self).running,
            out@ == data@,
            final(self).transcript(dir) == old(self).transcript(dir) + data@,
            final(self).transcript(opposite(dir)) == old(self).transcript(opposite(dir)),
    {
        match dir {
            Direction::ClientToBackend => {
                self.to_backend = Ghost(self.to_backend@ + data@);
            },
            Direction::BackendToClient => {
                self.to_client = Ghost(self.to_client@ + data@);
            },
        }
        data
    }

    /// Stops the pump after a shutdown observed in either direction: both
    /// directions stop (no further forward step is enabled), the transcripts
    /// are frozen, and only an I/O failure counts as a relay error — a
    /// natural end-of-stream ends the session successfully either way.
    pub fn close(&mut self, dir: Direction, cause: ShutdownCause) -> (r: Option<ProxyError>)
        ensures
            !final(self).running,
            final(self).to_backend@ == old(self).to_backend@,
            final(self).to_client@ == old(self).to_client@,
            r == (if cause is IoError {
                Some(ProxyError::Relay)
            } else {
                None::<ProxyError>
            }),
    {
        self.running = false;
        match cause {
            ShutdownCause::EndOfStream => None,
            ShutdownCause::IoError => Some(ProxyError::Relay),
        }
    }
}

/// The other direction of a pump.
pub open spec fn opposite(dir: Direction) -> Direction {
    match dir {
        Direction::ClientToBackend => Direction::BackendToClient,
        Direction::BackendToClient => Direction::ClientToBackend,
    }
}

/// A direction's transcript after forwarding `chunks` one by one, starting
/// from `initial`: each forward step appends its chunk, as
/// [`PumpState::forward`] ensures.
pub open spec fn transcript_after(initial: Seq<u8>, chunks: Seq<Seq<u8>>) -> Seq<u8>
    decreases chunks.len(),
{
    if chunks.len() == 0 {
        initial
    } else {
        transcript_after(initial + chunks[0], chunks.skip(1))
    }
}

/// Law (transparency): whatever chunks a peer's stream delivers, forwarding
/// them one by one hands the receiving stream exactly their concatenation —
/// every byte, unchanged, in order — after any bytes already forwarded.
pub proof fn lemma_transparency(initial: Seq<u8>, chunks: Seq<Seq<u8>>)
    ensures
        transcript_after(initial, chunks) == initial + chunks.flatten(),
    decreases chunks.len(),
{
    if chunks.len() == 0 {
        assert(chunks.flatten() == Seq::<u8>::empty());
        assert(initial + Seq::<u8>::empty() =~= initial);
    } else {
        lemma_transparency(initial + chunks[0], chunks.skip(1));
        assert(chunks.drop_first() =~= chunks.skip(1));
        assert(chunks.flatten() == chunks[0] + chunks.skip(1).flatten());
        assert(initial + chunks[0] + chunks.skip(1).flatten() =~= initial + chunks.flatten());
    }
}

} // verus!
