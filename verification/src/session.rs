//! The TLS session lifecycle.
//!
//! A session moves through `Unestablished -> Handshaking -> Established ->
//! Closed`, with a terminal `Failed` state reachable while establishing.
//! The caller performs the underlying network and crypto work between the
//! transitions recorded here; this module decides which transitions are
//! legal, gates the I/O operations on the `Established` state, and makes
//! resource release idempotent.

use vstd::prelude::*;

use crate::transfer::ReadOp;
use crate::transfer::WriteOp;

verus! {

/// Lifecycle states of a TLS session.
///
/// No transition leads from `Closed` or `Failed` back to `Established`.
#[derive(Clone, Copy, Debug, PartialEq, Eq, Structural)]
pub enum SessionState {
    Unestablished,
    Handshaking,
    Established,
    Closed,
    Failed,
}

/// A connected byte-stream socket, identified by its OS-level handle.
///
/// A `Transport` is consumed (moved) when bound into a `TlsSession`; from
/// that point the session is the sole owner of the handle and the caller
/// must not release it independently.
pub struct Transport {
    fd: i32,
}

impl View for Transport {
    type V = int;

    closed spec fn view(&self) -> int {
        self.fd as int
    }
}

impl Transport {
    /// Wraps a freshly connected socket handle.
    pub fn new(fd: i32) -> (t: Transport)
        ensures
            t@ == fd as int,
    {
        Transport { fd }
    }
}

/// The lifecycle step at which a TLS-level failure originated.
#[derive(Clone, Copy, Debug, PartialEq, Eq, Structural)]
pub enum TlsStage {
    Context,
    Bind,
    Handshake,
    Write,
    Read,
}

/// A fatal TLS-level failure: the step it happened at and an underlying
/// diagnostic code.
#[derive(Clone, Copy, Debug, PartialEq, Eq, Structural)]
pub struct TlsError {
    pub stage: TlsStage,
    pub code: u64,
}

/// An operation was invoked outside its valid lifecycle state; carries the
/// state the session was actually in.
#[derive(Clone, Copy, Debug, PartialEq, Eq, Structural)]
pub struct StateError {
    pub state: SessionState,
}

/// Ghost image of a `TlsSession`.
pub ghost struct SessionView {
    pub state: SessionState,
    pub version: Seq<char>,
    pub fd: int,
}

/// The state a session is left in by `shutdown`.
///
/// `Failed` is terminal; every other state ends up `Closed`.
pub open spec fn state_after_shutdown(s: SessionState) -> SessionState {
    if s == SessionState::Failed {
        SessionState::Failed
    } else {
        SessionState::Closed
    }
}

/// Whether `shutdown` must actually release the session's resources:
/// only an established session still owns a live crypto session and its
/// bound socket.
pub open spec fn shutdown_releases(s: SessionState) -> bool {
    s == SessionState::Established
}

/// One TLS session over one transport.
///
/// The struct records the lifecycle state, the negotiated protocol version
/// (the `"unknown"` sentinel until the handshake reports one), and the
/// socket handle once a transport has been bound.
pub struct TlsSession {
    state: SessionState,
    version: String,
    fd: i32,
}

impl View for TlsSession {
    type V = SessionView;

    closed spec fn view(&self) -> SessionView {
        SessionView { state: self.state, version: self.version@, fd: self.fd as int }
    }
}

impl TlsSession {
    /// A fresh, unestablished session: nothing bound, version unknown.
    pub fn new() -> (s: TlsSession)
        ensures
            s@.state == SessionState::Unestablished,
            s@.version == "unknown"@,
    {
        TlsSession { state: SessionState::Unestablished, version: "unknown".to_owned(), fd: -1 }
    }

    /// Binds a transport into the session and enters `Handshaking`.
    ///
    /// The transport is consumed: the session becomes the sole owner of the
    /// socket handle, which is returned so the caller can hand it to the
    /// crypto layer. From any state but `Unestablished` the call changes
    /// nothing and reports the offending state.
    pub fn begin_establish(&mut self, t: Transport) -> (r: Result<i32, StateError>)
        ensures
            old(self)@.state == SessionState::Unestablished ==> {
                &&& r == Ok::<i32, StateError>((t@) as i32)
                &&& final(self)@.state == SessionState::Handshaking
                &&& final(self)@.fd == t@
                &&& final(self)@.version == old(self)@.version
            },
            old(self)@.state != SessionState::Unestablished ==> {
                &&& r == Err::<i32, StateError>(StateError { state: old(self)@.state })
                &&& *final(self) == *old(self)
            },
    {
        match self.state {
            SessionState::Unestablished => {
                self.state = SessionState::Handshaking;
                self.fd = t.fd;
                Ok(t.fd)
            },
            _ => Err(StateError { state: self.state }),
        }
    }

    /// Records a completed handshake and enters `Established`.
    ///
    /// `version` is the protocol version the crypto layer reported, or
    /// `None` when it could not report one, in which case the session keeps
    /// the `"unknown"` sentinel rather than failing: version reporting is
    /// diagnostic, not load-bearing. From any state but `Handshaking` the
    /// call changes nothing and reports the offending state.
    pub fn establish_ok(&mut self, version: Option<String>) -> (r: Result<(), StateError>)
        ensures
            old(self)@.state == SessionState::Handshaking ==> {
                &&& r == Ok::<(), StateError>(())
                &&& final(self)@.state == SessionState::Established
                &&& final(self)@.fd == old(self)@.fd
                &&& (match version {
                    Some(v) => final(self)@.version == v@,
                    None => final(self)@.version == "unknown"@,
                })
            },
            old(self)@.state != SessionState::Handshaking ==> {
                &&& r == Err::<(), StateError>(StateError { state: old(self)@.state })
                &&& *final(self) == *old(self)
            },
    {
        match self.state {
            SessionState::Handshaking => {
                self.state = SessionState::Established;
                match version {
                    Some(v) => {
                        self.version = v;
                    },
                    None => {
                        self.version = "unknown".to_owned();
                    },
                }
                Ok(())
            },
            _ => Err(StateError { state: self.state }),
        }
    }

    /// Records a failed establishment step and enters the terminal `Failed`
    /// state, returning the `TlsError` to report.
    ///
    /// The caller releases whatever partial resources the failed step had
    /// acquired before or while calling this; a failed session never owns
    /// anything that `shutdown` would have to release again. Establishment
    /// can fail at context creation, at the bind of the transport, or during
    /// the handshake itself. From any state but `Unestablished` or
    /// `Handshaking` the call changes nothing and reports the offending
    /// state.
    pub fn fail_establish(&mut self, stage: TlsStage, code: u64) -> (r: Result<TlsError, StateError>)
        requires
            stage == TlsStage::Context || stage == TlsStage::Bind || stage == TlsStage::Handshake,
        ensures
            (old(self)@.state == SessionState::Unestablished || old(self)@.state
                == SessionState::Handshaking) ==> {
                &&& r == Ok::<TlsError, StateError>(TlsError { stage, code })
                &&& final(self)@.state == SessionState::Failed
                &&& final(self)@.version == old(self)@.version
            },
            !(old(self)@.state == SessionState::Unestablished || old(self)@.state
                == SessionState::Handshaking) ==> {
                &&& r == Err::<TlsError, StateError>(StateError { state: old(self)@.state })
                &&& *final(self) == *old(self)
            },
    {
        match self.state {
            SessionState::Unestablished | SessionState::Handshaking => {
                self.state = SessionState::Failed;
                Ok(TlsError { stage, code })
            },
            _ => Err(StateError { state: self.state }),
        }
    }

    /// The protocol version agreed during the handshake, or the `"unknown"`
    /// sentinel when none was negotiated or reported.
    pub fn negotiated_version(&self) -> (r: &String)
        ensures
            r@ == self@.version,
    {
        &self.version
    }

    /// The current lifecycle state.
    pub fn state(&self) -> (r: SessionState)
        ensures
            r == self@.state,
    {
        self.state
    }

    /// Starts a full write of a buffer of `len` bytes.
    ///
    /// Valid only in `Established`: in any other state no operation record
    /// is produced, the offending state is reported, and consequently no
    /// underlying write can take place.
    pub fn begin_write(&self, len: usize) -> (r: Result<WriteOp, StateError>)
        ensures
            self@.state == SessionState::Established ==> (r matches Ok(op) && op@.total
                == len as int && op@.remaining == len as int),
            self@.state != SessionState::Established ==> r == Err::<WriteOp, StateError>(
                StateError { state: self@.state },
            ),
    {
        match self.state {
            SessionState::Established => Ok(WriteOp::begin(len)),
            _ => Err(StateError { state: self.state }),
        }
    }

    /// Starts a bounded read of the response, capped at `max` bytes.
    ///
    /// Valid only in `Established`: in any other state no operation record
    /// is produced, the offending state is reported, and consequently no
    /// underlying read can take place.
    pub fn begin_read(&self, max: usize) -> (r: Result<ReadOp, StateError>)
        ensures
            self@.state == SessionState::Established ==> (r matches Ok(op) && op@.room
                == max as int && op@.data == Seq::<u8>::empty() && !op@.done),
            self@.state != SessionState::Established ==> r == Err::<ReadOp, StateError>(
                StateError { state: self@.state },
            ),
    {
        match self.state {
            SessionState::Established => Ok(ReadOp::begin(max)),
            _ => Err(StateError { state: self.state }),
        }
    }

    /// Releases the session and, transitively, its bound socket.
    ///
    /// Idempotent: the returned flag tells the caller whether resources must
    /// actually be released now, and it is `true` only on the first call on
    /// an established session — a second call is a no-op and never asks for
    /// a second release of the same socket.
    pub fn shutdown(&mut self) -> (release: bool)
        ensures
            final(self)@.state == state_after_shutdown(old(self)@.state),
            release == shutdown_releases(old(self)@.state),
            final(self)@.version == old(self)@.version,
            final(self)@.fd == old(self)@.fd,
    {
        match self.state {
            SessionState::Established => {
                self.state = SessionState::Closed;
                true
            },
            SessionState::Failed => false,
            _ => {
                self.state = SessionState::Closed;
                false
            },
        }
    }
}

/// Law: `shutdown` is idempotent. After one `shutdown`, a second one never
/// releases anything and leaves the lifecycle state exactly where the first
/// one left it, whatever state the session started in.
pub proof fn lemma_shutdown_idempotent(s: SessionState)
    ensures
        !shutdown_releases(state_after_shutdown(s)),
        state_after_shutdown(state_after_shutdown(s)) == state_after_shutdown(s),
{
}

} // verus!
