//! Transports and listeners: sessions and listening sockets as a reactor
//! sees them, driven by readiness events.

use vstd::prelude::*;
use crate::connection::{NetConnection, NetListener, SocketConfig};
use crate::error::{ErrorKind, IoError, SessionError};
use crate::noise::PeerAddr;
use crate::session::NetSession;

verus! {

/// How many bytes one readiness event takes off a session at most.
pub const READ_BUFFER_SIZE: usize = 65535;

/// How long a read on a socket may wait, in seconds.
pub const READ_TIMEOUT: u64 = 6;

/// How long a write on a socket may wait, in seconds.
pub const WRITE_TIMEOUT: u64 = 3;

/// The socket settings that transports and listeners put in force.
pub open spec fn wire_config() -> SocketConfig {
    SocketConfig {
        read_timeout: Some(READ_TIMEOUT),
        write_timeout: Some(WRITE_TIMEOUT),
        nonblocking: true,
    }
}

/// What a resource is ready for.
#[derive(Clone, Copy, PartialEq, Eq, Hash, Debug, Structural)]
pub enum Io {
    /// There is something to read, or a connection to accept.
    Read,
    /// There is room to write.
    Write,
}

/// What a transport tells its owner.
pub enum SessionEvent<S: NetSession> {
    /// The handshake is complete; the peer has this identity.
    Established(S::Id),
    /// The peer sent these bytes.
    Data(Vec<u8>),
    /// The session is over, for this reason.
    Terminated(IoError),
}

/// Where a transport is in its life.
#[derive(Clone, Copy, Ord, PartialOrd, PartialEq, Eq, Hash, Debug, Structural)]
pub enum TransportState {
    Handshake,
    Active,
    Terminated,
}

/// A session as a reactor sees it.
pub struct NetTransport<S: NetSession> {
    state: TransportState,
    session: S,
    inbound: bool,
}

impl<S: NetSession> NetTransport<S> {
    /// The state of the transport.
    pub closed spec fn spec_state(&self) -> TransportState {
        self.state
    }

    /// The session that the transport drives.
    pub closed spec fn session(&self) -> S {
        self.session
    }

    /// The session that the transport drives.
    pub fn as_session(&self) -> (session: &S)
        ensures
            *session == self.session(),
    {
        &self.session
    }

    /// Whether the remote side opened the connection.
    pub closed spec fn spec_inbound(&self) -> bool {
        self.inbound
    }

    /// The invariant of a transport: its session is sound, and an active
    /// transport has a session whose handshake is complete.
    pub open spec fn wf(&self) -> bool {
        &&& self.session().wf()
        &&& self.state() == TransportState::Active ==> self.session().established()
    }

    /// What a transport in `state` does when the read on its session came to
    /// `outcome`, where `completed` is the peer's identity if the handshake
    /// is complete after that read: the next state and the event to emit.
    pub open spec fn read_step(
        state: TransportState,
        outcome: Result<Vec<u8>, IoError>,
        completed: Option<S::Id>,
    ) -> (TransportState, Option<SessionEvent<S>>) {
        match (state, outcome) {
            (TransportState::Terminated, _) => (TransportState::Terminated, None),
            (_, Err(err)) => if err.kind == ErrorKind::WouldBlock {
                (state, None)
            } else {
                (TransportState::Terminated, Some(SessionEvent::Terminated(err)))
            },
            (TransportState::Handshake, Ok(data)) => if data@.len() > 0 {
                (
                    TransportState::Terminated,
                    Some(SessionEvent::Terminated(IoError { kind: ErrorKind::InvalidData, code: None })),
                )
            } else {
                match completed {
                    Some(id) => (TransportState::Active, Some(SessionEvent::Established(id))),
                    None => (TransportState::Handshake, None),
                }
            },
            (TransportState::Active, Ok(data)) => if data@.len() > 0 {
                (TransportState::Active, Some(SessionEvent::Data(data)))
            } else {
                (
                    TransportState::Terminated,
                    Some(SessionEvent::Terminated(IoError { kind: ErrorKind::Interrupted, code: None })),
                )
            },
        }
    }

    /// What a transport in `state` does when flushing its session came to
    /// `outcome`: the next state and the event to emit.
    pub open spec fn flush_step(state: TransportState, outcome: Result<(), IoError>) -> (
        TransportState,
        Option<SessionEvent<S>>,
    ) {
        match (state, outcome) {
            (TransportState::Terminated, _) => (TransportState::Terminated, None),
            (_, Ok(_)) => (state, None),
            (_, Err(err)) => if err.kind == ErrorKind::WouldBlock {
                (state, None)
            } else {
                (TransportState::Terminated, Some(SessionEvent::Terminated(err)))
            },
        }
    }

    /// How far a transport is in its life.
    pub open spec fn rank(state: TransportState) -> nat {
        match state {
            TransportState::Handshake => 0,
            TransportState::Active => 1,
            TransportState::Terminated => 2,
        }
    }

    /// A read that yields nothing while the handshake is under way changes
    /// nothing and emits nothing as long as the handshake is not complete.
    /// Once it is complete, the transport becomes active and reports the
    /// identity of the peer.
    pub proof fn lemma_read_during_handshake(data: Vec<u8>, id: S::Id)
        requires
            data@.len() == 0,
        ensures
            Self::read_step(TransportState::Handshake, Ok(data), None) == (
                TransportState::Handshake,
                None::<SessionEvent<S>>,
            ),
            Self::read_step(TransportState::Handshake, Ok(data), Some(id)) == (
                TransportState::Active,
                Some(SessionEvent::<S>::Established(id)),
            ),
    {
    }

    /// A read of an active transport that yields nothing means that the peer
    /// has shut the connection down: the transport terminates and says so.
    /// A read that yields bytes hands them on, and the transport stays
    /// active.
    pub proof fn lemma_read_when_active(data: Vec<u8>, completed: Option<S::Id>)
        ensures
            data@.len() == 0 ==> Self::read_step(TransportState::Active, Ok(data), completed) == (
                TransportState::Terminated,
                Some(
                    SessionEvent::<S>::Terminated(
                        IoError { kind: ErrorKind::Interrupted, code: None },
                    ),
                ),
            ),
            data@.len() > 0 ==> Self::read_step(TransportState::Active, Ok(data), completed) == (
                TransportState::Active,
                Some(SessionEvent::<S>::Data(data)),
            ),
    {
    }

    /// A failed read or flush terminates a transport that is not terminated
    /// yet, and the transport reports the failure, unless the failure only
    /// says that there was nothing to do right now: then nothing changes and
    /// nothing is emitted.
    pub proof fn lemma_failure(state: TransportState, err: IoError, completed: Option<S::Id>)
        requires
            state != TransportState::Terminated,
        ensures
            err.kind != ErrorKind::WouldBlock ==> Self::read_step(state, Err(err), completed) == (
                TransportState::Terminated,
                Some(SessionEvent::<S>::Terminated(err)),
            ) && Self::flush_step(state, Err(err)) == (
                TransportState::Terminated,
                Some(SessionEvent::<S>::Terminated(err)),
            ),
            err.kind == ErrorKind::WouldBlock ==> Self::read_step(state, Err(err), completed) == (
                state,
                None::<SessionEvent<S>>,
            ) && Self::flush_step(state, Err(err)) == (state, None::<SessionEvent<S>>),
    {
    }

    /// A terminated transport stays terminated and emits nothing, whatever
    /// happens.
    pub proof fn lemma_terminated_is_final(
        read: Result<Vec<u8>, IoError>,
        completed: Option<S::Id>,
        flushed: Result<(), IoError>,
    )
        ensures
            Self::read_step(TransportState::Terminated, read, completed) == (
                TransportState::Terminated,
                None::<SessionEvent<S>>,
            ),
            Self::flush_step(TransportState::Terminated, flushed) == (
                TransportState::Terminated,
                None::<SessionEvent<S>>,
            ),
    {
    }

    /// A transport never goes back in its life. It reports the handshake
    /// only on leaving it, and it reports termination exactly on
    /// terminating; data comes from an active transport only, and leaves it
    /// active.
    pub proof fn lemma_one_way(
        state: TransportState,
        read: Result<Vec<u8>, IoError>,
        completed: Option<S::Id>,
        flushed: Result<(), IoError>,
    )
        ensures
            Self::rank(state) <= Self::rank(Self::read_step(state, read, completed).0),
            Self::rank(state) <= Self::rank(Self::flush_step(state, flushed).0),
            Self::read_step(state, read, completed).1 matches Some(SessionEvent::Established(_))
                ==> state == TransportState::Handshake && Self::read_step(state, read, completed).0
                == TransportState::Active,
            Self::read_step(state, read, completed).1 matches Some(SessionEvent::Data(_)) ==> state
                == TransportState::Active && Self::read_step(state, read, completed).0
                == TransportState::Active,
            Self::read_step(state, read, completed).1 matches Some(SessionEvent::Terminated(_))
                <==> state != TransportState::Terminated && Self::read_step(state, read, completed).0
                == TransportState::Terminated,
            Self::flush_step(state, flushed).1 matches Some(SessionEvent::Terminated(_)) <==> state
                != TransportState::Terminated && Self::flush_step(state, flushed).0
                == TransportState::Terminated,
            Self::flush_step(state, flushed).1 is None || Self::flush_step(state, flushed).1 matches Some(
                SessionEvent::Terminated(_),
            ),
    {
    }

    /// Decides what follows from one read on the session.
    pub fn on_read(
        state: TransportState,
        outcome: Result<Vec<u8>, IoError>,
        completed: Option<S::Id>,
    ) -> (r: (TransportState, Option<SessionEvent<S>>))
        ensures
            r == Self::read_step(state, outcome, completed),
    {
        match state {
            TransportState::Terminated => (TransportState::Terminated, None),
            TransportState::Handshake => match outcome {
                Err(err) => if err.would_block() {
                    (state, None)
                } else {
                    (TransportState::Terminated, Some(SessionEvent::Terminated(err)))
                },
                Ok(data) => if data.len() > 0 {
                    (
                        TransportState::Terminated,
                        Some(SessionEvent::Terminated(IoError::from_kind(ErrorKind::InvalidData))),
                    )
                } else {
                    match completed {
                        Some(id) => (TransportState::Active, Some(SessionEvent::Established(id))),
                        None => (TransportState::Handshake, None),
                    }
                },
            },
            TransportState::Active => match outcome {
                Err(err) => if err.would_block() {
                    (state, None)
                } else {
                    (TransportState::Terminated, Some(SessionEvent::Terminated(err)))
                },
                Ok(data) => if data.len() > 0 {
                    (TransportState::Active, Some(SessionEvent::Data(data)))
                } else {
                    (
                        TransportState::Terminated,
                        Some(SessionEvent::Terminated(IoError::from_kind(ErrorKind::Interrupted))),
                    )
                },
            },
        }
    }
    /// Decides what follows from one flush of the session.
    pub fn on_flush(state: TransportState, outcome: Result<(), IoError>) -> (r: (
        TransportState,
        Option<SessionEvent<S>>,
    ))
        ensures
            r == Self::flush_step(state, outcome),
    {
        match state {
            TransportState::Terminated => (TransportState::Terminated, None),
            _ => match outcome {
                Ok(_) => (state, None),
                Err(err) => if err.would_block() {
                    (state, None)
                } else {
                    (TransportState::Terminated, Some(SessionEvent::Terminated(err)))
                },
            },
        }
    }

    /// Puts the socket settings of a transport in force on `session` and
    /// wraps it, at the start of its life.
    ///
    /// The session is told, in this order, how long reads may wait, how long
    /// writes may wait, and not to block. The first failure is the result,
    /// and nothing is told after it. Where all three succeed, the result is
    /// the transport that holds the session as the last call left it.
    pub fn upgrade(session: S, inbound: bool) -> (r: Result<Self, IoError>)
        requires
            session.wf(),
        ensures
            r matches Ok(t) ==> {
                &&& t.wf()
                &&& t.state() == TransportState::Handshake
                &&& t.is_inbound() == inbound
                &&& t.session().config() == wire_config()
                &&& t.session().established() == session.established()
                &&& t.session().identity() == session.identity()
            },
            exists|a: &mut S, ra: Result<(), IoError>|
                {
                    &&& *a == session
                    &&& call_ensures(S::set_read_timeout, (a, Some(READ_TIMEOUT)), ra)
                    &&& match ra {
                        Err(err) => r == Err::<Self, IoError>(err),
                        Ok(_) => exists|b: &mut S, rb: Result<(), IoError>|
                            {
                                &&& *b == *final(a)
                                &&& call_ensures(S::set_write_timeout, (b, Some(WRITE_TIMEOUT)), rb)
                                &&& match rb {
                                    Err(err) => r == Err::<Self, IoError>(err),
                                    Ok(_) => exists|c: &mut S, rc: Result<(), IoError>|
                                        {
                                            &&& *c == *final(b)
                                            &&& call_ensures(S::set_nonblocking, (c, true), rc)
                                            &&& match rc {
                                                Err(err) => r == Err::<Self, IoError>(err),
                                                Ok(_) => (r matches Ok(t) && t.state()
                                                    == TransportState::Handshake && t.is_inbound()
                                                    == inbound && t.session() == *final(c)),
                                            }
                                        },
                                }
                            },
                    }
                },
    {
        let mut session = session;
        match session.set_read_timeout(Some(READ_TIMEOUT)) {
            Ok(_) => {},
            Err(err) => {
                return Err(err);
            },
        }
        match session.set_write_timeout(Some(WRITE_TIMEOUT)) {
            Ok(_) => {},
            Err(err) => {
                return Err(err);
            },
        }
        match session.set_nonblocking(true) {
            Ok(_) => {},
            Err(err) => {
                return Err(err);
            },
        }
        Ok(NetTransport { state: TransportState::Handshake, session, inbound })
    }

    /// A transport for a session that a listener accepted: what `upgrade`
    /// makes of the session as an inbound one.
    pub fn accept(session: S) -> (r: Result<Self, IoError>)
        requires
            session.wf(),
        ensures
            r matches Ok(t) ==> {
                &&& t.wf()
                &&& t.state() == TransportState::Handshake
                &&& t.is_inbound()
                &&& t.session().config() == wire_config()
                &&& t.session().established() == session.established()
                &&& t.session().identity() == session.identity()
            },
            call_ensures(Self::upgrade, (session, true), r),
    {
        // Called through a value, so that the contract can speak of the call.
        let upgrade = Self::upgrade;
        upgrade(session, true)
    }

    /// What `connect` makes of a transport that `upgrade` made: the same
    /// transport marked outbound, or the failure as one of the connection.
    pub open spec fn outbound(made: Result<Self, IoError>, r: Result<Self, SessionError<IoError>>) -> bool {
        match made {
            Ok(t) => (r matches Ok(me) && me.state() == t.state() && me.session() == t.session()
                && !me.is_inbound()),
            Err(err) => r == Err::<Self, SessionError<IoError>>(SessionError::Connection(err)),
        }
    }

    /// A transport for a new session with the peer at `addr`: the session
    /// connects, and a failure to do so is the result. The session is then
    /// put into a transport as `upgrade` does, with a failure reported as one
    /// of the connection, and the transport is marked outbound.
    pub fn connect(
        addr: PeerAddr<S::Id, <S::Connection as NetConnection>::Addr>,
        context: &S::Context,
    ) -> (r: Result<Self, SessionError<IoError>>)
        ensures
            r matches Ok(t) ==> {
                &&& t.wf()
                &&& t.state() == TransportState::Handshake
                &&& !t.is_inbound()
                &&& t.session().config() == wire_config()
                &&& !t.session().established()
            },
            exists|connected: Result<S, SessionError<IoError>>|
                {
                    &&& #[trigger] call_ensures(S::connect, (addr, context), connected)
                    &&& match connected {
                        Err(err) => r == Err::<Self, SessionError<IoError>>(err),
                        Ok(session) => exists|made: Result<Self, IoError>|
                            #[trigger] call_ensures(Self::upgrade, (session, true), made)
                                && Self::outbound(made, r),
                    }
                },
    {
        let session = match S::connect(addr, context) {
            Ok(session) => session,
            Err(err) => {
                return Err(err);
            },
        };
        // Called through a value, so that the contract can speak of the call.
        let upgrade = Self::upgrade;
        let mut me = match upgrade(session, true) {
            Ok(me) => me,
            Err(err) => {
                return Err(SessionError::Connection(err));
            },
        };
        me.inbound = false;
        Ok(me)
    }

    #[verifier::when_used_as_spec(spec_inbound)]
    pub fn is_inbound(&self) -> (b: bool)
        ensures
            b == self.spec_inbound(),
    {
        self.inbound
    }

    pub fn is_outbound(&self) -> (b: bool)
        ensures
            b == !self.spec_inbound(),
    {
        !self.is_inbound()
    }

    #[verifier::when_used_as_spec(spec_state)]
    pub fn state(&self) -> (s: TransportState)
        ensures
            s == self.spec_state(),
    {
        self.state
    }

    pub fn local_addr(&self) -> (a: <S::Connection as NetConnection>::Addr)
        requires
            self.wf(),
        ensures
            a == self.session().local(),
    {
        self.session.local_addr()
    }

    /// Whether the session holds bytes for the peer that the connection has
    /// not taken yet, so that room for writing is of interest.
    pub fn has_unsent(&self) -> (b: bool)
        requires
            self.wf(),
        ensures
            b == self.session().unsent(),
    {
        self.session.has_unsent()
    }

    /// What a reactor has to tell the transport of: of something to read,
    /// and of room for writing. A terminated transport is told of nothing;
    /// any other is told of something to read, and of room for writing
    /// while its session holds bytes that the connection has not taken.
    pub fn interests(&self) -> (want: (bool, bool))
        requires
            self.wf(),
        ensures
            want.0 == (self.state() != TransportState::Terminated),
            want.1 == (self.state() != TransportState::Terminated && self.session().unsent()),
    {
        match self.state {
            TransportState::Terminated => (false, false),
            _ => (true, self.session.has_unsent()),
        }
    }

    /// The verified identity of the peer, once the transport is active.
    pub fn peer_id(&self) -> (id: Option<S::Id>)
        requires
            self.wf(),
        ensures
            id == (if self.state() == TransportState::Active {
                self.session().identity()
            } else {
                None
            }),
            self.state() == TransportState::Active ==> id is Some,
    {
        match self.state {
            TransportState::Active => self.session.session_id(),
            _ => None,
        }
    }

    /// The verified identity of the peer of an active transport.
    pub fn expect_peer_id(&self) -> (id: S::Id)
        requires
            self.wf(),
            self.state() == TransportState::Active,
        ensures
            self.session().identity() == Some(id),
    {
        match self.session.session_id() {
            Some(id) => id,
            None => unreached(),
        }
    }

    /// Takes a prefix of `buf` as application data for the peer: the session
    /// is handed `buf`, and the answer is its answer. Nothing but the session
    /// changes.
    pub fn write(&mut self, buf: &[u8]) -> (r: Result<usize, IoError>)
        requires
            old(self).wf(),
        ensures
            final(self).wf(),
            final(self).state() == old(self).state(),
            final(self).is_inbound() == old(self).is_inbound(),
            r matches Ok(n) ==> n <= buf@.len() && (!old(self).session().established() ==> n == 0),
            exists|session: &mut S|
                *session == old(self).session() && *final(session) == final(self).session()
                    && call_ensures(S::write, (session, buf), r),
    {
        self.session.write(buf)
    }

    /// Hands the connection what the session still holds for the peer: the
    /// session is told to flush, and the answer is its answer. Nothing but
    /// the session changes.
    pub fn flush(&mut self) -> (r: Result<(), IoError>)
        requires
            old(self).wf(),
        ensures
            final(self).wf(),
            final(self).state() == old(self).state(),
            final(self).is_inbound() == old(self).is_inbound(),
            exists|session: &mut S|
                *session == old(self).session() && *final(session) == final(self).session()
                    && call_ensures(S::flush, (session,), r),
    {
        self.session.flush()
    }

    /// The identity that a transport reports when the handshake of its
    /// session is complete: that of the session; none while the handshake is
    /// under way.
    pub open spec fn reported(&self) -> Option<S::Id> {
        if self.session().established() {
            self.session().identity()
        } else {
            None
        }
    }

    /// Reacts to room for writing: flushes what the session holds for the
    /// peer. A terminated transport does nothing.
    ///
    /// The session of any other transport is told to flush, once, and stays
    /// as that call left it. What the call answered decides by `flush_step`.
    pub fn handle_writable(&mut self) -> (ev: Option<SessionEvent<S>>)
        requires
            old(self).wf(),
        ensures
            final(self).wf(),
            final(self).is_inbound() == old(self).is_inbound(),
            old(self).state() == TransportState::Terminated ==> *final(self) == *old(self) && ev is None,
            old(self).state() != TransportState::Terminated ==> exists|
                session: &mut S,
                outcome: Result<(), IoError>,
            |
                {
                    &&& *session == old(self).session()
                    &&& *final(session) == final(self).session()
                    &&& #[trigger] call_ensures(S::flush, (session,), outcome)
                    &&& Self::flush_step(old(self).state(), outcome) == (final(self).state(), ev)
                },
    {
        if self.state == TransportState::Terminated {
            return None;
        }
        let outcome = self.session.flush();
        let (state, ev) = Self::on_flush(self.state, outcome);
        self.state = state;
        ev
    }

    /// Reacts to something to read: takes one read off the session and
    /// decides by `read_step`. A terminated transport does nothing.
    ///
    /// The session of any other transport is asked, once, for as many bytes
    /// as one event takes at most, and stays as that call left it. What the
    /// call answered decides by `read_step`, together with the identity that
    /// the session has for the peer after the call, where its handshake is
    /// complete then.
    pub fn handle_readable(&mut self) -> (ev: Option<SessionEvent<S>>)
        requires
            old(self).wf(),
        ensures
            final(self).wf(),
            final(self).is_inbound() == old(self).is_inbound(),
            old(self).state() == TransportState::Terminated ==> *final(self) == *old(self) && ev is None,
            old(self).state() != TransportState::Terminated ==> exists|
                session: &mut S,
                outcome: Result<Vec<u8>, IoError>,
            |
                {
                    &&& *session == old(self).session()
                    &&& *final(session) == final(self).session()
                    &&& #[trigger] call_ensures(S::read, (session, READ_BUFFER_SIZE), outcome)
                    &&& Self::read_step(old(self).state(), outcome, final(self).reported()) == (
                        final(self).state(),
                        ev,
                    )
                },
    {
        if self.state == TransportState::Terminated {
            return None;
        }
        let outcome = self.session.read(READ_BUFFER_SIZE);
        let completed = if self.session.handshake_completed() {
            self.session.session_id()
        } else {
            None
        };
        let (state, ev) = Self::on_read(self.state, outcome, completed);
        self.state = state;
        ev
    }

    /// Reacts to a readiness event: room for writing is handled as
    /// `handle_writable` does, something to read as `handle_readable` does.
    pub fn handle_io(&mut self, io: Io) -> (ev: Option<SessionEvent<S>>)
        requires
            old(self).wf(),
        ensures
            final(self).wf(),
            final(self).is_inbound() == old(self).is_inbound(),
            old(self).state() == TransportState::Terminated ==> *final(self) == *old(self) && ev is None,
            io == Io::Write ==> exists|transport: &mut Self|
                *transport == *old(self) && *final(transport) == *final(self)
                    && #[trigger] call_ensures(Self::handle_writable, (transport,), ev),
            io == Io::Read ==> exists|transport: &mut Self|
                *transport == *old(self) && *final(transport) == *final(self)
                    && #[trigger] call_ensures(Self::handle_readable, (transport,), ev),
    {
        // Called through values, so that the contract can speak of the calls.
        let handle_writable = Self::handle_writable;
        let handle_readable = Self::handle_readable;
        match io {
            Io::Write => handle_writable(self),
            Io::Read => handle_readable(self),
        }
    }

    /// Shuts the connection down in both directions: the session is told to
    /// disconnect, and the answer is its answer.
    pub fn disconnect(self) -> (r: Result<(), IoError>)
        requires
            self.wf(),
        ensures
            call_ensures(S::disconnect, (self.session(),), r),
    {
        self.session.disconnect()
    }
}

/// What a listener tells its owner.
pub enum ListenerEvent<S: NetSession> {
    /// A connection came in; this is the session on it, before its handshake.
    Accepted(S),
    /// No connection could be taken, for this reason.
    Failure(IoError),
}

/// A listening socket as a reactor sees it, together with what sessions on
/// accepted connections need of the local side.
pub struct NetAccept<S: NetSession, L: NetListener<Stream = S::Connection>> {
    session_context: S::Context,
    listener: L,
}

impl<S: NetSession, L: NetListener<Stream = S::Connection>> NetAccept<S, L> {
    /// What sessions on accepted connections get of the local side.
    pub closed spec fn context(&self) -> S::Context {
        self.session_context
    }

    /// The listening socket.
    pub closed spec fn listener(&self) -> L {
        self.listener
    }

    /// The listening socket.
    pub fn as_listener(&self) -> (listener: &L)
        ensures
            *listener == self.listener(),
    {
        &self.listener
    }

    /// Opens a listening socket on `addr` that never blocks: a listener is
    /// bound to `addr` and told not to block. The first failure is the
    /// result. Where both succeed, the result holds the listener as the
    /// second call left it, and `session_context`.
    pub fn bind(addr: L::Addr, session_context: S::Context) -> (r: Result<Self, IoError>)
        ensures
            r matches Ok(me) ==> me.context() == session_context && me.listener().nonblocking(),
            exists|bound: Result<L, IoError>|
                {
                    &&& call_ensures(L::bind, (addr,), bound)
                    &&& match bound {
                        Err(err) => r == Err::<Self, IoError>(err),
                        Ok(listener) => exists|l: &mut L, told: Result<(), IoError>|
                            {
                                &&& *l == listener
                                &&& call_ensures(L::set_nonblocking, (l, true), told)
                                &&& match told {
                                    Err(err) => r == Err::<Self, IoError>(err),
                                    Ok(_) => (r matches Ok(me) && me.context() == session_context
                                        && me.listener() == *final(l)),
                                }
                            },
                    }
                },
    {
        let mut listener = match L::bind(addr) {
            Ok(listener) => listener,
            Err(err) => {
                return Err(err);
            },
        };
        match listener.set_nonblocking(true) {
            Ok(_) => {},
            Err(err) => {
                return Err(err);
            },
        }
        Ok(NetAccept { session_context, listener })
    }

    pub fn local_addr(&self) -> (a: L::Addr)
        ensures
            a == self.listener().local(),
    {
        self.listener.local_addr()
    }

    /// Takes one pending connection, puts the socket settings of a transport
    /// in force on it and opens a session on it in the role of the responder.
    ///
    /// The listener is asked for a connection once. The connection is told,
    /// in this order, how long reads may wait, how long writes may wait, and
    /// not to block; then the session accepts it. The first failure is the
    /// result, a failure of the session as an I/O error, and nothing is done
    /// after it. Nothing but the listener changes.
    pub fn handle_accept(&mut self) -> (r: Result<S, IoError>)
        ensures
            final(self).context() == old(self).context(),
            final(self).listener().local() == old(self).listener().local(),
            final(self).listener().nonblocking() == old(self).listener().nonblocking(),
            r matches Ok(session) ==> session.wf() && !session.established() && session.config()
                == wire_config(),
            exists|l: &mut L, taken: Result<S::Connection, IoError>|
                {
                    &&& *l == old(self).listener()
                    &&& *final(l) == final(self).listener()
                    &&& call_ensures(L::accept, (l,), taken)
                    &&& match taken {
                        Err(err) => r == Err::<S, IoError>(err),
                        Ok(stream) => exists|a: &mut S::Connection, ra: Result<(), IoError>|
                            {
                                &&& *a == stream
                                &&& call_ensures(
                                    S::Connection::set_read_timeout,
                                    (a, Some(READ_TIMEOUT)),
                                    ra,
                                )
                                &&& match ra {
                                    Err(err) => r == Err::<S, IoError>(err),
                                    Ok(_) => exists|b: &mut S::Connection, rb: Result<(), IoError>|
                                        {
                                            &&& *b == *final(a)
                                            &&& call_ensures(
                                                S::Connection::set_write_timeout,
                                                (b, Some(WRITE_TIMEOUT)),
                                                rb,
                                            )
                                            &&& match rb {
                                                Err(err) => r == Err::<S, IoError>(err),
                                                Ok(_) => exists|
                                                    c: &mut S::Connection,
                                                    rc: Result<(), IoError>,
                                                |
                                                    {
                                                        &&& *c == *final(b)
                                                        &&& call_ensures(
                                                            S::Connection::set_nonblocking,
                                                            (c, true),
                                                            rc,
                                                        )
                                                        &&& match rc {
                                                            Err(err) => r == Err::<S, IoError>(err),
                                                            Ok(_) => exists|
                                                                made: Result<S, SessionError<IoError>>,
                                                            |
                                                                {
                                                                    &&& call_ensures(
                                                                        S::accept,
                                                                        (
                                                                            *final(c),
                                                                            &old(self).context(),
                                                                        ),
                                                                        made,
                                                                    )
                                                                    &&& r == match made {
                                                                        Ok(session) => Ok::<S, IoError>(
                                                                            session,
                                                                        ),
                                                                        Err(err) => Err::<S, IoError>(
                                                                            err.as_io(),
                                                                        ),
                                                                    }
                                                                },
                                                        }
                                                    },
                                            }
                                        },
                                }
                            },
                    }
                },
    {
        let mut stream = match self.listener.accept() {
            Ok(stream) => stream,
            Err(err) => {
                return Err(err);
            },
        };
        match stream.set_read_timeout(Some(READ_TIMEOUT)) {
            Ok(_) => {},
            Err(err) => {
                return Err(err);
            },
        }
        match stream.set_write_timeout(Some(WRITE_TIMEOUT)) {
            Ok(_) => {},
            Err(err) => {
                return Err(err);
            },
        }
        match stream.set_nonblocking(true) {
            Ok(_) => {},
            Err(err) => {
                return Err(err);
            },
        }
        match S::accept(stream, &self.session_context) {
            Ok(session) => Ok(session),
            Err(err) => Err(err.into_io()),
        }
    }

    /// Reacts to a readiness event. A listener that is ready to be read has
    /// a connection to accept: it takes exactly one, as `handle_accept` does,
    /// and reports the session on it or the failure. Any other event is none
    /// of a listener's.
    pub fn handle_io(&mut self, io: Io) -> (ev: Option<ListenerEvent<S>>)
        ensures
            ev is Some <==> io == Io::Read,
            ev matches Some(ListenerEvent::Accepted(session)) ==> session.wf()
                && !session.established() && session.config() == wire_config(),
            io == Io::Write ==> *final(self) == *old(self),
            final(self).context() == old(self).context(),
            final(self).listener().local() == old(self).listener().local(),
            final(self).listener().nonblocking() == old(self).listener().nonblocking(),
            io == Io::Read ==> exists|listener: &mut Self, made: Result<S, IoError>|
                {
                    &&& *listener == *old(self)
                    &&& *final(listener) == *final(self)
                    &&& #[trigger] call_ensures(Self::handle_accept, (listener,), made)
                    &&& ev == Some(
                        match made {
                            Ok(session) => ListenerEvent::<S>::Accepted(session),
                            Err(err) => ListenerEvent::<S>::Failure(err),
                        },
                    )
                },
    {
        // Called through a value, so that the contract can speak of the call.
        let handle_accept = Self::handle_accept;
        match io {
            Io::Read => Some(
                match handle_accept(self) {
                    Err(err) => ListenerEvent::Failure(err),
                    Ok(session) => ListenerEvent::Accepted(session),
                },
            ),
            Io::Write => None,
        }
    }

    /// Closes the listening socket.
    pub fn disconnect(self) -> (r: Result<(), IoError>)
        ensures
            r is Ok,
    {
        Ok(())
    }
}

} // verus!
