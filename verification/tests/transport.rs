use std::collections::VecDeque;

use netservices::connection::{NetConnection, Proxy, SocketConfig};
use netservices::error::{ErrorKind, IoError, SessionError};
use netservices::noise::PeerAddr;
use netservices::resources::{NetRead, NetWrite, SplitIoError};
use netservices::session::NetSession;
use netservices::wire::{
    Io, NetTransport, SessionEvent, TransportState, READ_BUFFER_SIZE, READ_TIMEOUT, WRITE_TIMEOUT,
};

/// A connection that goes nowhere.
#[derive(Debug, Default)]
struct Loose {
    read_timeout: Option<u64>,
    write_timeout: Option<u64>,
    nonblocking: bool,
}

struct NoProxy;

impl Proxy for NoProxy {
    type Error = IoError;

    fn failure(&self, err: IoError) -> IoError {
        err
    }
}

impl NetRead for Loose {
    fn read(&mut self, _limit: usize) -> Result<Vec<u8>, IoError> {
        Ok(Vec::new())
    }
}

impl NetWrite for Loose {
    fn write(&mut self, buf: &[u8]) -> Result<usize, IoError> {
        Ok(buf.len())
    }

    fn flush(&mut self) -> Result<(), IoError> {
        Ok(())
    }
}

impl NetConnection for Loose {
    type Addr = u16;
    type Read = Loose;
    type Write = Loose;

    fn config(&self) -> SocketConfig {
        SocketConfig {
            read_timeout: self.read_timeout,
            write_timeout: self.write_timeout,
            nonblocking: self.nonblocking,
        }
    }

    fn local(&self) -> u16 {
        2
    }

    fn remote(&self) -> u16 {
        1
    }

    fn joined(_read: Loose, write: Loose) -> Self {
        write
    }

    fn connect_blocking<P: Proxy>(_addr: u16, _proxy: &P) -> Result<Self, P::Error> {
        Ok(Loose::default())
    }

    fn connect_nonblocking<P: Proxy>(_addr: u16, _proxy: &P) -> Result<Self, P::Error> {
        Ok(Loose::default())
    }

    fn remote_addr(&self) -> u16 {
        1
    }

    fn local_addr(&self) -> u16 {
        2
    }

    fn read_timeout(&self) -> Result<Option<u64>, IoError> {
        Ok(self.read_timeout)
    }

    fn write_timeout(&self) -> Result<Option<u64>, IoError> {
        Ok(self.write_timeout)
    }

    fn set_read_timeout(&mut self, dur: Option<u64>) -> Result<(), IoError> {
        self.read_timeout = dur;
        Ok(())
    }

    fn set_write_timeout(&mut self, dur: Option<u64>) -> Result<(), IoError> {
        self.write_timeout = dur;
        Ok(())
    }

    fn set_nonblocking(&mut self, nonblocking: bool) -> Result<(), IoError> {
        self.nonblocking = nonblocking;
        Ok(())
    }

    fn shutdown(&mut self) -> Result<(), IoError> {
        Ok(())
    }

    fn split_io(self) -> Result<(Loose, Loose), SplitIoError<Self>> {
        Ok((Loose::default(), self))
    }

    fn from_split_io(_read: Loose, write: Loose) -> Self {
        write
    }
}

/// A session that plays back a script of read and flush outcomes, and
/// completes its handshake on the read that the script says.
struct Scripted {
    connection: Loose,
    reads: VecDeque<(Result<Vec<u8>, IoError>, bool)>,
    flushes: VecDeque<Result<(), IoError>>,
    established: bool,
    peer: u64,
    limits: Vec<usize>,
}

impl Scripted {
    fn new(reads: Vec<(Result<Vec<u8>, IoError>, bool)>, flushes: Vec<Result<(), IoError>>) -> Self {
        Scripted {
            connection: Loose::default(),
            reads: reads.into(),
            flushes: flushes.into(),
            established: false,
            peer: 77,
            limits: Vec::new(),
        }
    }
}

impl NetSession for Scripted {
    type Context = u64;
    type Connection = Loose;
    type Id = u64;

    fn wf(&self) -> bool {
        true
    }

    fn established(&self) -> bool {
        self.established
    }

    fn identity(&self) -> Option<u64> {
        self.session_id()
    }

    fn unsent(&self) -> bool {
        !self.flushes.is_empty()
    }

    fn config(&self) -> SocketConfig {
        self.connection.config()
    }

    fn local(&self) -> u16 {
        self.connection.local()
    }

    fn accept(connection: Loose, context: &u64) -> Result<Self, SessionError<IoError>> {
        let mut session = Scripted::new(vec![], vec![]);
        session.connection = connection;
        session.peer = *context;
        Ok(session)
    }

    fn connect(addr: PeerAddr<u64, u16>, _context: &u64) -> Result<Self, SessionError<IoError>> {
        if addr.addr == 0 {
            return Err(SessionError::InvalidPeerKey);
        }
        let mut session = Scripted::new(vec![], vec![]);
        session.peer = addr.id;
        Ok(session)
    }

    fn session_id(&self) -> Option<u64> {
        if self.established {
            Some(self.peer)
        } else {
            None
        }
    }

    fn handshake_completed(&self) -> bool {
        self.established
    }

    fn has_unsent(&self) -> bool {
        self.unsent()
    }

    fn local_addr(&self) -> u16 {
        self.connection.local_addr()
    }

    fn read_timeout(&self) -> Result<Option<u64>, IoError> {
        self.connection.read_timeout()
    }

    fn write_timeout(&self) -> Result<Option<u64>, IoError> {
        self.connection.write_timeout()
    }

    fn set_read_timeout(&mut self, dur: Option<u64>) -> Result<(), IoError> {
        self.connection.set_read_timeout(dur)
    }

    fn set_write_timeout(&mut self, dur: Option<u64>) -> Result<(), IoError> {
        self.connection.set_write_timeout(dur)
    }

    fn set_nonblocking(&mut self, nonblocking: bool) -> Result<(), IoError> {
        self.connection.set_nonblocking(nonblocking)
    }

    fn read(&mut self, limit: usize) -> Result<Vec<u8>, IoError> {
        self.limits.push(limit);
        match self.reads.pop_front() {
            Some((outcome, completes)) => {
                if completes {
                    self.established = true;
                }
                outcome
            }
            None => Err(IoError::from_kind(ErrorKind::WouldBlock)),
        }
    }

    fn write(&mut self, buf: &[u8]) -> Result<usize, IoError> {
        if self.established {
            Ok(buf.len())
        } else {
            Ok(0)
        }
    }

    fn flush(&mut self) -> Result<(), IoError> {
        self.flushes.pop_front().unwrap_or(Ok(()))
    }

    fn disconnect(mut self) -> Result<(), IoError> {
        self.connection.shutdown()
    }
}

fn would_block() -> IoError {
    IoError::from_kind(ErrorKind::WouldBlock)
}

fn reset() -> IoError {
    IoError::from_os(ErrorKind::ConnectionReset, 104)
}

#[test]
fn accept_configures_the_socket_and_marks_inbound() {
    let transport = NetTransport::accept(Scripted::new(vec![], vec![])).unwrap();
    assert!(transport.is_inbound());
    assert!(!transport.is_outbound());
    assert_eq!(transport.state(), TransportState::Handshake);
    assert_eq!(transport.local_addr(), 2);
    assert_eq!(transport.peer_id(), None);
    let socket = transport.as_session().config();
    assert_eq!(socket.read_timeout, Some(6));
    assert_eq!(socket.write_timeout, Some(3));
    assert!(socket.nonblocking);
}

#[test]
fn connect_marks_outbound() {
    let transport = NetTransport::<Scripted>::connect(PeerAddr::new(5, 9), &1).unwrap();
    assert!(transport.is_outbound());
    assert!(!transport.is_inbound());
    assert_eq!(transport.state(), TransportState::Handshake);
    let socket = transport.as_session().config();
    assert_eq!(socket.read_timeout, Some(READ_TIMEOUT));
    assert_eq!(socket.write_timeout, Some(WRITE_TIMEOUT));
    assert!(socket.nonblocking);
}

#[test]
fn flush_step_table() {
    type T = NetTransport<Scripted>;
    for state in [TransportState::Handshake, TransportState::Active] {
        let (next, ev) = T::on_flush(state, Ok(()));
        assert_eq!(next, state);
        assert!(ev.is_none());
        let (next, ev) = T::on_flush(state, Err(would_block()));
        assert_eq!(next, state);
        assert!(ev.is_none());
        let (next, ev) = T::on_flush(state, Err(reset()));
        assert_eq!(next, TransportState::Terminated);
        assert!(matches!(ev, Some(SessionEvent::Terminated(e)) if e == reset()));
    }
    let (next, ev) = T::on_flush(TransportState::Terminated, Err(reset()));
    assert_eq!(next, TransportState::Terminated);
    assert!(ev.is_none());
}

#[test]
fn writes_pass_through_to_the_session() {
    let session = Scripted::new(vec![(Ok(vec![]), true)], vec![]);
    let mut transport = NetTransport::accept(session).unwrap();
    assert_eq!(transport.write(b"early").unwrap(), 0);
    assert!(transport.flush().is_ok());
    assert!(transport.handle_io(Io::Read).is_some());
    assert_eq!(transport.write(b"in time").unwrap(), 7);
    assert_eq!(transport.state(), TransportState::Active);
    assert!(transport.disconnect().is_ok());
}

#[test]
fn connect_hands_on_the_session_error() {
    let res = NetTransport::<Scripted>::connect(PeerAddr::new(5, 0), &1);
    assert!(matches!(res, Err(SessionError::InvalidPeerKey)));
}

#[test]
fn handshake_in_progress_emits_nothing() {
    let session = Scripted::new(vec![(Ok(vec![]), false), (Err(would_block()), false)], vec![]);
    let mut transport = NetTransport::accept(session).unwrap();
    assert!(transport.handle_io(Io::Read).is_none());
    assert_eq!(transport.state(), TransportState::Handshake);
    assert!(transport.handle_io(Io::Read).is_none());
    assert_eq!(transport.state(), TransportState::Handshake);
    // Each event took one read off the session, of a full buffer at most.
    assert_eq!(transport.as_session().limits, vec![65535, 65535]);
}

#[test]
fn handshake_completion_emits_established_once() {
    let session = Scripted::new(
        vec![(Ok(vec![]), true), (Ok(vec![1, 2, 3]), false), (Err(would_block()), false)],
        vec![],
    );
    let mut transport = NetTransport::accept(session).unwrap();
    match transport.handle_io(Io::Read) {
        Some(SessionEvent::Established(id)) => assert_eq!(id, 77),
        _ => panic!("expected the handshake to be reported"),
    }
    assert_eq!(transport.state(), TransportState::Active);
    assert_eq!(transport.expect_peer_id(), 77);
    assert_eq!(transport.peer_id(), Some(77));
    match transport.handle_io(Io::Read) {
        Some(SessionEvent::Data(data)) => assert_eq!(data, vec![1, 2, 3]),
        _ => panic!("expected data"),
    }
    assert_eq!(transport.state(), TransportState::Active);
    assert!(transport.handle_io(Io::Read).is_none());
    assert_eq!(transport.state(), TransportState::Active);
}

#[test]
fn orderly_shutdown_terminates_for_good() {
    let session = Scripted::new(
        vec![(Ok(vec![]), true), (Ok(vec![]), false), (Ok(vec![9]), false)],
        vec![],
    );
    let mut transport = NetTransport::accept(session).unwrap();
    assert!(matches!(transport.handle_io(Io::Read), Some(SessionEvent::Established(77))));
    match transport.handle_io(Io::Read) {
        Some(SessionEvent::Terminated(err)) => {
            assert_eq!(err, IoError::from_kind(ErrorKind::Interrupted))
        }
        _ => panic!("expected termination"),
    }
    assert_eq!(transport.state(), TransportState::Terminated);
    assert!(transport.handle_io(Io::Read).is_none());
    assert!(transport.handle_io(Io::Write).is_none());
    assert_eq!(transport.state(), TransportState::Terminated);
    // A terminated transport leaves its session alone: the third read of the script
    // was never taken.
    assert_eq!(transport.as_session().limits.len(), 2);
    assert_eq!(transport.as_session().reads.len(), 1);
    assert_eq!(transport.peer_id(), None);
}

#[test]
fn read_error_terminates_in_any_state() {
    let session = Scripted::new(vec![(Err(reset()), false)], vec![]);
    let mut transport = NetTransport::accept(session).unwrap();
    match transport.handle_io(Io::Read) {
        Some(SessionEvent::Terminated(err)) => assert_eq!(err, reset()),
        _ => panic!("expected termination"),
    }
    assert_eq!(transport.state(), TransportState::Terminated);

    let session = Scripted::new(vec![(Ok(vec![]), true), (Err(reset()), false)], vec![]);
    let mut transport = NetTransport::accept(session).unwrap();
    assert!(transport.handle_io(Io::Read).is_some());
    assert!(matches!(transport.handle_io(Io::Read), Some(SessionEvent::Terminated(_))));
    assert_eq!(transport.state(), TransportState::Terminated);
}

#[test]
fn flush_failure_terminates_and_success_is_silent() {
    let session = Scripted::new(vec![], vec![Ok(()), Err(would_block()), Err(reset())]);
    let mut transport = NetTransport::accept(session).unwrap();
    assert!(transport.has_unsent());
    assert_eq!(transport.interests(), (true, true));
    assert!(transport.handle_io(Io::Write).is_none());
    assert_eq!(transport.state(), TransportState::Handshake);
    assert!(transport.handle_io(Io::Write).is_none());
    assert_eq!(transport.state(), TransportState::Handshake);
    match transport.handle_io(Io::Write) {
        Some(SessionEvent::Terminated(err)) => assert_eq!(err, reset()),
        _ => panic!("expected termination"),
    }
    assert_eq!(transport.state(), TransportState::Terminated);
    assert_eq!(transport.interests(), (false, false));
    let idle = NetTransport::accept(Scripted::new(vec![], vec![])).unwrap();
    assert_eq!(idle.interests(), (true, false));
}

#[test]
fn read_step_table() {
    type T = NetTransport<Scripted>;
    let (state, ev) = T::on_read(TransportState::Handshake, Ok(vec![]), None);
    assert_eq!(state, TransportState::Handshake);
    assert!(ev.is_none());
    let (state, ev) = T::on_read(TransportState::Handshake, Ok(vec![]), Some(3));
    assert_eq!(state, TransportState::Active);
    assert!(matches!(ev, Some(SessionEvent::Established(3))));
    let (state, ev) = T::on_read(TransportState::Handshake, Ok(vec![1]), Some(3));
    assert_eq!(state, TransportState::Terminated);
    assert!(matches!(ev, Some(SessionEvent::Terminated(e)) if e.kind() == ErrorKind::InvalidData));
    let (state, ev) = T::on_read(TransportState::Active, Ok(vec![]), Some(3));
    assert_eq!(state, TransportState::Terminated);
    assert!(matches!(ev, Some(SessionEvent::Terminated(e)) if e.kind() == ErrorKind::Interrupted));
    let (state, ev) = T::on_read(TransportState::Active, Err(would_block()), Some(3));
    assert_eq!(state, TransportState::Active);
    assert!(ev.is_none());
    let (state, ev) = T::on_read(TransportState::Terminated, Ok(vec![1]), Some(3));
    assert_eq!(state, TransportState::Terminated);
    assert!(ev.is_none());
    let (state, ev) = T::on_read(TransportState::Terminated, Err(reset()), None);
    assert_eq!(state, TransportState::Terminated);
    assert!(ev.is_none());
}

#[test]
fn defaults_of_the_wire() {
    assert_eq!(READ_BUFFER_SIZE, 65535);
    assert_eq!(READ_TIMEOUT, 6);
    assert_eq!(WRITE_TIMEOUT, 3);
    let _ = NoProxy;
}
