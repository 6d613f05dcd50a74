//! What a transport asks of the session that it drives.

use vstd::prelude::*;
use crate::connection::{NetConnection, SocketConfig};
use crate::error::{IoError, SessionError};
use crate::noise::{PeerAddr, PeerId};

verus! {

/// A session with one remote peer over one connection: it opens with a
/// handshake that verifies the peer's identity, and carries application data
/// from then on.
///
/// Reading and writing go through the same two entry points in both phases.
/// Until the handshake is complete a read yields no application data; the
/// read that completes it yields none either, and is the only one after
/// which `handshake_completed` has changed.
pub trait NetSession: Sized {
    /// What a session needs of the local side to take part in a handshake.
    type Context;

    type Connection: NetConnection;

    type Id: PeerId;

    /// The invariant of the session.
    spec fn wf(&self) -> bool;

    /// Whether the handshake is complete.
    spec fn established(&self) -> bool;

    /// The identity that the address of the peer carries. Once the
    /// handshake is complete there is one, and the handshake has verified it.
    spec fn identity(&self) -> Option<Self::Id>;

    /// Whether the session holds bytes for the peer that the connection has
    /// not taken yet.
    spec fn unsent(&self) -> bool;

    /// The socket settings of the connection beneath.
    spec fn config(&self) -> SocketConfig;

    /// The address of the local end of the connection beneath.
    spec fn local(&self) -> <Self::Connection as NetConnection>::Addr;

    /// A session in the role of the responder, on a connection that a
    /// listener accepted.
    fn accept(connection: Self::Connection, context: &Self::Context) -> (r: Result<
        Self,
        SessionError<IoError>,
    >)
        ensures
            r matches Ok(s) ==> s.wf() && !s.established() && s.config() == connection.config()
                && s.local() == connection.local(),
            r matches Err(e) ==> e is InvalidLocalKey,
    ;

    /// A session in the role of the initiator, on a new connection to `addr`.
    fn connect(
        addr: PeerAddr<Self::Id, <Self::Connection as NetConnection>::Addr>,
        context: &Self::Context,
    ) -> (r: Result<Self, SessionError<IoError>>)
        ensures
            r matches Ok(s) ==> s.wf() && !s.established(),
    ;

    fn session_id(&self) -> (id: Option<Self::Id>)
        requires
            self.wf(),
        ensures
            id == self.identity(),
            self.established() ==> id is Some,
    ;

    fn handshake_completed(&self) -> (done: bool)
        requires
            self.wf(),
        ensures
            done == self.established(),
    ;

    fn has_unsent(&self) -> (b: bool)
        requires
            self.wf(),
        ensures
            b == self.unsent(),
    ;

    fn local_addr(&self) -> (a: <Self::Connection as NetConnection>::Addr)
        requires
            self.wf(),
        ensures
            a == self.local(),
    ;

    fn read_timeout(&self) -> (r: Result<Option<u64>, IoError>)
        requires
            self.wf(),
        ensures
            r matches Ok(t) ==> t == self.config().read_timeout,
    ;

    fn write_timeout(&self) -> (r: Result<Option<u64>, IoError>)
        requires
            self.wf(),
        ensures
            r matches Ok(t) ==> t == self.config().write_timeout,
    ;

    fn set_read_timeout(&mut self, dur: Option<u64>) -> (r: Result<(), IoError>)
        requires
            old(self).wf(),
        ensures
            final(self).wf(),
            final(self).established() == old(self).established(),
            final(self).identity() == old(self).identity(),
            r is Ok ==> final(self).config() == (SocketConfig {
                read_timeout: dur,
                ..old(self).config()
            }),
    ;

    fn set_write_timeout(&mut self, dur: Option<u64>) -> (r: Result<(), IoError>)
        requires
            old(self).wf(),
        ensures
            final(self).wf(),
            final(self).established() == old(self).established(),
            final(self).identity() == old(self).identity(),
            r is Ok ==> final(self).config() == (SocketConfig {
                write_timeout: dur,
                ..old(self).config()
            }),
    ;

    fn set_nonblocking(&mut self, nonblocking: bool) -> (r: Result<(), IoError>)
        requires
            old(self).wf(),
        ensures
            final(self).wf(),
            final(self).established() == old(self).established(),
            final(self).identity() == old(self).identity(),
            r is Ok ==> final(self).config() == (SocketConfig {
                nonblocking,
                ..old(self).config()
            }),
    ;

    /// Takes at most `limit` bytes of application data off the session.
    ///
    /// While the handshake is under way the bytes that arrive feed the
    /// handshake, and the result is empty. Once it is complete, an empty
    /// result means that the peer has shut the connection down.
    fn read(&mut self, limit: usize) -> (r: Result<Vec<u8>, IoError>)
        requires
            old(self).wf(),
        ensures
            final(self).wf(),
            old(self).established() ==> final(self).established() && final(self).identity() == old(
                self,
            ).identity(),
            !old(self).established() ==> (r matches Ok(data) ==> data@.len() == 0),
            r matches Ok(data) ==> data@.len() <= limit,
    ;

    /// Takes a prefix of `buf` as application data for the peer and says how
    /// long that prefix was. Before the handshake is complete nothing is
    /// taken.
    fn write(&mut self, buf: &[u8]) -> (r: Result<usize, IoError>)
        requires
            old(self).wf(),
        ensures
            final(self).wf(),
            final(self).established() == old(self).established(),
            final(self).identity() == old(self).identity(),
            r matches Ok(n) ==> n <= buf@.len() && (!old(self).established() ==> n == 0),
    ;

    /// Hands the connection what the session still holds for the peer.
    fn flush(&mut self) -> (r: Result<(), IoError>)
        requires
            old(self).wf(),
        ensures
            final(self).wf(),
            final(self).established() == old(self).established(),
            final(self).identity() == old(self).identity(),
    ;

    /// Shuts the connection down in both directions.
    fn disconnect(self) -> (r: Result<(), IoError>)
        requires
            self.wf(),
    ;
}

} // verus!
