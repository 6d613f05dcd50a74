//! What the sessions ask of the connections and listeners beneath them.

use vstd::prelude::*;
use crate::error::IoError;
use crate::noise::Address;
use crate::resources::{NetRead, NetWrite, SplitIoError};

verus! {

/// The settings of a socket that sessions and transports adjust. Timeouts
/// are in seconds; `None` waits for ever.
#[derive(Clone, Copy, PartialEq, Eq, Hash, Debug)]
pub struct SocketConfig {
    pub read_timeout: Option<u64>,
    pub write_timeout: Option<u64>,
    pub nonblocking: bool,
}

/// The capability to dial out through an intermediary.
pub trait Proxy {
    /// Why dialling through this intermediary can fail.
    type Error;

    /// The failure that an I/O failure on the way comes to.
    fn failure(&self, err: IoError) -> (e: Self::Error);
}

/// A raw byte-stream connection between two network addresses.
pub trait NetConnection: NetRead + NetWrite + Sized {
    type Addr: Address;

    type Read: NetRead;

    type Write: NetWrite;

    /// The socket settings in force.
    spec fn config(&self) -> SocketConfig;

    /// The address of this end of the connection.
    spec fn local(&self) -> Self::Addr;

    /// The address of the other end of the connection.
    spec fn remote(&self) -> Self::Addr;

    /// The connection that two halves make.
    spec fn joined(read: <Self as NetConnection>::Read, write: <Self as NetConnection>::Write) -> Self;

    /// Dials `addr` and waits until the connection stands.
    fn connect_blocking<P: Proxy>(addr: Self::Addr, proxy: &P) -> (r: Result<Self, P::Error>);

    /// Dials `addr` without waiting for the connection to stand.
    fn connect_nonblocking<P: Proxy>(addr: Self::Addr, proxy: &P) -> (r: Result<Self, P::Error>);

    fn remote_addr(&self) -> (a: Self::Addr)
        ensures
            a == self.remote(),
    ;

    fn local_addr(&self) -> (a: Self::Addr)
        ensures
            a == self.local(),
    ;

    fn read_timeout(&self) -> (r: Result<Option<u64>, IoError>)
        ensures
            r matches Ok(t) ==> t == self.config().read_timeout,
    ;

    fn write_timeout(&self) -> (r: Result<Option<u64>, IoError>)
        ensures
            r matches Ok(t) ==> t == self.config().write_timeout,
    ;

    fn set_read_timeout(&mut self, dur: Option<u64>) -> (r: Result<(), IoError>)
        ensures
            r is Ok ==> final(self).config() == (SocketConfig {
                read_timeout: dur,
                ..old(self).config()
            }),
    ;

    fn set_write_timeout(&mut self, dur: Option<u64>) -> (r: Result<(), IoError>)
        ensures
            r is Ok ==> final(self).config() == (SocketConfig {
                write_timeout: dur,
                ..old(self).config()
            }),
    ;

    fn set_nonblocking(&mut self, nonblocking: bool) -> (r: Result<(), IoError>)
        ensures
            r is Ok ==> final(self).config() == (SocketConfig {
                nonblocking,
                ..old(self).config()
            }),
    ;

    /// Shuts the connection down in both directions.
    fn shutdown(&mut self) -> (r: Result<(), IoError>);

    /// Takes the connection apart into halves that make it again. On
    /// failure it comes back as it was.
    fn split_io(self) -> (r: Result<
        (<Self as NetConnection>::Read, <Self as NetConnection>::Write),
        SplitIoError<Self>,
    >)
        ensures
            r matches Ok(halves) ==> Self::joined(halves.0, halves.1) == self,
            r matches Err(e) ==> e.original == self,
    ;

    /// Puts two halves together.
    fn from_split_io(read: <Self as NetConnection>::Read, write: <Self as NetConnection>::Write) -> (r:
        Self)
        ensures
            r == Self::joined(read, write),
    ;
}

/// A socket that listens for incoming connections.
pub trait NetListener: Sized {
    /// The connections that this listener hands out.
    type Stream: NetConnection;

    /// The addresses that a listener can be bound to.
    type Addr;

    /// The address that the listener is bound to.
    spec fn local(&self) -> Self::Addr;

    /// Whether the listener returns at once where it would have to wait.
    spec fn nonblocking(&self) -> bool;

    fn bind(addr: Self::Addr) -> (r: Result<Self, IoError>);

    /// Takes one pending connection, if there is one.
    fn accept(&mut self) -> (r: Result<Self::Stream, IoError>)
        ensures
            final(self).local() == old(self).local(),
            final(self).nonblocking() == old(self).nonblocking(),
    ;

    fn local_addr(&self) -> (a: Self::Addr)
        ensures
            a == self.local(),
    ;

    fn set_nonblocking(&mut self, nonblocking: bool) -> (r: Result<(), IoError>)
        ensures
            final(self).local() == old(self).local(),
            r is Ok ==> final(self).nonblocking() == nonblocking,
    ;
}

} // verus!
