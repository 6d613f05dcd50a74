//! Authenticated and encrypted point-to-point sessions over raw byte-stream
//! connections, built on the Noise XK handshake and driven by readiness
//! events of an external non-blocking reactor.
//!
//! A session opens with a handshake that verifies the long-term identity of
//! the peer; its address of the peer starts out bare and is promoted, once,
//! to one that carries the verified identity. A transport wraps a session
//! for a reactor and turns readiness events into session events; a listener
//! turns accept readiness into new sessions.

pub mod connection;
pub mod error;
pub mod frame;
pub mod keys;
pub mod noise;
pub mod resources;
pub mod session;
pub mod stream;
pub mod transcoder;
pub mod wire;

pub use connection::{NetConnection, NetListener, Proxy, SocketConfig};
pub use error::{ErrorKind, IoError, SessionError};
pub use noise::{Address, PeerId};
pub use session::NetSession;
