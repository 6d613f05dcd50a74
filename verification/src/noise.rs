//! Peer addresses and the Noise XK session.

use vstd::prelude::*;
use vstd::std_specs::cmp::PartialEqSpec;
use vstd::std_specs::cmp::PartialEqSpecImpl;
use cyphernet::encrypt::noise::CipherState;
use crate::connection::{NetConnection, Proxy, SocketConfig};
use crate::error::{ErrorKind, IoError, SessionError};
use crate::frame::{
    after_frame, first_body, frame_of, has_frame, put_frame, take_frame, MAX_FRAME,
};
use crate::keys::{
    same_bytes, x25519_public, x25519_public_of, x25519_secret, x25519_secret_of, NodeKeys, PublicKey,
    KEY_LEN,
};
use crate::resources::{JoinError, NetRead, NetWrite, SplitIoError};
use crate::session::NetSession;
use crate::stream::{
    delivered, drain, fill, handed_out, left_of, message_len, read_bytes, receive, sealed, send,
};
use crate::transcoder::{
    handshake_advance, handshake_need, handshake_outcome, handshake_read_len, handshake_result,
    xk_initiator, xk_responder, Handshake,
};

verus! {

/// Types that can identify a remote peer: values that are copied around
/// freely and compared for equality.
pub trait PeerId: Copy + PartialEq {}

impl<T: Copy + PartialEq> PeerId for T {}

/// Network addresses a connection can be made to.
pub trait Address: Clone + PartialEq {}

impl<T: Clone + PartialEq> Address for T {}

/// A network address together with the identity of the peer that was
/// verified to sit behind it.
#[derive(Copy, Clone, Ord, PartialOrd, Eq, Hash, Debug)]
pub struct PeerAddr<Id, A> {
    pub id: Id,
    pub addr: A,
}

impl<Id: PartialEq, A: PartialEq> PartialEq for PeerAddr<Id, A> {
    fn eq(&self, other: &Self) -> (r: bool) {
        self.id == other.id && self.addr == other.addr
    }
}

impl<Id: PartialEq, A: PartialEq> PartialEqSpecImpl for PeerAddr<Id, A> {
    open spec fn obeys_eq_spec() -> bool {
        Id::obeys_eq_spec() && A::obeys_eq_spec()
    }

    open spec fn eq_spec(&self, other: &Self) -> bool {
        self.id.eq_spec(&other.id) && self.addr.eq_spec(&other.addr)
    }
}

impl<Id, A> PeerAddr<Id, A> {
    pub fn new(id: Id, addr: A) -> (r: Self)
        ensures
            r.id == id,
            r.addr == addr,
    {
        PeerAddr { id, addr }
    }
}

/// Address of the remote end of a session: a bare network address until the
/// handshake has verified the peer, the address with the peer's identity
/// from then on.
#[derive(Copy, Clone, Ord, PartialOrd, Eq, Hash, Debug)]
pub enum XkAddr<Id, A> {
    Partial(A),
    Full(PeerAddr<Id, A>),
}

impl<Id: PartialEq, A: PartialEq> PartialEq for XkAddr<Id, A> {
    fn eq(&self, other: &Self) -> (r: bool) {
        match (self, other) {
            (XkAddr::Partial(a), XkAddr::Partial(b)) => a == b,
            (XkAddr::Full(a), XkAddr::Full(b)) => a == b,
            _ => false,
        }
    }
}

impl<Id: PartialEq, A: PartialEq> PartialEqSpecImpl for XkAddr<Id, A> {
    open spec fn obeys_eq_spec() -> bool {
        Id::obeys_eq_spec() && A::obeys_eq_spec()
    }

    open spec fn eq_spec(&self, other: &Self) -> bool {
        match (*self, *other) {
            (XkAddr::Partial(a), XkAddr::Partial(b)) => a.eq_spec(&b),
            (XkAddr::Full(a), XkAddr::Full(b)) => a.id.eq_spec(&b.id) && a.addr.eq_spec(&b.addr),
            _ => false,
        }
    }
}

impl<Id: PeerId, A: Address> XkAddr<Id, A> {
    /// The network address, whichever the variant.
    pub open spec fn addr(self) -> A {
        match self {
            XkAddr::Partial(a) => a,
            XkAddr::Full(p) => p.addr,
        }
    }

    /// The verified identity, once there is one.
    pub open spec fn identity(self) -> Option<Id> {
        match self {
            XkAddr::Partial(_) => None,
            XkAddr::Full(p) => Some(p.id),
        }
    }

    /// What `upgrade` with `id` makes of this address: a bare address
    /// becomes the one that carries `id` and the same network address; an
    /// address that carries an identity stays as it is.
    pub open spec fn upgraded(self, id: Id) -> Self {
        match self {
            XkAddr::Partial(addr) => XkAddr::Full(PeerAddr { id, addr }),
            XkAddr::Full(_) => self,
        }
    }

    /// Whether `upgrade` with `id` turns this address into `after` and
    /// returns `promoted`: only a bare address is promoted.
    pub open spec fn upgrades_to(self, id: Id, after: Self, promoted: bool) -> bool {
        after == self.upgraded(id) && promoted == (self is Partial)
    }

    /// Promotes a bare address to one that carries the verified identity
    /// `id`. An address that already carries an identity is left alone.
    pub fn upgrade(&mut self, id: Id) -> (promoted: bool)
        ensures
            *final(self) == old(self).upgraded(id),
            old(self).upgrades_to(id, *final(self), promoted),
            promoted == (*old(self) is Partial),
            *final(self) is Full,
    {
        // The network address moves from the bare address into the promoted one. A copy
        // of it stands in for it in between, and is dropped.
        let mut taken = match self {
            XkAddr::Partial(addr) => XkAddr::Partial(addr.clone()),
            XkAddr::Full(_) => {
                return false;
            },
        };
        core::mem::swap(self, &mut taken);
        match taken {
            XkAddr::Partial(addr) => {
                *self = XkAddr::Full(PeerAddr::new(id, addr));
                true
            },
            XkAddr::Full(_) => unreached(),
        }
    }

    pub fn as_addr(&self) -> (a: &A)
        ensures
            *a == self.addr(),
    {
        match self {
            XkAddr::Partial(a) => a,
            XkAddr::Full(p) => &p.addr,
        }
    }

    pub fn as_verified(&self) -> (p: Option<&PeerAddr<Id, A>>)
        ensures
            match *self {
                XkAddr::Partial(_) => p is None,
                XkAddr::Full(full) => p == Some(&full),
            },
    {
        match self {
            XkAddr::Partial(_) => None,
            XkAddr::Full(p) => Some(p),
        }
    }

    pub fn expect_peer_addr(&self) -> (p: &PeerAddr<Id, A>)
        requires
            *self is Full,
        ensures
            XkAddr::Full(*p) == *self,
    {
        match self {
            XkAddr::Partial(_) => unreached(),
            XkAddr::Full(p) => p,
        }
    }

    /// A bare address is promoted once: the first upgrade succeeds and
    /// gives the address the identity that came with it; a second upgrade,
    /// with whatever identity, fails and changes nothing.
    pub proof fn lemma_upgrade_once(
        self,
        id: Id,
        first: Self,
        promoted: bool,
        other: Id,
        second: Self,
        again: bool,
    )
        requires
            self is Partial,
            self.upgrades_to(id, first, promoted),
            first.upgrades_to(other, second, again),
        ensures
            promoted,
            first == XkAddr::Full(PeerAddr { id, addr: self.addr() }),
            !again,
            second == first,
    {
    }

    /// An upgrade never turns an address that carries an identity back into
    /// a bare one, and the network address that comes out of it is the one
    /// that went in.
    pub proof fn lemma_upgrade_keeps(self, id: Id, after: Self, promoted: bool)
        requires
            self.upgrades_to(id, after, promoted),
        ensures
            after is Full,
            self is Full ==> after == self,
            after.addr() == self.addr(),
    {
    }

    /// A bare address and an address that carries an identity never compare
    /// equal, whatever network address they hold.
    pub proof fn lemma_variants_differ(addr: A, peer: PeerAddr<Id, A>)
        ensures
            !PartialEqSpec::eq_spec(&XkAddr::<Id, A>::Partial(addr), &XkAddr::Full(peer)),
            !PartialEqSpec::eq_spec(&XkAddr::<Id, A>::Full(peer), &XkAddr::Partial(addr)),
    {
    }
}

impl<Id: Copy, A: Clone> PeerAddr<Id, A> {
    /// A copy of this address.
    pub fn duplicate(&self) -> (copy: Self)
        ensures
            copy.id == self.id,
            cloned(self.addr, copy.addr),
    {
        PeerAddr { id: self.id, addr: self.addr.clone() }
    }
}

impl<Id: Copy, A: Clone> XkAddr<Id, A> {
    /// A copy of this address.
    pub fn duplicate(&self) -> (copy: Self)
        ensures
            match (*self, copy) {
                (XkAddr::Partial(a), XkAddr::Partial(b)) => cloned(a, b),
                (XkAddr::Full(a), XkAddr::Full(b)) => a.id == b.id && cloned(a.addr, b.addr),
                _ => false,
            },
    {
        match self {
            XkAddr::Partial(addr) => XkAddr::Partial(addr.clone()),
            XkAddr::Full(peer) => XkAddr::Full(peer.duplicate()),
        }
    }
}

/// A proxy that is none: the connection dials the address itself.
pub struct NoProxy;

impl Proxy for NoProxy {
    type Error = IoError;

    fn failure(&self, err: IoError) -> (e: IoError)
        ensures
            e == err,
    {
        err
    }
}

/// What encodes and decodes the bytes of a session: the handshake while it
/// is under way, and the two ciphers that come out of it afterwards.
pub enum Transcoder {
    Handshake(Handshake),
    Active { encryptor: CipherState, decryptor: CipherState },
    /// The handshake has failed, for good.
    Failed,
}

/// The identity that a completed handshake has verified: the identity that
/// the peer was expected or has claimed to have, if the static key that the
/// handshake found the peer to own is the counterpart of that identity in
/// the key space of the handshake.
pub open spec fn verified_identity(claimed: Option<PublicKey>, peer_key: Option<[u8; 32]>) -> Option<
    PublicKey,
> {
    match (claimed, peer_key) {
        (Some(id), Some(key)) => if x25519_public_of(id.bytes@) == Some(key@) {
            Some(id)
        } else {
            None
        },
        _ => None,
    }
}

/// Decides whether the handshake has verified the identity of the peer.
pub fn verify_identity(claimed: Option<PublicKey>, peer_key: Option<[u8; 32]>) -> (id: Option<
    PublicKey,
>)
    ensures
        id == verified_identity(claimed, peer_key),
{
    match (claimed, peer_key) {
        (Some(id), Some(key)) => match x25519_public(&id.bytes) {
            Some(counterpart) => if same_bytes(&counterpart, &key) {
                Some(id)
            } else {
                None
            },
            None => None,
        },
        _ => None,
    }
}

/// The keys that the side with the identity `context` takes into a
/// handshake with the peer that has the identity `peer`: its own static key
/// and the static key that it expects of the peer, both in the key space of
/// the handshake. The local key is looked at first.
pub fn handshake_keys<E>(context: &NodeKeys, peer: &PublicKey) -> (r: Result<
    ([u8; 32], [u8; 32]),
    SessionError<E>,
>)
    ensures
        match r {
            Ok(keys) => x25519_secret_of(context.spec_ecdh().seed()@) == Some(keys.0@)
                && x25519_public_of(peer.bytes@) == Some(keys.1@),
            Err(SessionError::InvalidLocalKey) => x25519_secret_of(context.spec_ecdh().seed()@)
                is None,
            Err(SessionError::InvalidPeerKey) => x25519_secret_of(context.spec_ecdh().seed()@)
                is Some && x25519_public_of(peer.bytes@) is None,
            Err(_) => false,
        },
{
    let ecdh = context.ecdh();
    let local = match x25519_secret(ecdh.seed_bytes(), ecdh.public_bytes()) {
        Some(key) => key,
        None => {
            return Err(SessionError::InvalidLocalKey);
        },
    };
    let remote = match x25519_public(&peer.bytes) {
        Some(key) => key,
        None => {
            return Err(SessionError::InvalidPeerKey);
        },
    };
    Ok((local, remote))
}

/// The transcoder of a session whose handshake is complete. Of the two
/// ciphers that a handshake ends in, the first carries what the initiator
/// sends and the second what the responder sends.
pub open spec fn activated(initiator: bool, first: CipherState, second: CipherState) -> Transcoder {
    if initiator {
        Transcoder::Active { encryptor: first, decryptor: second }
    } else {
        Transcoder::Active { encryptor: second, decryptor: first }
    }
}

/// The transcoder of a session whose handshake is complete.
pub fn active_transcoder(initiator: bool, first: CipherState, second: CipherState) -> (t: Transcoder)
    ensures
        t == activated(initiator, first, second),
{
    if initiator {
        Transcoder::Active { encryptor: first, decryptor: second }
    } else {
        Transcoder::Active { encryptor: second, decryptor: first }
    }
}

/// The reading half of a session whose handshake is complete.
pub struct NoiseXkReader<S: NetConnection> {
    remote_addr: PeerAddr<PublicKey, S::Addr>,
    reader: <S as NetConnection>::Read,
    decryptor: CipherState,
    inbox: Vec<u8>,
    pending: Vec<u8>,
}

/// The writing half of a session whose handshake is complete.
pub struct NoiseXkWriter<S: NetConnection> {
    remote_addr: PeerAddr<PublicKey, S::Addr>,
    writer: <S as NetConnection>::Write,
    encryptor: CipherState,
    outbox: Vec<u8>,
    initiator: bool,
}

/// A session over one connection that opens with a Noise XK handshake.
pub struct NoiseXk<S: NetConnection> {
    remote_addr: XkAddr<PublicKey, S::Addr>,
    connection: S,
    transcoder: Transcoder,
    established: bool,
    /// Whether this side opened the connection.
    initiator: bool,
    /// The identity that the peer has to prove it owns, while the handshake
    /// is under way.
    claimed: Option<PublicKey>,
    /// Bytes from the connection of which no frame was made yet.
    inbox: Vec<u8>,
    /// Plaintext that was not handed out yet.
    pending: Vec<u8>,
    /// Bytes for the connection that it has not taken yet.
    outbox: Vec<u8>,
}

impl<S: NetConnection> NoiseXk<S> {
    /// The address of the peer.
    pub closed spec fn remote(&self) -> XkAddr<PublicKey, S::Addr> {
        self.remote_addr
    }

    /// The connection beneath.
    pub closed spec fn conn(&self) -> S {
        self.connection
    }

    /// What encodes and decodes the bytes of the session.
    pub closed spec fn coder(&self) -> Transcoder {
        self.transcoder
    }

    /// Whether the handshake is complete.
    pub closed spec fn done(&self) -> bool {
        self.established
    }

    /// Whether this side opened the connection.
    pub closed spec fn opened_here(&self) -> bool {
        self.initiator
    }

    /// The identity that the peer has to prove it owns.
    pub closed spec fn claim(&self) -> Option<PublicKey> {
        self.claimed
    }

    /// The bytes from the connection of which no frame was made yet.
    pub closed spec fn received(&self) -> Seq<u8> {
        self.inbox@
    }

    /// The plaintext that was not handed out yet.
    pub closed spec fn plain(&self) -> Seq<u8> {
        self.pending@
    }

    /// The bytes for the connection that it has not taken yet.
    pub closed spec fn queued(&self) -> Seq<u8> {
        self.outbox@
    }

    /// The invariant of a session. The handshake is complete exactly when
    /// the ciphers are there, and the address then carries the identity that
    /// the handshake verified. While the handshake is under way, the side
    /// that opened the connection has an address with the identity that the
    /// peer has to prove, and the other side has a bare address.
    pub open spec fn inv(&self) -> bool {
        &&& self.done() <==> self.coder() is Active
        &&& self.done() ==> self.remote() is Full && self.claim() is None
        &&& !self.done() && self.remote() is Full ==> self.claim() == self.remote().identity()
        &&& !self.done() && !self.opened_here() ==> self.remote() is Partial
    }

    /// Whether this session is `other` but for its connection.
    pub closed spec fn same_but_connection(&self, other: Self) -> bool {
        *self == (NoiseXk { connection: self.connection, ..other })
    }

    /// Whether this session is `other` but for its connection and for the
    /// bytes that came from it.
    pub closed spec fn same_but_input(&self, other: Self) -> bool {
        *self == (NoiseXk { connection: self.connection, inbox: self.inbox, ..other })
    }

    /// Whether this session is `other` but for its connection and for the
    /// bytes that wait for it.
    pub closed spec fn same_but_output(&self, other: Self) -> bool {
        *self == (NoiseXk { connection: self.connection, outbox: self.outbox, ..other })
    }

    /// This session with its handshake failed.
    pub closed spec fn failed(self) -> Self {
        NoiseXk { transcoder: Transcoder::Failed, ..self }
    }

    /// Whether the handshake of this session is under way and waits for no
    /// message of the peer.
    pub open spec fn idle(&self) -> bool {
        self.coder() matches Transcoder::Handshake(h) && handshake_need(h) == 0
    }

    /// Whether `made` is what a handshake in the role of the initiator on
    /// `connection` has come to, after its first advance answered
    /// `advanced`.
    ///
    /// Where the handshake answered with a message that fits a frame, there
    /// is a session: it holds `connection` and the handshake as the advance
    /// left it, its address carries the identity that the peer has to prove,
    /// and the message, framed, is all that waits to be written. Otherwise
    /// there is none.
    pub open spec fn initiated(
        peer_addr: PeerAddr<PublicKey, S::Addr>,
        connection: S,
        advanced: Option<(Handshake, Vec<u8>, Vec<u8>)>,
        made: Option<Self>,
    ) -> bool {
        match advanced {
            Some(step) => if step.1@.len() <= MAX_FRAME {
                &&& made matches Some(s)
                &&& s.inv()
                &&& !s.done()
                &&& s.remote() == XkAddr::Full(peer_addr)
                &&& s.conn() == connection
                &&& s.opened_here()
                &&& s.claim() == Some(peer_addr.id)
                &&& s.received().len() == 0
                &&& s.plain().len() == 0
                &&& s.coder() == Transcoder::Handshake(step.0)
                &&& s.queued() == frame_of(step.1@)
            } else {
                made is None
            },
            None => made is None,
        }
    }

    /// A session in the role of the initiator on a connection that stands:
    /// the handshake is begun, and its first message, which names the local
    /// identity `own`, waits to be written.
    ///
    /// A handshake is begun with the keys `local` and `remote` and advanced
    /// once, on no input and with the bytes of `own` as its payload. The
    /// result is what `initiated` says of the answer.
    fn initiate(
        peer_addr: PeerAddr<PublicKey, S::Addr>,
        connection: S,
        local: &[u8; 32],
        remote: &[u8; 32],
        own: &PublicKey,
    ) -> (r: Option<Self>)
        ensures
            exists|
                begun: Handshake,
                input: &[u8],
                payload: &[u8],
                advanced: Option<(Handshake, Vec<u8>, Vec<u8>)>,
            |
                {
                    &&& #[trigger] call_ensures(xk_initiator, (local, remote), begun)
                    &&& input@.len() == 0
                    &&& payload@ == own.bytes@
                    &&& #[trigger] call_ensures(handshake_advance, (begun, input, payload), advanced)
                    &&& Self::initiated(peer_addr, connection, advanced, r)
                },
            exists|advanced: Option<(Handshake, Vec<u8>, Vec<u8>)>| #[trigger]
                Self::initiated(peer_addr, connection, advanced, r),
    {
        // Called through values, so that the contract can speak of the calls.
        let begin = xk_initiator;
        let advance = handshake_advance;
        let handshake = begin(local, remote);
        let nothing: Vec<u8> = Vec::new();
        let advanced = advance(handshake, nothing.as_slice(), own.bytes.as_slice());
        let ghost seen = advanced;
        let made = match advanced {
            Some((next, act, _)) => if act.len() <= MAX_FRAME {
                let mut outbox: Vec<u8> = Vec::new();
                put_frame(&mut outbox, act.as_slice());
                let id = peer_addr.id;
                Some(
                    NoiseXk {
                        remote_addr: XkAddr::Full(peer_addr),
                        connection,
                        transcoder: Transcoder::Handshake(next),
                        established: false,
                        initiator: true,
                        claimed: Some(id),
                        inbox: Vec::new(),
                        pending: Vec::new(),
                        outbox,
                    },
                )
            } else {
                None
            },
            None => None,
        };
        assert(Self::initiated(peer_addr, connection, seen, made));
        made
    }

    /// Dials the peer through `proxy`, waits until the connection stands,
    /// and begins the handshake on it in the role of the initiator.
    ///
    /// Where a key has no counterpart in the key space of the handshake,
    /// nothing is dialled. Otherwise a copy of the network address is
    /// dialled through `proxy`, once; a failure to dial is the result, as one
    /// of the connection. On the connection that the dial gave, the
    /// handshake is begun as `initiated` says.
    pub fn connect_blocking<P: Proxy>(
        peer_addr: PeerAddr<PublicKey, S::Addr>,
        context: &NodeKeys,
        proxy: &P,
    ) -> (r: Result<Self, SessionError<P::Error>>)
        ensures
            x25519_secret_of(context.spec_ecdh().seed()@) is None <==> r matches Err(
                SessionError::InvalidLocalKey,
            ),
            x25519_secret_of(context.spec_ecdh().seed()@) is Some && x25519_public_of(
                peer_addr.id.bytes@,
            ) is None <==> r matches Err(SessionError::InvalidPeerKey),
            r matches Ok(s) ==> s.inv() && !s.done() && s.remote() == XkAddr::Full(peer_addr)
                && s.opened_here() && s.claim() == Some(peer_addr.id) && s.received().len() == 0
                && s.plain().len() == 0,
            x25519_secret_of(context.spec_ecdh().seed()@) is Some && x25519_public_of(
                peer_addr.id.bytes@,
            ) is Some ==> exists|addr: S::Addr, dial: Result<S, P::Error>|
                {
                    &&& cloned(peer_addr.addr, addr)
                    &&& #[trigger] call_ensures(S::connect_blocking::<P>, (addr, proxy), dial)
                    &&& match dial {
                        Err(err) => r == Err::<Self, SessionError<P::Error>>(
                            SessionError::Connection(err),
                        ),
                        Ok(socket) => exists|
                            advanced: Option<(Handshake, Vec<u8>, Vec<u8>)>,
                            made: Option<Self>,
                        |
                            {
                                &&& #[trigger] Self::initiated(peer_addr, socket, advanced, made)
                                &&& r == match made {
                                    Some(session) => Ok::<Self, SessionError<P::Error>>(session),
                                    None => Err::<Self, SessionError<P::Error>>(
                                        SessionError::Handshake,
                                    ),
                                }
                            },
                    }
                },
    {
        let (local, remote) = match handshake_keys(context, &peer_addr.id) {
            Ok(keys) => keys,
            Err(err) => {
                return Err(err);
            },
        };
        let socket = match S::connect_blocking(peer_addr.addr.clone(), proxy) {
            Ok(socket) => socket,
            Err(err) => {
                return Err(SessionError::Connection(err));
            },
        };
        match Self::initiate(peer_addr, socket, &local, &remote, context.pk()) {
            Some(session) => Ok(session),
            None => Err(SessionError::Handshake),
        }
    }

    /// Dials the peer through `proxy` without waiting for the connection to
    /// stand, and begins the handshake on it in the role of the initiator.
    ///
    /// Where a key has no counterpart in the key space of the handshake,
    /// nothing is dialled. Otherwise a copy of the network address is
    /// dialled through `proxy`, once; a failure to dial is the result, as one
    /// of the connection. On the connection that the dial gave, the
    /// handshake is begun as `initiated` says.
    pub fn connect_nonblocking<P: Proxy>(
        peer_addr: PeerAddr<PublicKey, S::Addr>,
        context: &NodeKeys,
        proxy: &P,
    ) -> (r: Result<Self, SessionError<P::Error>>)
        ensures
            x25519_secret_of(context.spec_ecdh().seed()@) is None <==> r matches Err(
                SessionError::InvalidLocalKey,
            ),
            x25519_secret_of(context.spec_ecdh().seed()@) is Some && x25519_public_of(
                peer_addr.id.bytes@,
            ) is None <==> r matches Err(SessionError::InvalidPeerKey),
            r matches Ok(s) ==> s.inv() && !s.done() && s.remote() == XkAddr::Full(peer_addr)
                && s.opened_here() && s.claim() == Some(peer_addr.id) && s.received().len() == 0
                && s.plain().len() == 0,
            x25519_secret_of(context.spec_ecdh().seed()@) is Some && x25519_public_of(
                peer_addr.id.bytes@,
            ) is Some ==> exists|addr: S::Addr, dial: Result<S, P::Error>|
                {
                    &&& cloned(peer_addr.addr, addr)
                    &&& #[trigger] call_ensures(S::connect_nonblocking::<P>, (addr, proxy), dial)
                    &&& match dial {
                        Err(err) => r == Err::<Self, SessionError<P::Error>>(
                            SessionError::Connection(err),
                        ),
                        Ok(socket) => exists|
                            advanced: Option<(Handshake, Vec<u8>, Vec<u8>)>,
                            made: Option<Self>,
                        |
                            {
                                &&& #[trigger] Self::initiated(peer_addr, socket, advanced, made)
                                &&& r == match made {
                                    Some(session) => Ok::<Self, SessionError<P::Error>>(session),
                                    None => Err::<Self, SessionError<P::Error>>(
                                        SessionError::Handshake,
                                    ),
                                }
                            },
                    }
                },
    {
        let (local, remote) = match handshake_keys(context, &peer_addr.id) {
            Ok(keys) => keys,
            Err(err) => {
                return Err(err);
            },
        };
        let socket = match S::connect_nonblocking(peer_addr.addr.clone(), proxy) {
            Ok(socket) => socket,
            Err(err) => {
                return Err(SessionError::Connection(err));
            },
        };
        match Self::initiate(peer_addr, socket, &local, &remote, context.pk()) {
            Some(session) => Ok(session),
            None => Err(SessionError::Handshake),
        }
    }

    /// The identity that the peer has to prove after a message of its
    /// handshake held `payload`: a responder takes the identity that the
    /// payload names.
    pub open spec fn claim_with(self, payload: Seq<u8>) -> Option<PublicKey> {
        if !self.opened_here() && payload.len() == KEY_LEN {
            Some(PublicKey::of(payload))
        } else {
            self.claim()
        }
    }

    /// Whether a session takes the answer of its handshake in without a
    /// fault.
    ///
    /// It is a fault if the handshake failed, if its message does not fit a
    /// frame, or if the peer's message names an identity to a responder that
    /// has one named already, or in other than the bytes of a key.
    pub open spec fn takes_in(self, advanced: Option<(Handshake, Vec<u8>, Vec<u8>)>) -> bool {
        &&& advanced matches Some(step)
        &&& step.1@.len() <= MAX_FRAME
        &&& !self.opened_here() && step.2@.len() > 0 ==> self.claim() is None && step.2@.len()
            == KEY_LEN
    }

    /// Whether the session takes a message of its handshake and the payload
    /// that the peer's message held in without a fault.
    fn takes(&self, act: &[u8], payload: &[u8]) -> (fine: bool)
        ensures
            fine == (act@.len() <= MAX_FRAME && (!self.opened_here() && payload@.len() > 0
                ==> self.claim() is None && payload@.len() == KEY_LEN)),
    {
        act.len() <= MAX_FRAME && (self.initiator || payload.len() == 0 || (self.claimed.is_none()
            && payload.len() == KEY_LEN))
    }

    /// The fault that a step of the handshake ends in, where it does, after
    /// the handshake answered `advanced`: invalid data where the answer is
    /// not taken in; permission denied where the handshake is complete and
    /// has not verified the identity that the peer has to prove.
    pub open spec fn step_fault(self, advanced: Option<(Handshake, Vec<u8>, Vec<u8>)>) -> Option<
        ErrorKind,
    > {
        if !self.takes_in(advanced) {
            Some(ErrorKind::InvalidData)
        } else {
            match handshake_result(advanced->Some_0.0) {
                Some(ends) => if verified_identity(
                    self.claim_with(advanced->Some_0.2@),
                    ends.2,
                ) is None {
                    Some(ErrorKind::PermissionDenied)
                } else {
                    None
                },
                None => None,
            }
        }
    }

    /// Whether a session whose handshake is under way becomes `after` and
    /// answers `r` in a step in which the handshake answered `advanced`.
    ///
    /// A fault is the result, and the handshake of the session has failed
    /// for good then; nothing else of the session changes. Otherwise the
    /// message of the handshake, where there is one, stands framed at the end
    /// of the outbox. While the handshake has come to nothing, the answer is
    /// no: the session holds the handshake as the advance left it, and a
    /// responder has taken the identity that the peer's message names. Once
    /// the handshake has come to its end, the answer is yes: the address is
    /// upgraded with the identity that the handshake verified, the ciphers
    /// that the handshake ended in become the transcoder, the session is
    /// established, and the claim is spent.
    pub open spec fn steps_to(
        self,
        advanced: Option<(Handshake, Vec<u8>, Vec<u8>)>,
        after: Self,
        r: Result<bool, IoError>,
    ) -> bool {
        match self.step_fault(advanced) {
            Some(kind) => r == Err::<bool, IoError>(IoError { kind, code: None }) && after
                == self.failed(),
            None => {
                let step = advanced->Some_0;
                &&& after.conn() == self.conn()
                &&& after.opened_here() == self.opened_here()
                &&& after.received() == self.received()
                &&& after.plain() == self.plain()
                &&& after.queued() == if step.1@.len() > 0 {
                    self.queued() + frame_of(step.1@)
                } else {
                    self.queued()
                }
                &&& match handshake_result(step.0) {
                    None => {
                        &&& r == Ok::<bool, IoError>(false)
                        &&& after.coder() == Transcoder::Handshake(step.0)
                        &&& after.claim() == self.claim_with(step.2@)
                        &&& after.remote() == self.remote()
                        &&& !after.done()
                    },
                    Some(ends) => {
                        &&& r == Ok::<bool, IoError>(true)
                        &&& verified_identity(self.claim_with(step.2@), ends.2) matches Some(id)
                        &&& self.remote().upgrades_to(id, after.remote(), self.remote() is Partial)
                        &&& after.coder() == activated(self.opened_here(), ends.0, ends.1)
                        &&& after.done()
                        &&& after.claim() is None
                    },
                }
            },
        }
    }

    /// Looks whether the handshake `next`, which the session has taken on
    /// to, is complete, and settles the session accordingly: `steps_to` says
    /// how. The session comes with its handshake taken out of it; `claimed`
    /// is the identity that the peer has to prove, and `act` the message of
    /// the handshake, which fits a frame.
    fn complete(&mut self, next: Handshake, claimed: Option<PublicKey>, act: &[u8]) -> (r: Result<
        bool,
        IoError,
    >)
        requires
            old(self).inv(),
            old(self).coder() is Failed,
            !old(self).done(),
            act@.len() <= MAX_FRAME,
            old(self).remote() is Full ==> claimed == old(self).remote().identity(),
            !old(self).opened_here() ==> old(self).remote() is Partial,
        ensures
            final(self).inv(),
            final(self).conn() == old(self).conn(),
            final(self).opened_here() == old(self).opened_here(),
            final(self).received() == old(self).received(),
            final(self).plain() == old(self).plain(),
            match handshake_result(next) {
                None => {
                    &&& r == Ok::<bool, IoError>(false)
                    &&& final(self).coder() == Transcoder::Handshake(next)
                    &&& final(self).claim() == claimed
                    &&& final(self).remote() == old(self).remote()
                    &&& !final(self).done()
                    &&& final(self).queued() == if act@.len() > 0 {
                        old(self).queued() + frame_of(act@)
                    } else {
                        old(self).queued()
                    }
                },
                Some(ends) => match verified_identity(claimed, ends.2) {
                    None => r == Err::<bool, IoError>(
                        IoError { kind: ErrorKind::PermissionDenied, code: None },
                    ) && *final(self) == *old(self),
                    Some(id) => {
                        &&& r == Ok::<bool, IoError>(true)
                        &&& old(self).remote().upgrades_to(
                            id,
                            final(self).remote(),
                            old(self).remote() is Partial,
                        )
                        &&& final(self).coder() == activated(old(self).opened_here(), ends.0, ends.1)
                        &&& final(self).done()
                        &&& final(self).claim() is None
                        &&& final(self).queued() == if act@.len() > 0 {
                            old(self).queued() + frame_of(act@)
                        } else {
                            old(self).queued()
                        }
                    },
                },
            },
    {
        match handshake_outcome(&next) {
            None => {
                if act.len() > 0 {
                    put_frame(&mut self.outbox, act);
                }
                self.claimed = claimed;
                self.transcoder = Transcoder::Handshake(next);
                Ok(false)
            },
            Some((first, second, peer_key)) => {
                let id = match verify_identity(claimed, peer_key) {
                    Some(id) => id,
                    None => {
                        return Err(IoError::from_kind(ErrorKind::PermissionDenied));
                    },
                };
                if act.len() > 0 {
                    put_frame(&mut self.outbox, act);
                }
                self.remote_addr.upgrade(id);
                self.transcoder = active_transcoder(self.initiator, first, second);
                self.established = true;
                self.claimed = None;
                Ok(true)
            },
        }
    }

    /// One step of the handshake: it reads `input` as the next message of
    /// the peer, where it waits for one, and puts its own next message into
    /// the outbox. A responder takes the identity that the peer claims from
    /// the first message that names one. The result says whether the
    /// handshake is complete now.
    ///
    /// The handshake is advanced on `input`, with no payload of its own, and
    /// the session becomes what `steps_to` says of the answer. A handshake
    /// that failed is not advanced again.
    fn step(&mut self, input: &[u8]) -> (r: Result<bool, IoError>)
        requires
            old(self).inv(),
            !old(self).done(),
            old(self).coder() matches Transcoder::Handshake(h) && input@.len() >= handshake_need(h),
        ensures
            final(self).inv(),
            r matches Ok(done) ==> done == final(self).done(),
            r is Err ==> *final(self) == old(self).failed(),
            final(self).conn() == old(self).conn(),
            final(self).opened_here() == old(self).opened_here(),
            final(self).received() == old(self).received(),
            final(self).plain() == old(self).plain(),
            old(self).remote() is Full ==> final(self).remote() == old(self).remote(),
            !final(self).done() ==> final(self).remote() == old(self).remote(),
            final(self).remote().addr() == old(self).remote().addr(),
            final(self).remote() is Full ==> old(self).remote() is Full || final(self).done(),
            exists|
                handshake: Handshake,
                payload: &[u8],
                advanced: Option<(Handshake, Vec<u8>, Vec<u8>)>,
            |
                {
                    &&& old(self).coder() == Transcoder::Handshake(handshake)
                    &&& payload@.len() == 0
                    &&& #[trigger] call_ensures(handshake_advance, (handshake, input, payload), advanced)
                    &&& old(self).steps_to(advanced, *final(self), r)
                },
            exists|advanced: Option<(Handshake, Vec<u8>, Vec<u8>)>| #[trigger]
                old(self).steps_to(advanced, *final(self), r),
    {
        let mut taken = Transcoder::Failed;
        core::mem::swap(&mut self.transcoder, &mut taken);
        let handshake = match taken {
            Transcoder::Handshake(handshake) => handshake,
            _ => unreached(),
        };
        // Called through a value, so that the contract can speak of the call.
        let advance = handshake_advance;
        let nothing: Vec<u8> = Vec::new();
        let advanced = advance(handshake, input, nothing.as_slice());
        let ghost seen = advanced;
        let r = match advanced {
            Some((next, act, payload)) => if self.takes(act.as_slice(), payload.as_slice()) {
                let claimed = if !self.initiator && payload.len() == KEY_LEN {
                    PublicKey::from_slice(payload.as_slice())
                } else {
                    self.claimed
                };
                self.complete(next, claimed, act.as_slice())
            } else {
                Err(IoError::from_kind(ErrorKind::InvalidData))
            },
            None => Err(IoError::from_kind(ErrorKind::InvalidData)),
        };
        assert(old(self).steps_to(seen, *self, r));
        r
    }

    /// Whether a session whose handshake is under way becomes `after` and
    /// answers `r` when the handshake is taken on from a message of the
    /// peer.
    ///
    /// The handshake takes one step. Where that did not complete it and it
    /// waits for no message then, it takes one more step: the last message
    /// of the initiator is followed by the step that completes the
    /// handshake. A fault of a step is the result.
    pub open spec fn proceeds_to(self, after: Self, r: Result<(), IoError>) -> bool {
        exists|advanced: Option<(Handshake, Vec<u8>, Vec<u8>)>, mid: Self, first: Result<bool, IoError>|
            {
                &&& #[trigger] self.steps_to(advanced, mid, first)
                &&& match first {
                    Err(err) => after == mid && r == Err::<(), IoError>(err),
                    Ok(done) => if !done && mid.idle() {
                        exists|again: Option<(Handshake, Vec<u8>, Vec<u8>)>, last: Result<bool, IoError>|
                            {
                                &&& #[trigger] mid.steps_to(again, after, last)
                                &&& r == match last {
                                    Ok(_) => Ok::<(), IoError>(()),
                                    Err(err) => Err::<(), IoError>(err),
                                }
                            }
                    } else {
                        after == mid && r == Ok::<(), IoError>(())
                    },
                }
            }
    }

    /// Takes the handshake on from a message of the peer, as `proceeds_to`
    /// says: one step on `act`, and one more on nothing where the handshake
    /// is not complete then and waits for no message.
    fn proceed(&mut self, act: &[u8]) -> (r: Result<(), IoError>)
        requires
            old(self).inv(),
            !old(self).done(),
            old(self).coder() matches Transcoder::Handshake(h) && act@.len() >= handshake_need(h),
        ensures
            final(self).inv(),
            final(self).conn() == old(self).conn(),
            final(self).opened_here() == old(self).opened_here(),
            final(self).received() == old(self).received(),
            final(self).plain() == old(self).plain(),
            old(self).remote() is Full ==> final(self).remote() == old(self).remote(),
            !final(self).done() ==> final(self).remote() == old(self).remote(),
            final(self).remote().addr() == old(self).remote().addr(),
            final(self).remote() is Full ==> old(self).remote() is Full || final(self).done(),
            old(self).proceeds_to(*final(self), r),
            exists|first: &mut Self, stepped: Result<bool, IoError>|
                {
                    &&& *first == *old(self)
                    &&& #[trigger] call_ensures(Self::step, (first, act), stepped)
                    &&& match stepped {
                        Err(err) => r == Err::<(), IoError>(err) && *final(self) == *final(first),
                        Ok(done) => if !done && final(first).idle() {
                            exists|second: &mut Self, nothing: &[u8], again: Result<bool, IoError>|
                                {
                                    &&& *second == *final(first)
                                    &&& *final(second) == *final(self)
                                    &&& nothing@.len() == 0
                                    &&& #[trigger] call_ensures(Self::step, (second, nothing), again)
                                    &&& r == match again {
                                        Ok(_) => Ok::<(), IoError>(()),
                                        Err(err) => Err::<(), IoError>(err),
                                    }
                                }
                        } else {
                            r == Ok::<(), IoError>(()) && *final(self) == *final(first)
                        },
                    }
                },
    {
        // Called through a value, so that the contract can speak of the calls.
        let step = Self::step;
        let done = match step(self, act) {
            Ok(done) => done,
            Err(err) => {
                return Err(err);
            },
        };
        let ghost mid = *self;
        let idle = match &self.transcoder {
            Transcoder::Handshake(handshake) => handshake_read_len(handshake) == 0,
            _ => false,
        };
        if !done && idle {
            let nothing: Vec<u8> = Vec::new();
            match step(self, nothing.as_slice()) {
                Ok(_) => Ok(()),
                Err(err) => Err(err),
            }
        } else {
            Ok(())
        }
    }

    /// Gets the next message of the peer for the handshake, where the
    /// handshake waits for one.
    ///
    /// A handshake that waits for no message gets an empty one, and nothing
    /// is touched. Otherwise the connection is asked for what the inbox
    /// lacks to begin with a whole frame. A failure of the connection is the
    /// result; the end of the stream is the error `UnexpectedEof`. Where the
    /// inbox does not begin with a whole frame after that, there is no
    /// message yet. Where it does, the frame is taken off the inbox, and its
    /// message is the result, unless it is shorter than what the handshake
    /// reads off the front of a message: that is the error `InvalidData`, and
    /// the handshake has failed for good.
    pub fn feed(&mut self) -> (r: Result<Option<Vec<u8>>, IoError>)
        requires
            old(self).inv(),
            !old(self).done(),
            old(self).coder() is Handshake,
        ensures
            final(self).inv(),
            !final(self).done(),
            final(self).same_but_input(*old(self)) || final(self).same_but_input(old(self).failed()),
            r is Ok ==> final(self).same_but_input(*old(self)),
            r matches Ok(Some(act)) ==> (old(self).coder() matches Transcoder::Handshake(h)
                && act@.len() >= handshake_need(h)),
            old(self).coder() matches Transcoder::Handshake(h) && (if handshake_need(h) == 0 {
                &&& r matches Ok(Some(act)) && act@.len() == 0
                &&& *final(self) == *old(self)
            } else {
                exists|c: &mut S, i: &mut Vec<u8>, ended: Result<bool, IoError>|
                    {
                        &&& *c == old(self).conn()
                        &&& i@ == old(self).received()
                        &&& *final(c) == final(self).conn()
                        &&& #[trigger] call_ensures(fill::<S>, (c, i), ended)
                        &&& match ended {
                            Err(err) => r == Err::<Option<Vec<u8>>, IoError>(err)
                                && final(self).received() == final(i)@ && final(self).same_but_input(*old(self)),
                            Ok(true) => r == Err::<Option<Vec<u8>>, IoError>(
                                IoError { kind: ErrorKind::UnexpectedEof, code: None },
                            ) && final(self).received() == final(i)@ && final(self).same_but_input(
                                *old(self),
                            ),
                            Ok(false) => if !has_frame(final(i)@) {
                                r matches Ok(None) && final(self).received() == final(i)@
                            } else {
                                &&& final(self).received() == after_frame(final(i)@)
                                &&& if first_body(final(i)@).len() < handshake_need(h) {
                                    r == Err::<Option<Vec<u8>>, IoError>(
                                        IoError { kind: ErrorKind::InvalidData, code: None },
                                    ) && final(self).same_but_input(old(self).failed())
                                } else {
                                    r matches Ok(Some(act)) && act@ == first_body(final(i)@)
                                }
                            },
                        }
                    }
            }),
    {
        let need = match &self.transcoder {
            Transcoder::Handshake(handshake) => handshake_read_len(handshake),
            _ => 0,
        };
        if need == 0 {
            return Ok(Some(Vec::new()));
        }
        // Called through a value, so that the contract can speak of the call.
        let ask = fill::<S>;
        match ask(&mut self.connection, &mut self.inbox) {
            Ok(ended) => {
                if ended {
                    return Err(IoError::from_kind(ErrorKind::UnexpectedEof));
                }
            },
            Err(err) => {
                return Err(err);
            },
        }
        let act = match take_frame(&mut self.inbox) {
            Some(act) => act,
            None => {
                return Ok(None);
            },
        };
        if act.len() < need {
            self.transcoder = Transcoder::Failed;
            return Err(IoError::from_kind(ErrorKind::InvalidData));
        }
        Ok(Some(act))
    }

    /// Hands the connection what waits for it, as `drain` does. That the
    /// connection would block is no failure here: what it did not take goes
    /// on waiting.
    pub fn hand_over(&mut self) -> (r: Result<(), IoError>)
        ensures
            final(self).same_but_output(*old(self)),
            exists|c: &mut S, o: &mut Vec<u8>, drained: Result<(), IoError>|
                {
                    &&& *c == old(self).conn()
                    &&& o@ == old(self).queued()
                    &&& *final(c) == final(self).conn()
                    &&& final(o)@ == final(self).queued()
                    &&& #[trigger] call_ensures(drain::<S>, (c, o), drained)
                    &&& r == match drained {
                        Ok(_) => Ok::<(), IoError>(()),
                        Err(err) => if err.kind == ErrorKind::WouldBlock {
                            Ok::<(), IoError>(())
                        } else {
                            Err::<(), IoError>(err)
                        },
                    }
                },
    {
        // Called through a value, so that the contract can speak of the call.
        let empty = drain::<S>;
        match empty(&mut self.connection, &mut self.outbox) {
            Ok(_) => Ok(()),
            Err(err) => if err.would_block() {
                Ok(())
            } else {
                Err(err)
            },
        }
    }

    /// Reads while the handshake is not complete: the next message of the
    /// peer feeds the handshake, what the handshake answers is written, and
    /// the handshake is completed where it can be. The result is never
    /// application data.
    ///
    /// A session whose handshake has failed is not connected, and stays as
    /// it is. Otherwise the session gets the next message of the peer as
    /// `feed` does. A failure to do so is the result; where there is no
    /// message yet, the result is empty. With the message, the handshake is
    /// taken on as `proceeds_to` says, and the session then hands the
    /// connection what waits for it, as `hand_over` does. The first failure
    /// is the result, and the result is empty otherwise.
    pub fn read_handshake(&mut self) -> (r: Result<Vec<u8>, IoError>)
        requires
            old(self).inv(),
            !old(self).done(),
        ensures
            final(self).inv(),
            r matches Ok(data) ==> data@.len() == 0,
            final(self).opened_here() == old(self).opened_here(),
            final(self).plain() == old(self).plain(),
            old(self).remote() is Full ==> final(self).remote() == old(self).remote(),
            !final(self).done() ==> final(self).remote() == old(self).remote(),
            final(self).remote().addr() == old(self).remote().addr(),
            final(self).remote() is Full ==> old(self).remote() is Full || final(self).done(),
            old(self).coder() is Failed ==> *final(self) == *old(self) && r == Err::<Vec<u8>, IoError>(
                IoError { kind: ErrorKind::NotConnected, code: None },
            ),
            old(self).coder() is Handshake ==> exists|
                feeding: &mut Self,
                fed: Result<Option<Vec<u8>>, IoError>,
            |
                {
                    &&& *feeding == *old(self)
                    &&& #[trigger] call_ensures(Self::feed, (feeding,), fed)
                    &&& match fed {
                        Err(err) => r == Err::<Vec<u8>, IoError>(err)
                            && *final(self) == *final(feeding),
                        Ok(None) => r is Ok && *final(self) == *final(feeding),
                        Ok(Some(_)) => exists|stepped: Self, gone: Result<(), IoError>|
                            {
                                &&& #[trigger] final(feeding).proceeds_to(stepped, gone)
                                &&& match gone {
                                    Err(err) => r == Err::<Vec<u8>, IoError>(err) && *final(self)
                                        == stepped,
                                    Ok(_) => exists|last: &mut Self, handed: Result<(), IoError>|
                                        {
                                            &&& *last == stepped
                                            &&& *final(last) == *final(self)
                                            &&& #[trigger] call_ensures(
                                                Self::hand_over,
                                                (last,),
                                                handed,
                                            )
                                            &&& match handed {
                                                Err(err) => r == Err::<Vec<u8>, IoError>(err),
                                                Ok(_) => r is Ok,
                                            }
                                        },
                                }
                            },
                    }
                },
    {
        if let Transcoder::Failed = &self.transcoder {
            return Err(IoError::from_kind(ErrorKind::NotConnected));
        }
        // Called through values, so that the contract can speak of the calls.
        let feed = Self::feed;
        let hand_over = Self::hand_over;
        let act = match feed(self) {
            Ok(Some(act)) => act,
            Ok(None) => {
                return Ok(Vec::new());
            },
            Err(err) => {
                return Err(err);
            },
        };
        let ghost fed = *self;
        match self.proceed(act.as_slice()) {
            Ok(_) => {},
            Err(err) => {
                return Err(err);
            },
        }
        match hand_over(self) {
            Ok(_) => Ok(Vec::new()),
            Err(err) => Err(err),
        }
    }

    /// The connection beneath.
    pub fn as_connection(&self) -> (connection: &S)
        ensures
            *connection == self.conn(),
    {
        &self.connection
    }

    /// The address of the peer as it is known by now.
    pub fn transient_addr(&self) -> (addr: XkAddr<PublicKey, S::Addr>)
        ensures
            match (self.remote(), addr) {
                (XkAddr::Partial(a), XkAddr::Partial(b)) => cloned(a, b),
                (XkAddr::Full(a), XkAddr::Full(b)) => a.id == b.id && cloned(a.addr, b.addr),
                _ => false,
            },
    {
        self.remote_addr.duplicate()
    }

    /// The address of the peer with its identity, once it carries one.
    pub fn peer_addr(&self) -> (addr: Option<PeerAddr<PublicKey, S::Addr>>)
        ensures
            match (self.remote(), addr) {
                (XkAddr::Partial(_), None) => true,
                (XkAddr::Full(a), Some(b)) => a.id == b.id && cloned(a.addr, b.addr),
                _ => false,
            },
    {
        match &self.remote_addr {
            XkAddr::Partial(_) => None,
            XkAddr::Full(addr) => Some(addr.duplicate()),
        }
    }
}

impl<S: NetConnection> NoiseXkReader<S> {
    /// The address of the peer.
    pub closed spec fn remote(&self) -> PeerAddr<PublicKey, S::Addr> {
        self.remote_addr
    }

    /// The plaintext that was not handed out yet.
    pub closed spec fn plain(&self) -> Seq<u8> {
        self.pending@
    }

    /// The bytes from the connection of which no frame was made yet.
    pub closed spec fn received(&self) -> Seq<u8> {
        self.inbox@
    }

    /// The cipher that decrypts what comes in.
    pub closed spec fn cipher(&self) -> CipherState {
        self.decryptor
    }

    /// The reading half of the connection.
    pub closed spec fn source(&self) -> <S as NetConnection>::Read {
        self.reader
    }

    pub fn remote_addr(&self) -> (addr: &PeerAddr<PublicKey, S::Addr>)
        ensures
            *addr == self.remote(),
    {
        &self.remote_addr
    }
}

impl<S: NetConnection> NetRead for NoiseXkReader<S> {
    /// What `receive` does on the reading half of the connection, with the
    /// cipher that decrypts what comes in: plaintext that is waiting is
    /// handed out first; otherwise the next whole frame that came in is
    /// decrypted, after the connection was asked for what it lacked.
    fn read(&mut self, limit: usize) -> (r: Result<Vec<u8>, IoError>)
        ensures
            final(self).remote() == old(self).remote(),
            old(self).plain().len() > 0 ==> (r matches Ok(data) && data@ == handed_out(
                old(self).plain(),
                limit,
            )),
            old(self).plain().len() > 0 ==> final(self).cipher() == old(self).cipher()
                && final(self).received() == old(self).received(),
            old(self).plain().len() == 0 && has_frame(old(self).received()) ==> read_bytes(r)
                == delivered(old(self).cipher(), old(self).received(), limit) && final(self).received()
                == after_frame(old(self).received()),
            exists|
                source: &mut <S as NetConnection>::Read,
                cipher: &mut CipherState,
                inbox: &mut Vec<u8>,
                pending: &mut Vec<u8>,
            |
                {
                    &&& *source == old(self).source() && *final(source) == final(self).source()
                    &&& *cipher == old(self).cipher() && *final(cipher) == final(self).cipher()
                    &&& inbox@ == old(self).received() && final(inbox)@ == final(self).received()
                    &&& pending@ == old(self).plain() && final(pending)@ == final(self).plain()
                    &&& #[trigger] call_ensures(
                        receive::<<S as NetConnection>::Read>,
                        (source, cipher, inbox, pending, limit),
                        r,
                    )
                },
    {
        // Called through a value, so that the contract can speak of the call.
        let take = receive::<<S as NetConnection>::Read>;
        take(&mut self.reader, &mut self.decryptor, &mut self.inbox, &mut self.pending, limit)
    }
}

impl<S: NetConnection> NoiseXkWriter<S> {
    /// The address of the peer.
    pub closed spec fn remote(&self) -> PeerAddr<PublicKey, S::Addr> {
        self.remote_addr
    }

    /// The bytes for the connection that it has not taken yet.
    pub closed spec fn queued(&self) -> Seq<u8> {
        self.outbox@
    }

    /// The cipher that encrypts what goes out.
    pub closed spec fn cipher(&self) -> CipherState {
        self.encryptor
    }

    /// The writing half of the connection.
    pub closed spec fn sink(&self) -> <S as NetConnection>::Write {
        self.writer
    }

    pub fn remote_addr(&self) -> (addr: &PeerAddr<PublicKey, S::Addr>)
        ensures
            *addr == self.remote(),
    {
        &self.remote_addr
    }
}

impl<S: NetConnection> NetWrite for NoiseXkWriter<S> {
    /// What `send` does on the writing half of the connection, with the
    /// cipher that encrypts what goes out: the ciphertext of the message
    /// goes out in one frame, behind what the connection has not taken yet.
    fn write(&mut self, buf: &[u8]) -> (r: Result<usize, IoError>)
        ensures
            final(self).remote() == old(self).remote(),
            r matches Ok(n) ==> n == message_len(buf@.len()),
            buf@.len() > 0 ==> match sealed(old(self).cipher(), buf@) {
                Some(ciphertext) => left_of(
                    final(self).queued(),
                    old(self).queued() + frame_of(ciphertext),
                ),
                None => r == Err::<usize, IoError>(
                    IoError { kind: ErrorKind::InvalidData, code: None },
                ) && final(self).queued() == old(self).queued(),
            },
            buf@.len() == 0 ==> final(self).queued() == old(self).queued() && final(self).cipher()
                == old(self).cipher(),
            exists|
                sink: &mut <S as NetConnection>::Write,
                cipher: &mut CipherState,
                outbox: &mut Vec<u8>,
            |
                {
                    &&& *sink == old(self).sink() && *final(sink) == final(self).sink()
                    &&& *cipher == old(self).cipher() && *final(cipher) == final(self).cipher()
                    &&& outbox@ == old(self).queued() && final(outbox)@ == final(self).queued()
                    &&& #[trigger] call_ensures(
                        send::<<S as NetConnection>::Write>,
                        (sink, cipher, outbox, buf),
                        r,
                    )
                },
    {
        // Called through a value, so that the contract can speak of the call.
        let put = send::<<S as NetConnection>::Write>;
        put(&mut self.writer, &mut self.encryptor, &mut self.outbox, buf)
    }

    /// What `drain` does on the writing half of the connection.
    fn flush(&mut self) -> (r: Result<(), IoError>)
        ensures
            final(self).remote() == old(self).remote(),
            final(self).cipher() == old(self).cipher(),
            left_of(final(self).queued(), old(self).queued()),
            exists|sink: &mut <S as NetConnection>::Write, outbox: &mut Vec<u8>|
                {
                    &&& *sink == old(self).sink() && *final(sink) == final(self).sink()
                    &&& outbox@ == old(self).queued() && final(outbox)@ == final(self).queued()
                    &&& #[trigger] call_ensures(
                        drain::<<S as NetConnection>::Write>,
                        (sink, outbox),
                        r,
                    )
                },
    {
        // Called through a value, so that the contract can speak of the call.
        let empty = drain::<<S as NetConnection>::Write>;
        empty(&mut self.writer, &mut self.outbox)
    }
}

impl<S: NetConnection> NoiseXk<S> {
    /// Whether `reader` and `writer` are the halves that this session comes
    /// apart into: between them they hold all that the session holds, and
    /// each has the address of the peer.
    pub closed spec fn splits_into(&self, reader: NoiseXkReader<S>, writer: NoiseXkWriter<S>) -> bool {
        &&& self.remote_addr == XkAddr::Full(reader.remote_addr)
        &&& writer.remote_addr.id == reader.remote_addr.id
        &&& cloned(reader.remote_addr.addr, writer.remote_addr.addr)
        &&& self.connection == S::joined(reader.reader, writer.writer)
        &&& self.transcoder == (Transcoder::Active {
            encryptor: writer.encryptor,
            decryptor: reader.decryptor,
        })
        &&& self.initiator == writer.initiator
        &&& self.inbox == reader.inbox
        &&& self.pending == reader.pending
        &&& self.outbox == writer.outbox
    }

    /// The session that two halves make.
    pub closed spec fn joined(reader: NoiseXkReader<S>, writer: NoiseXkWriter<S>) -> Self {
        NoiseXk {
            remote_addr: XkAddr::Full(reader.remote_addr),
            connection: S::joined(reader.reader, writer.writer),
            transcoder: Transcoder::Active {
                encryptor: writer.encryptor,
                decryptor: reader.decryptor,
            },
            established: true,
            initiator: writer.initiator,
            claimed: None,
            inbox: reader.inbox,
            pending: reader.pending,
            outbox: writer.outbox,
        }
    }

    /// Takes an established session apart into a reading and a writing half
    /// that can be owned independently. A session whose handshake is not
    /// complete is not connected: it comes back as it was. The connection of
    /// an established session is asked to come apart: where it does, so does
    /// the session; where it does not, the session comes back as it was,
    /// with the connection's reason.
    pub fn split_io(self) -> (r: Result<(NoiseXkReader<S>, NoiseXkWriter<S>), SplitIoError<Self>>)
        requires
            self.inv(),
        ensures
            !self.done() ==> (r matches Err(e) && e.error == (IoError {
                kind: ErrorKind::NotConnected,
                code: None,
            })),
            r matches Err(e) ==> e.original == self,
            r matches Ok(halves) ==> self.done() && self.splits_into(halves.0, halves.1),
            self.done() ==> exists|
                parted: Result<
                    (<S as NetConnection>::Read, <S as NetConnection>::Write),
                    SplitIoError<S>,
                >,
            |
                {
                    &&& #[trigger] call_ensures(S::split_io, (self.conn(),), parted)
                    &&& match parted {
                        Ok(_) => r is Ok,
                        Err(failed) => (r matches Err(e) && e.error == failed.error),
                    }
                },
    {
        if !self.established {
            return Err(
                SplitIoError { original: self, error: IoError::from_kind(ErrorKind::NotConnected) },
            );
        }
        let NoiseXk {
            remote_addr,
            connection,
            transcoder,
            established,
            initiator,
            claimed,
            inbox,
            pending,
            outbox,
        } = self;
        let parted = S::split_io(connection);
        assert(call_ensures(S::split_io, (self.conn(),), parted));
        let (reader, writer) = match parted {
            Ok(halves) => halves,
            Err(SplitIoError { original, error }) => {
                return Err(
                    SplitIoError {
                        original: NoiseXk {
                            remote_addr,
                            connection: original,
                            transcoder,
                            established,
                            initiator,
                            claimed,
                            inbox,
                            pending,
                            outbox,
                        },
                        error,
                    },
                );
            },
        };
        let peer_addr = match remote_addr {
            XkAddr::Full(addr) => addr,
            XkAddr::Partial(_) => unreached(),
        };
        let (encryptor, decryptor) = match transcoder {
            Transcoder::Active { encryptor, decryptor } => (encryptor, decryptor),
            _ => unreached(),
        };
        let writer_addr = peer_addr.duplicate();
        Ok(
            (
                NoiseXkReader { remote_addr: peer_addr, reader, decryptor, inbox, pending },
                NoiseXkWriter { remote_addr: writer_addr, writer, encryptor, outbox, initiator },
            ),
        )
    }

    /// Puts a reading and a writing half together into an established
    /// session. Halves that do not name the same peer address are not
    /// merged: they come back as they were. The identities are compared by
    /// their bytes; where they are the same, the network addresses are
    /// compared by their `==`, whose answer decides.
    pub fn from_split_io(read: NoiseXkReader<S>, write: NoiseXkWriter<S>) -> (r: Result<
        Self,
        JoinError<NoiseXkReader<S>, NoiseXkWriter<S>>,
    >)
        ensures
            r matches Ok(s) ==> s == Self::joined(read, write) && s.inv() && s.done(),
            r matches Err(e) ==> e.read == read && e.write == write,
            read.remote().id.bytes@ != write.remote().id.bytes@ ==> r is Err,
            read.remote().id.bytes@ == write.remote().id.bytes@ ==> exists|same: bool|
                #[trigger] call_ensures(
                    <S::Addr as PartialEq>::eq,
                    (&read.remote().addr, &write.remote().addr),
                    same,
                ) && (r is Ok <==> same),
            <S::Addr as PartialEqSpec>::obeys_eq_spec() ==> (r is Ok <==> read.remote().id.bytes@
                == write.remote().id.bytes@ && read.remote().addr.eq_spec(&write.remote().addr)),
    {
        let same = same_bytes(&read.remote_addr.id.bytes, &write.remote_addr.id.bytes)
            && read.remote_addr.addr == write.remote_addr.addr;
        if !same {
            return Err(JoinError { read, write });
        }
        let NoiseXkReader { remote_addr, reader, decryptor, inbox, pending } = read;
        let NoiseXkWriter { remote_addr: _, writer, encryptor, outbox, initiator } = write;
        Ok(
            NoiseXk {
                remote_addr: XkAddr::Full(remote_addr),
                connection: S::from_split_io(reader, writer),
                transcoder: Transcoder::Active { encryptor, decryptor },
                established: true,
                initiator,
                claimed: None,
                inbox,
                pending,
                outbox,
            },
        )
    }

    /// Taking an established session apart and putting the halves together
    /// gives the session back: the same address of the peer, the same
    /// connection, and the same ciphers in the state they were in.
    pub proof fn lemma_split_join(self, reader: NoiseXkReader<S>, writer: NoiseXkWriter<S>)
        requires
            self.inv(),
            self.done(),
            self.splits_into(reader, writer),
        ensures
            Self::joined(reader, writer) == self,
    {
    }

    /// What two halves make is an established session that names the peer
    /// as the reading half does, and holds what the halves held.
    pub proof fn lemma_joined(reader: NoiseXkReader<S>, writer: NoiseXkWriter<S>)
        ensures
            Self::joined(reader, writer).inv(),
            Self::joined(reader, writer).done(),
            Self::joined(reader, writer).remote() == XkAddr::Full(reader.remote()),
            Self::joined(reader, writer).plain() == reader.plain(),
            Self::joined(reader, writer).received() == reader.received(),
            Self::joined(reader, writer).queued() == writer.queued(),
    {
    }

    /// The halves of a session name the peer as the session does: the
    /// reading half has the address itself, the writing half a copy of it.
    pub proof fn lemma_halves(self, reader: NoiseXkReader<S>, writer: NoiseXkWriter<S>)
        requires
            self.splits_into(reader, writer),
        ensures
            self.remote() == XkAddr::Full(reader.remote()),
            writer.remote().id == reader.remote().id,
            cloned(reader.remote().addr, writer.remote().addr),
            reader.plain() == self.plain(),
            reader.received() == self.received(),
            writer.queued() == self.queued(),
    {
    }
}

impl<S: NetConnection> NetSession for NoiseXk<S> {
    type Context = NodeKeys;

    type Connection = S;

    type Id = PublicKey;

    open spec fn wf(&self) -> bool {
        self.inv()
    }

    open spec fn established(&self) -> bool {
        self.done()
    }

    open spec fn identity(&self) -> Option<PublicKey> {
        self.remote().identity()
    }

    open spec fn config(&self) -> SocketConfig {
        self.conn().config()
    }

    open spec fn local(&self) -> S::Addr {
        self.conn().local()
    }

    open spec fn unsent(&self) -> bool {
        self.queued().len() > 0
    }

    /// Never fails: every local identity key has a counterpart in the key
    /// space of the handshake.
    fn accept(connection: S, context: &NodeKeys) -> (r: Result<Self, SessionError<IoError>>)
        ensures
            r is Ok <==> x25519_secret_of(context.spec_ecdh().seed()@) is Some,
            r is Ok,
            r matches Ok(s) ==> {
                &&& s.remote() == XkAddr::<PublicKey, S::Addr>::Partial(connection.remote())
                &&& s.conn() == connection
                &&& !s.opened_here()
                &&& s.claim() is None
                &&& s.received().len() == 0
                &&& s.plain().len() == 0
                &&& s.queued().len() == 0
            },
    {
        let ecdh = context.ecdh();
        let local = match x25519_secret(ecdh.seed_bytes(), ecdh.public_bytes()) {
            Some(key) => key,
            None => {
                return Err(SessionError::InvalidLocalKey);
            },
        };
        let addr = connection.remote_addr();
        Ok(
            NoiseXk {
                remote_addr: XkAddr::Partial(addr),
                connection,
                transcoder: Transcoder::Handshake(xk_responder(&local)),
                established: false,
                initiator: false,
                claimed: None,
                inbox: Vec::new(),
                pending: Vec::new(),
                outbox: Vec::new(),
            },
        )
    }

    /// Dials the peer directly and begins the handshake, as
    /// `connect_blocking` does without a proxy.
    fn connect(addr: PeerAddr<PublicKey, S::Addr>, context: &NodeKeys) -> (r: Result<
        Self,
        SessionError<IoError>,
    >)
        ensures
            x25519_secret_of(context.spec_ecdh().seed()@) is None <==> r matches Err(
                SessionError::InvalidLocalKey,
            ),
            x25519_secret_of(context.spec_ecdh().seed()@) is Some && x25519_public_of(addr.id.bytes@)
                is None <==> r matches Err(SessionError::InvalidPeerKey),
            r matches Ok(s) ==> s.remote() == XkAddr::Full(addr) && s.opened_here(),
            x25519_secret_of(context.spec_ecdh().seed()@) is Some && x25519_public_of(addr.id.bytes@)
                is Some ==> exists|dialled: S::Addr, proxy: &NoProxy, dial: Result<S, IoError>|
                {
                    &&& cloned(addr.addr, dialled)
                    &&& #[trigger] call_ensures(
                        S::connect_blocking::<NoProxy>,
                        (dialled, proxy),
                        dial,
                    )
                    &&& match dial {
                        Err(err) => r == Err::<Self, SessionError<IoError>>(
                            SessionError::Connection(err),
                        ),
                        Ok(socket) => exists|
                            advanced: Option<(Handshake, Vec<u8>, Vec<u8>)>,
                            made: Option<Self>,
                        |
                            {
                                &&& #[trigger] Self::initiated(addr, socket, advanced, made)
                                &&& r == match made {
                                    Some(session) => Ok::<Self, SessionError<IoError>>(session),
                                    None => Err::<Self, SessionError<IoError>>(
                                        SessionError::Handshake,
                                    ),
                                }
                            },
                    }
                },
    {
        Self::connect_blocking(addr, context, &NoProxy)
    }

    fn session_id(&self) -> (id: Option<PublicKey>) {
        match &self.remote_addr {
            XkAddr::Partial(_) => None,
            XkAddr::Full(addr) => Some(addr.id),
        }
    }

    fn handshake_completed(&self) -> (done: bool) {
        self.established
    }

    fn has_unsent(&self) -> (b: bool) {
        self.outbox.len() > 0
    }

    fn local_addr(&self) -> (a: S::Addr) {
        self.connection.local_addr()
    }

    /// The answer is that of the connection beneath.
    fn read_timeout(&self) -> (r: Result<Option<u64>, IoError>)
        ensures
            call_ensures(S::read_timeout, (&self.conn(),), r),
    {
        self.connection.read_timeout()
    }

    /// The answer is that of the connection beneath.
    fn write_timeout(&self) -> (r: Result<Option<u64>, IoError>)
        ensures
            call_ensures(S::write_timeout, (&self.conn(),), r),
    {
        self.connection.write_timeout()
    }

    /// The connection beneath is told, and the answer is its answer.
    /// Nothing else of the session changes.
    fn set_read_timeout(&mut self, dur: Option<u64>) -> (r: Result<(), IoError>)
        ensures
            exists|c: &mut S|
                *c == old(self).conn() && *final(c) == final(self).conn() && call_ensures(
                    S::set_read_timeout,
                    (c, dur),
                    r,
                ),
            final(self).same_but_connection(*old(self)),
    {
        self.connection.set_read_timeout(dur)
    }

    /// The connection beneath is told, and the answer is its answer.
    /// Nothing else of the session changes.
    fn set_write_timeout(&mut self, dur: Option<u64>) -> (r: Result<(), IoError>)
        ensures
            exists|c: &mut S|
                *c == old(self).conn() && *final(c) == final(self).conn() && call_ensures(
                    S::set_write_timeout,
                    (c, dur),
                    r,
                ),
            final(self).same_but_connection(*old(self)),
    {
        self.connection.set_write_timeout(dur)
    }

    /// The connection beneath is told, and the answer is its answer.
    /// Nothing else of the session changes.
    fn set_nonblocking(&mut self, nonblocking: bool) -> (r: Result<(), IoError>)
        ensures
            exists|c: &mut S|
                *c == old(self).conn() && *final(c) == final(self).conn() && call_ensures(
                    S::set_nonblocking,
                    (c, nonblocking),
                    r,
                ),
            final(self).same_but_connection(*old(self)),
    {
        self.connection.set_nonblocking(nonblocking)
    }

    /// Before the handshake is complete the read is what `read_handshake`
    /// does: it feeds the handshake and yields no data. The read that
    /// completes the handshake promotes the address of the peer; until then
    /// the address stays exactly as it is, and an address that carries an
    /// identity stays as it is for good.
    fn read(&mut self, limit: usize) -> (r: Result<Vec<u8>, IoError>)
        ensures
            final(self).opened_here() == old(self).opened_here(),
            old(self).remote() is Full ==> final(self).remote() == old(self).remote(),
            !final(self).done() ==> final(self).remote() == old(self).remote(),
            final(self).remote().addr() == old(self).remote().addr(),
            final(self).remote() is Full ==> old(self).remote() is Full || (final(self).done()
                && !old(self).done()),
            !old(self).done() ==> exists|session: &mut Self|
                *session == *old(self) && *final(session) == *final(self) && #[trigger] call_ensures(
                    Self::read_handshake,
                    (session,),
                    r,
                ),
            old(self).done() && old(self).plain().len() > 0 ==> (r matches Ok(data) && data@
                == handed_out(old(self).plain(), limit)),
            old(self).done() && old(self).plain().len() > 0 ==> final(self).received() == old(
                self,
            ).received(),
            old(self).done() && old(self).plain().len() > 0 ==> final(self).coder() == old(self).coder(),
            old(self).done() && old(self).plain().len() == 0 && has_frame(old(self).received())
                ==> (old(self).coder() matches Transcoder::Active { decryptor, .. } && read_bytes(r)
                == delivered(decryptor, old(self).received(), limit)),
            old(self).done() && old(self).plain().len() == 0 && has_frame(old(self).received())
                ==> final(self).received() == after_frame(old(self).received()),
            old(self).done() ==> exists|
                source: &mut S,
                cipher: &mut CipherState,
                inbox: &mut Vec<u8>,
                pending: &mut Vec<u8>,
            |
                {
                    &&& *source == old(self).conn() && *final(source) == final(self).conn()
                    &&& old(self).coder() matches Transcoder::Active { encryptor, decryptor }
                    &&& *cipher == decryptor
                    &&& final(self).coder() == (Transcoder::Active {
                        encryptor,
                        decryptor: *final(cipher),
                    })
                    &&& inbox@ == old(self).received() && final(inbox)@ == final(self).received()
                    &&& pending@ == old(self).plain() && final(pending)@ == final(self).plain()
                    &&& final(self).queued() == old(self).queued()
                    &&& #[trigger] call_ensures(
                        receive::<S>,
                        (source, cipher, inbox, pending, limit),
                        r,
                    )
                },
    {
        if !self.established {
            // Called through a value, so that the contract can speak of the call.
            let read_handshake = Self::read_handshake;
            return read_handshake(self);
        }
        // Called through a value, so that the contract can speak of the call.
        let take = receive::<S>;
        match &mut self.transcoder {
            Transcoder::Active { decryptor, .. } => take(
                &mut self.connection,
                decryptor,
                &mut self.inbox,
                &mut self.pending,
                limit,
            ),
            _ => Err(IoError::from_kind(ErrorKind::NotConnected)),
        }
    }

    /// Before the handshake is complete nothing of `buf` is taken: what the
    /// handshake has to say is handed to the connection instead, as `drain`
    /// does, and a failure to do so is the result.
    fn write(&mut self, buf: &[u8]) -> (r: Result<usize, IoError>)
        ensures
            final(self).remote() == old(self).remote(),
            final(self).opened_here() == old(self).opened_here(),
            final(self).received() == old(self).received(),
            final(self).plain() == old(self).plain(),
            old(self).done() ==> (r matches Ok(n) ==> n == message_len(buf@.len())),
            !old(self).done() ==> left_of(final(self).queued(), old(self).queued()),
            !old(self).done() ==> final(self).coder() == old(self).coder(),
            !old(self).done() ==> final(self).same_but_output(*old(self)) && exists|
                c: &mut S,
                o: &mut Vec<u8>,
                drained: Result<(), IoError>,
            |
                {
                    &&& *c == old(self).conn()
                    &&& o@ == old(self).queued()
                    &&& *final(c) == final(self).conn()
                    &&& final(o)@ == final(self).queued()
                    &&& #[trigger] call_ensures(drain::<S>, (c, o), drained)
                    &&& r == match drained {
                        Ok(_) => Ok::<usize, IoError>(0),
                        Err(err) => Err::<usize, IoError>(err),
                    }
                },
            old(self).done() && buf@.len() == 0 ==> final(self).queued() == old(self).queued()
                && final(self).coder() == old(self).coder(),
            old(self).done() && buf@.len() > 0 ==> (old(self).coder() matches Transcoder::Active {
                encryptor,
                ..
            } && match sealed(encryptor, buf@) {
                Some(ciphertext) => left_of(
                    final(self).queued(),
                    old(self).queued() + frame_of(ciphertext),
                ),
                None => r == Err::<usize, IoError>(
                    IoError { kind: ErrorKind::InvalidData, code: None },
                ) && final(self).queued() == old(self).queued(),
            }),
            old(self).done() ==> exists|sink: &mut S, cipher: &mut CipherState, outbox: &mut Vec<u8>|
                {
                    &&& *sink == old(self).conn() && *final(sink) == final(self).conn()
                    &&& old(self).coder() matches Transcoder::Active { encryptor, decryptor }
                    &&& *cipher == encryptor
                    &&& final(self).coder() == (Transcoder::Active {
                        encryptor: *final(cipher),
                        decryptor,
                    })
                    &&& outbox@ == old(self).queued() && final(outbox)@ == final(self).queued()
                    &&& #[trigger] call_ensures(send::<S>, (sink, cipher, outbox, buf), r)
                },
    {
        // Called through a value, so that the contract can speak of the call.
        let put = send::<S>;
        match &mut self.transcoder {
            Transcoder::Active { encryptor, .. } => put(
                &mut self.connection,
                encryptor,
                &mut self.outbox,
                buf,
            ),
            _ => {
                // Called through a value, so that the contract can speak of the call.
                let empty = drain::<S>;
                match empty(&mut self.connection, &mut self.outbox) {
                    Ok(_) => Ok(0),
                    Err(err) => Err(err),
                }
            },
        }
    }

    /// What waits for the connection is handed to it as `drain` does, and
    /// the result is that of `drain`. Nothing but the connection and what
    /// waits for it changes.
    fn flush(&mut self) -> (r: Result<(), IoError>)
        ensures
            final(self).remote() == old(self).remote(),
            final(self).coder() == old(self).coder(),
            final(self).opened_here() == old(self).opened_here(),
            final(self).received() == old(self).received(),
            final(self).plain() == old(self).plain(),
            left_of(final(self).queued(), old(self).queued()),
            final(self).same_but_output(*old(self)),
            exists|c: &mut S, o: &mut Vec<u8>|
                {
                    &&& *c == old(self).conn()
                    &&& o@ == old(self).queued()
                    &&& *final(c) == final(self).conn()
                    &&& final(o)@ == final(self).queued()
                    &&& #[trigger] call_ensures(drain::<S>, (c, o), r)
                },
    {
        // Called through a value, so that the contract can speak of the call.
        let empty = drain::<S>;
        empty(&mut self.connection, &mut self.outbox)
    }

    /// The connection beneath is told to shut down in both directions,
    /// and the answer is its answer.
    fn disconnect(self) -> (r: Result<(), IoError>)
        ensures
            exists|c: &mut S| *c == self.conn() && call_ensures(S::shutdown, (c,), r),
    {
        let mut connection = self.connection;
        connection.shutdown()
    }
}

} // verus!
