//! Encrypted messages on a byte stream: what a session, and each of its
//! halves, does once the handshake is complete.
//!
//! Every message that is written goes out as one frame that holds its
//! ciphertext. Bytes that come in gather until a whole frame is there; its
//! plaintext is then handed out, in pieces where the reader asks for less.

use vstd::prelude::*;
use vstd::slice::slice_subrange;
use cyphernet::encrypt::noise::CipherState;
use crate::error::{ErrorKind, IoError};
use crate::frame::{
    after_frame, first_body, frame_missing, frame_of, has_frame, missing, put_frame, take_frame,
    take_front, within_frame, HEADER_LEN, MAX_FRAME,
};
use crate::resources::{NetRead, NetWrite};
use crate::transcoder::{cipher_nonce, ciphertext_of, decrypt, encrypt, nonce_of, plaintext_of};

verus! {

/// The length of the longest plaintext that goes into one message: what a
/// frame holds, less the tag that the cipher adds.
pub const MAX_PLAINTEXT: usize = 65519;

/// Asks `source` once for at most `limit` bytes and puts what comes at the
/// end of `inbox`. The result is the number of bytes that came; none means
/// that the stream has ended. A failure of the source is the result, and
/// `inbox` stays as it is then.
pub fn pull<R: NetRead>(source: &mut R, inbox: &mut Vec<u8>, limit: usize) -> (r: Result<
    usize,
    IoError,
>)
    ensures
        r matches Ok(n) ==> n <= limit && final(inbox)@.len() == old(inbox)@.len() + n,
        r matches Ok(n) ==> final(inbox)@.take(old(inbox)@.len() as int) == old(inbox)@,
        r is Err ==> final(inbox)@ == old(inbox)@,
        exists|stream: &mut R, answer: Result<Vec<u8>, IoError>|
            {
                &&& *stream == *old(source)
                &&& *final(stream) == *final(source)
                &&& call_ensures(R::read, (stream, limit), answer)
                &&& match answer {
                    Ok(data) => r == Ok::<usize, IoError>(data@.len() as usize) && final(inbox)@
                        == old(inbox)@ + data@,
                    Err(err) => r == Err::<usize, IoError>(err) && final(inbox)@ == old(inbox)@,
                }
            },
{
    match source.read(limit) {
        Ok(data) => {
            let n = data.len();
            let mut data = data;
            inbox.append(&mut data);
            assert(final(inbox)@.take(old(inbox)@.len() as int) =~= old(inbox)@);
            Ok(n)
        },
        Err(err) => Err(err),
    }
}

/// Asks `source` for the bytes that `inbox` lacks to begin with a whole
/// frame, and for no more, so that what follows the frame stays with the
/// source and keeps it ready to be read. The header is asked for first and
/// then, once it is there, the message. The result says whether the stream
/// has ended.
///
/// Where `inbox` begins with a whole frame, nothing is asked. Otherwise the
/// source is asked for what `inbox` lacks; what comes is put at the end of
/// `inbox`. If that completed a header that announces a message, the source
/// is asked once more, for the message. An answer without bytes ends the
/// stream, and a failure of the source is the result.
pub fn fill<R: NetRead>(source: &mut R, inbox: &mut Vec<u8>) -> (ended: Result<bool, IoError>)
    ensures
        old(inbox)@.len() <= final(inbox)@.len(),
        final(inbox)@.take(old(inbox)@.len() as int) == old(inbox)@,
        within_frame(old(inbox)@) ==> within_frame(final(inbox)@),
        has_frame(old(inbox)@) ==> final(inbox)@ == old(inbox)@ && *final(source) == *old(source)
            && ended == Ok::<bool, IoError>(false),
        !has_frame(old(inbox)@) ==> exists|first: &mut R, ask: usize, got: Result<Vec<u8>, IoError>|
            {
                &&& *first == *old(source)
                &&& ask == missing(old(inbox)@)
                &&& #[trigger] call_ensures(R::read, (first, ask), got)
                &&& match got {
                    Err(err) => ended == Err::<bool, IoError>(err) && final(inbox)@ == old(inbox)@
                        && *final(source) == *final(first),
                    Ok(data) => if data@.len() == 0 || old(inbox)@.len() >= HEADER_LEN || missing(
                        old(inbox)@ + data@,
                    ) == 0 || (old(inbox)@ + data@).len() < HEADER_LEN {
                        &&& ended == Ok::<bool, IoError>(data@.len() == 0)
                        &&& final(inbox)@ == old(inbox)@ + data@
                        &&& *final(source) == *final(first)
                    } else {
                        exists|second: &mut R, rest_ask: usize, more: Result<Vec<u8>, IoError>|
                            {
                                &&& *second == *final(first)
                                &&& *final(second) == *final(source)
                                &&& rest_ask == missing(old(inbox)@ + data@)
                                &&& #[trigger] call_ensures(R::read, (second, rest_ask), more)
                                &&& match more {
                                    Err(err) => ended == Err::<bool, IoError>(err) && final(inbox)@
                                        == old(inbox)@ + data@,
                                    Ok(rest) => ended == Ok::<bool, IoError>(rest@.len() == 0)
                                        && final(inbox)@ == old(inbox)@ + data@ + rest@,
                                }
                            }
                    },
                }
            },
{
    if inbox.len() < HEADER_LEN {
        match pull(source, inbox, HEADER_LEN - inbox.len()) {
            Ok(n) => {
                if n == 0 {
                    return Ok(true);
                }
            },
            Err(err) => {
                return Err(err);
            },
        }
    }
    let header = Ghost(inbox@);
    let lacking = frame_missing(inbox);
    if inbox.len() >= HEADER_LEN && lacking > 0 {
        match pull(source, inbox, lacking) {
            Ok(n) => {
                proof {
                    assert(inbox@[0] == header@[0] && inbox@[1] == header@[1]) by {
                        assert(inbox@.take(header@.len() as int)[0] == header@[0]);
                        assert(inbox@.take(header@.len() as int)[1] == header@[1]);
                    }
                }
                if n == 0 {
                    return Ok(true);
                }
            },
            Err(err) => {
                assert(inbox@.take(old(inbox)@.len() as int) =~= old(inbox)@);
                return Err(err);
            },
        }
    }
    assert(inbox@.take(old(inbox)@.len() as int) =~= old(inbox)@);
    Ok(false)
}

/// What `hand_out` returns.
pub open spec fn handed_out(pending: Seq<u8>, limit: usize) -> Seq<u8> {
    if pending.len() <= limit {
        pending
    } else {
        pending.take(limit as int)
    }
}

/// Takes up to `limit` bytes off the front of the plaintext that is waiting.
pub fn hand_out(pending: &mut Vec<u8>, limit: usize) -> (data: Vec<u8>)
    ensures
        data@ == handed_out(old(pending)@, limit),
        final(pending)@ == old(pending)@.skip(data@.len() as int),
        data@.len() <= limit,
{
    let n = if pending.len() <= limit {
        pending.len()
    } else {
        limit
    };
    let data = take_front(pending, n);
    assert(data@ =~= handed_out(old(pending)@, limit));
    data
}

/// What `receive` comes to where no plaintext is waiting and `inbox` begins
/// with a whole frame: the plaintext of that frame, up to the limit, or the
/// error `InvalidData` where the frame does not decrypt or the cipher is
/// used up, or the error `WouldBlock` where the message was empty.
pub open spec fn delivered(decryptor: CipherState, inbox: Seq<u8>, limit: usize) -> Result<
    Seq<u8>,
    IoError,
> {
    if cipher_nonce(decryptor) >= u64::MAX {
        Err(IoError { kind: ErrorKind::InvalidData, code: None })
    } else {
        match plaintext_of(decryptor, first_body(inbox)) {
            None => Err(IoError { kind: ErrorKind::InvalidData, code: None }),
            Some(plaintext) => if plaintext.len() == 0 {
                Err(IoError { kind: ErrorKind::WouldBlock, code: None })
            } else {
                Ok(handed_out(plaintext, limit))
            },
        }
    }
}

/// The bytes of the outcome of a read.
pub open spec fn read_bytes(r: Result<Vec<u8>, IoError>) -> Result<Seq<u8>, IoError> {
    match r {
        Ok(data) => Ok(data@),
        Err(err) => Err(err),
    }
}

/// Takes up to `limit` bytes of plaintext off an encrypted stream.
///
/// Plaintext that is waiting is handed out first, and nothing else is
/// touched then. Otherwise the next frame is taken off `inbox`, after
/// `source` was asked for what `inbox` lacked to begin with a whole frame,
/// and its plaintext is the new waiting plaintext.
///
/// An empty result means that the stream has ended. Where no whole frame is
/// there yet, or the message was empty, the result is the error `WouldBlock`.
/// A frame that does not decrypt is the error `InvalidData`. A failure of
/// the source is the result.
pub fn receive<R: NetRead>(
    source: &mut R,
    decryptor: &mut CipherState,
    inbox: &mut Vec<u8>,
    pending: &mut Vec<u8>,
    limit: usize,
) -> (r: Result<Vec<u8>, IoError>)
    ensures
        r matches Ok(data) ==> data@.len() <= limit,
        old(pending)@.len() > 0 ==> {
            &&& r matches Ok(data) && data@ == handed_out(old(pending)@, limit)
            &&& final(pending)@ == old(pending)@.skip(handed_out(old(pending)@, limit).len() as int)
            &&& final(inbox)@ == old(inbox)@
            &&& *final(decryptor) == *old(decryptor)
            &&& *final(source) == *old(source)
        },
        old(pending)@.len() == 0 && has_frame(old(inbox)@) ==> {
            &&& read_bytes(r) == delivered(*old(decryptor), old(inbox)@, limit)
            &&& final(inbox)@ == after_frame(old(inbox)@)
            &&& *final(source) == *old(source)
            &&& r matches Ok(data) ==> plaintext_of(*old(decryptor), first_body(old(inbox)@))
                matches Some(plaintext) && final(pending)@ == plaintext.skip(data@.len() as int)
        },
        old(pending)@.len() == 0 && r is Err ==> final(pending)@.len() == 0,
        old(pending)@.len() == 0 ==> exists|
            asked: &mut R,
            held: &mut Vec<u8>,
            ended: Result<bool, IoError>,
        |
            {
                &&& *asked == *old(source)
                &&& *final(asked) == *final(source)
                &&& held@ == old(inbox)@
                &&& #[trigger] call_ensures(fill::<R>, (asked, held), ended)
                &&& match ended {
                    Err(err) => r == Err::<Vec<u8>, IoError>(err) && final(inbox)@ == final(held)@
                        && *final(decryptor) == *old(decryptor),
                    Ok(true) => (r matches Ok(data) && data@.len() == 0)
                        && final(inbox)@ == final(held)@ && *final(decryptor) == *old(decryptor),
                    Ok(false) => if has_frame(final(held)@) {
                        read_bytes(r) == delivered(*old(decryptor), final(held)@, limit)
                            && final(inbox)@ == after_frame(final(held)@)
                    } else {
                        r == Err::<Vec<u8>, IoError>(
                            IoError { kind: ErrorKind::WouldBlock, code: None },
                        ) && final(inbox)@ == final(held)@ && *final(decryptor) == *old(decryptor)
                    },
                }
            },
{
    if pending.len() == 0 {
        // Called through a value, so that the contract can speak of the call.
        let ask = fill::<R>;
        match ask(source, inbox) {
            Ok(ended) => {
                if ended {
                    return Ok(Vec::new());
                }
            },
            Err(err) => {
                return Err(err);
            },
        }
        let body = match take_frame(inbox) {
            Some(body) => body,
            None => {
                return Err(IoError::from_kind(ErrorKind::WouldBlock));
            },
        };
        if nonce_of(decryptor) == u64::MAX {
            return Err(IoError::from_kind(ErrorKind::InvalidData));
        }
        match decrypt(decryptor, body.as_slice()) {
            Some(plaintext) => {
                let mut plaintext = plaintext;
                pending.append(&mut plaintext);
            },
            None => {
                return Err(IoError::from_kind(ErrorKind::InvalidData));
            },
        }
        if pending.len() == 0 {
            return Err(IoError::from_kind(ErrorKind::WouldBlock));
        }
    }
    Ok(hand_out(pending, limit))
}

/// Whether `rest` is what is left of `whole` after some of its front is gone.
pub open spec fn left_of(rest: Seq<u8>, whole: Seq<u8>) -> bool {
    exists|n: int| 0 <= n <= whole.len() && rest == #[trigger] whole.skip(n)
}

/// Hands `sink` what `outbox` holds, in one write, and takes what the sink
/// accepted off the front of `outbox`. Once the outbox is empty the sink
/// flushes.
///
/// An empty outbox is not written: the sink is told to flush, and its
/// answer is the result. Otherwise the sink is handed all that the outbox
/// holds, once. A failure of the sink is the result, and the outbox stays as
/// it is. What the sink accepted leaves the front of the outbox; where that
/// was all of it the sink is told to flush, and its answer is the result.
pub fn drain<W: NetWrite>(sink: &mut W, outbox: &mut Vec<u8>) -> (r: Result<(), IoError>)
    ensures
        left_of(final(outbox)@, old(outbox)@),
        old(outbox)@.len() == 0 ==> final(outbox)@ == old(outbox)@ && exists|w: &mut W|
            *w == *old(sink) && *final(w) == *final(sink) && #[trigger] call_ensures(
                W::flush,
                (w,),
                r,
            ),
        old(outbox)@.len() > 0 ==> exists|w: &mut W, buf: &[u8], wrote: Result<usize, IoError>|
            {
                &&& *w == *old(sink)
                &&& buf@ == old(outbox)@
                &&& #[trigger] call_ensures(W::write, (w, buf), wrote)
                &&& match wrote {
                    Err(err) => r == Err::<(), IoError>(err) && final(outbox)@ == old(outbox)@
                        && *final(sink) == *final(w),
                    Ok(n) => final(outbox)@ == old(outbox)@.skip(n as int) && if n == old(
                        outbox,
                    )@.len() {
                        exists|f: &mut W|
                            *f == *final(w) && *final(f) == *final(sink) && #[trigger] call_ensures(
                                W::flush,
                                (f,),
                                r,
                            )
                    } else {
                        r == Ok::<(), IoError>(()) && *final(sink) == *final(w)
                    },
                }
            },
{
    if outbox.len() == 0 {
        assert(outbox@ == old(outbox)@.skip(0));
        return sink.flush();
    }
    match sink.write(outbox.as_slice()) {
        Ok(n) => {
            let _ = take_front(outbox, n);
            if outbox.len() == 0 {
                sink.flush()
            } else {
                Ok(())
            }
        },
        Err(err) => {
            assert(outbox@ == old(outbox)@.skip(0));
            Err(err)
        },
    }
}

/// How much of a buffer goes into one message.
pub open spec fn message_len(len: nat) -> nat {
    if len <= MAX_PLAINTEXT {
        len
    } else {
        MAX_PLAINTEXT as nat
    }
}

/// The ciphertext that goes out for `buf`: that of the prefix of `buf` that
/// one message takes, unless the cipher is used up, the prefix does not
/// encrypt, or the ciphertext does not fit a frame.
pub open spec fn sealed(encryptor: CipherState, buf: Seq<u8>) -> Option<Seq<u8>> {
    if cipher_nonce(encryptor) >= u64::MAX {
        None
    } else {
        match ciphertext_of(encryptor, buf.take(message_len(buf.len()) as int)) {
            Some(ciphertext) => if ciphertext.len() <= MAX_FRAME {
                Some(ciphertext)
            } else {
                None
            },
            None => None,
        }
    }
}

/// Where the cipher of the reader, in the state in which the writer's cipher
/// sealed a message, undoes what that cipher did, the reader is delivered
/// the very bytes that the writer took, and what followed the frame of the
/// message is left for the next read. That a cipher undoes itself is the
/// law of the cipher, and is taken here as given.
pub proof fn lemma_sealed_is_delivered(cipher: CipherState, buf: Seq<u8>, rest: Seq<u8>, limit: usize)
    requires
        buf.len() > 0,
        sealed(cipher, buf) matches Some(ciphertext) && plaintext_of(cipher, ciphertext) == Some(
            buf.take(message_len(buf.len()) as int),
        ),
    ensures
        sealed(cipher, buf) matches Some(ciphertext) && {
            &&& has_frame(frame_of(ciphertext) + rest)
            &&& delivered(cipher, frame_of(ciphertext) + rest, limit) == Ok::<Seq<u8>, IoError>(
                handed_out(buf.take(message_len(buf.len()) as int), limit),
            )
            &&& after_frame(frame_of(ciphertext) + rest) == rest
        },
{
    let ciphertext = sealed(cipher, buf)->Some_0;
    crate::frame::lemma_frame_round_trip(ciphertext, rest);
}

/// Takes a prefix of `buf` as one message for the peer: encrypts it, puts
/// the frame with the ciphertext at the end of `outbox`, and hands the sink
/// what the outbox holds. The result is the length of the prefix, which is
/// all of `buf` unless `buf` is longer than a message can be. Of an empty
/// `buf` no message is made.
///
/// Where the cipher is used up, the prefix does not encrypt or the
/// ciphertext does not fit a frame, the result is the error `InvalidData`
/// and the outbox stays as it is. A failure of the sink other than
/// `WouldBlock` is handed on; the message is in the outbox all the same.
pub fn send<W: NetWrite>(
    sink: &mut W,
    encryptor: &mut CipherState,
    outbox: &mut Vec<u8>,
    buf: &[u8],
) -> (r: Result<usize, IoError>)
    ensures
        r matches Ok(n) ==> n == message_len(buf@.len()),
        buf@.len() == 0 ==> r is Ok && final(outbox)@ == old(outbox)@ && *final(encryptor) == *old(
            encryptor,
        ) && *final(sink) == *old(sink),
        buf@.len() > 0 ==> match sealed(*old(encryptor), buf@) {
            Some(ciphertext) => left_of(final(outbox)@, old(outbox)@ + frame_of(ciphertext)),
            None => r == Err::<usize, IoError>(IoError { kind: ErrorKind::InvalidData, code: None })
                && final(outbox)@ == old(outbox)@ && *final(sink) == *old(sink),
        },
        buf@.len() > 0 ==> (sealed(*old(encryptor), buf@) matches Some(ciphertext) ==> exists|
            to: &mut W,
            out: &mut Vec<u8>,
            drained: Result<(), IoError>,
        |
            {
                &&& *to == *old(sink)
                &&& *final(to) == *final(sink)
                &&& out@ == old(outbox)@ + frame_of(ciphertext)
                &&& final(out)@ == final(outbox)@
                &&& #[trigger] call_ensures(drain::<W>, (to, out), drained)
                &&& r == match drained {
                    Ok(_) => Ok::<usize, IoError>(message_len(buf@.len()) as usize),
                    Err(err) => if err.kind == ErrorKind::WouldBlock {
                        Ok::<usize, IoError>(message_len(buf@.len()) as usize)
                    } else {
                        Err::<usize, IoError>(err)
                    },
                }
            }),
{
    let n = if buf.len() <= MAX_PLAINTEXT {
        buf.len()
    } else {
        MAX_PLAINTEXT
    };
    if n == 0 {
        return Ok(0);
    }
    if nonce_of(encryptor) == u64::MAX {
        return Err(IoError::from_kind(ErrorKind::InvalidData));
    }
    let ciphertext = match encrypt(encryptor, slice_subrange(buf, 0, n)) {
        Some(ciphertext) => ciphertext,
        None => {
            return Err(IoError::from_kind(ErrorKind::InvalidData));
        },
    };
    if ciphertext.len() > MAX_FRAME {
        return Err(IoError::from_kind(ErrorKind::InvalidData));
    }
    put_frame(outbox, ciphertext.as_slice());
    // Called through a value, so that the contract can speak of the call.
    let empty = drain::<W>;
    match empty(sink, outbox) {
        Ok(_) => Ok(n),
        Err(err) => if err.would_block() {
            Ok(n)
        } else {
            Err(err)
        },
    }
}

} // verus!
