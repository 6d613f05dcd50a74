//! Messages on a byte stream: each message travels as a frame, which is the
//! length of the message in two bytes, the high byte first, and then the
//! message itself.

use vstd::prelude::*;

verus! {

/// The length of the longest message that a frame can hold.
pub const MAX_FRAME: usize = 65535;

/// The length of the header of a frame.
pub const HEADER_LEN: usize = 2;

/// The frame that holds `body`.
pub open spec fn frame_of(body: Seq<u8>) -> Seq<u8> {
    seq![(body.len() / 256) as u8, (body.len() % 256) as u8] + body
}

/// The length that the header at the front of `buf` announces.
pub open spec fn announced_len(buf: Seq<u8>) -> nat
    recommends
        buf.len() >= HEADER_LEN,
{
    (buf[0] as nat) * 256 + (buf[1] as nat)
}

/// Whether `buf` begins with a whole frame.
pub open spec fn has_frame(buf: Seq<u8>) -> bool {
    buf.len() >= HEADER_LEN && buf.len() >= HEADER_LEN + announced_len(buf)
}

/// The message in the frame that `buf` begins with.
pub open spec fn first_body(buf: Seq<u8>) -> Seq<u8>
    recommends
        has_frame(buf),
{
    buf.subrange(HEADER_LEN as int, HEADER_LEN + announced_len(buf))
}

/// What follows the frame that `buf` begins with.
pub open spec fn after_frame(buf: Seq<u8>) -> Seq<u8>
    recommends
        has_frame(buf),
{
    buf.skip(HEADER_LEN + announced_len(buf))
}

/// How many bytes `buf` lacks to begin with a whole frame, as far as `buf`
/// tells: the rest of the header, or, where the header is there, the rest of
/// the message.
pub open spec fn missing(buf: Seq<u8>) -> nat {
    if buf.len() < HEADER_LEN {
        (HEADER_LEN - buf.len()) as nat
    } else if has_frame(buf) {
        0
    } else {
        (HEADER_LEN + announced_len(buf) - buf.len()) as nat
    }
}

/// Whether `buf` holds no more than one frame, whole or in part.
pub open spec fn within_frame(buf: Seq<u8>) -> bool {
    buf.len() <= HEADER_LEN || buf.len() <= HEADER_LEN + announced_len(buf)
}

/// A frame followed by anything reads back as its message, and leaves what
/// followed it.
pub proof fn lemma_frame_round_trip(body: Seq<u8>, rest: Seq<u8>)
    requires
        body.len() <= MAX_FRAME,
    ensures
        has_frame(frame_of(body) + rest),
        first_body(frame_of(body) + rest) == body,
        after_frame(frame_of(body) + rest) == rest,
{
    let buf = frame_of(body) + rest;
    assert(buf[0] == (body.len() / 256) as u8);
    assert(buf[1] == (body.len() % 256) as u8);
    assert(announced_len(buf) == body.len());
    assert(first_body(buf) =~= body);
    assert(after_frame(buf) =~= rest);
}

/// A buffer that begins with a frame is that frame followed by the rest.
pub proof fn lemma_frame_parts(buf: Seq<u8>)
    requires
        has_frame(buf),
    ensures
        first_body(buf).len() <= MAX_FRAME,
        buf == frame_of(first_body(buf)) + after_frame(buf),
{
    let n = announced_len(buf);
    assert(first_body(buf).len() == n);
    assert(n / 256 == buf[0] as nat && n % 256 == buf[1] as nat);
    assert(buf =~= frame_of(first_body(buf)) + after_frame(buf));
}

/// Appends the frame that holds `body` to `out`.
pub fn put_frame(out: &mut Vec<u8>, body: &[u8])
    requires
        body@.len() <= MAX_FRAME,
    ensures
        final(out)@ == old(out)@ + frame_of(body@),
{
    let len = body.len();
    out.push((len / 256) as u8);
    out.push((len % 256) as u8);
    out.extend_from_slice(body);
    assert(final(out)@ =~= old(out)@ + frame_of(body@));
}

/// Whether `buf` begins with a whole frame.
pub fn frame_ready(buf: &Vec<u8>) -> (ready: bool)
    ensures
        ready == has_frame(buf@),
{
    if buf.len() < HEADER_LEN {
        return false;
    }
    let len = (buf[0] as usize) * 256 + (buf[1] as usize);
    buf.len() - HEADER_LEN >= len
}

/// How many bytes `buf` lacks to begin with a whole frame.
pub fn frame_missing(buf: &Vec<u8>) -> (n: usize)
    ensures
        n == missing(buf@),
        n == 0 <==> has_frame(buf@),
        n <= MAX_FRAME,
{
    if buf.len() < HEADER_LEN {
        return HEADER_LEN - buf.len();
    }
    let len = (buf[0] as usize) * 256 + (buf[1] as usize);
    if buf.len() - HEADER_LEN >= len {
        0
    } else {
        HEADER_LEN + len - buf.len()
    }
}

/// Takes the first `n` items off the front of `buf`.
pub fn take_front(buf: &mut Vec<u8>, n: usize) -> (front: Vec<u8>)
    requires
        n <= old(buf)@.len(),
    ensures
        front@ == old(buf)@.take(n as int),
        final(buf)@ == old(buf)@.skip(n as int),
{
    let mut rest = buf.split_off(n);
    core::mem::swap(buf, &mut rest);
    assert(buf@ =~= old(buf)@.skip(n as int));
    assert(rest@ =~= old(buf)@.take(n as int));
    rest
}

/// Takes the frame that `buf` begins with off it and returns its message.
/// Where `buf` does not begin with a whole frame, it stays as it is.
pub fn take_frame(buf: &mut Vec<u8>) -> (body: Option<Vec<u8>>)
    ensures
        has_frame(old(buf)@) ==> (body matches Some(b) && b@ == first_body(old(buf)@)),
        has_frame(old(buf)@) ==> final(buf)@ == after_frame(old(buf)@),
        !has_frame(old(buf)@) ==> body is None && final(buf)@ == old(buf)@,
{
    if !frame_ready(buf) {
        return None;
    }
    let len = (buf[0] as usize) * 256 + (buf[1] as usize);
    let mut frame = take_front(buf, HEADER_LEN + len);
    let body = frame.split_off(HEADER_LEN);
    assert(body@ =~= first_body(old(buf)@));
    Some(body)
}

} // verus!
