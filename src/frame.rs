//! Length-prefixed framing: a frame is a 4-byte big-endian length followed
//! by exactly that many payload bytes. No frame may carry more than
//! `MAX_FRAME_BYTES` bytes of payload; an oversized payload is refused before
//! anything is produced, and an oversized length prefix is refused before any
//! of the body is looked at.

use vstd::prelude::*;

verus! {

/// The largest payload a frame may carry.
pub const MAX_FRAME_BYTES: u32 = 2_000_000;

/// Why a frame could not be produced or taken apart.
#[derive(Clone, Copy, Debug, PartialEq, Eq, Structural)]
pub enum FrameError {
    /// The payload, or the length a prefix announces, exceeds the ceiling.
    FrameTooLarge,
    /// The bytes end before the frame does.
    Incomplete,
}

/// The 4-byte big-endian form of `n`.
pub open spec fn be_bytes(n: u32) -> Seq<u8> {
    seq![(n >> 24u32) as u8, (n >> 16u32) as u8, (n >> 8u32) as u8, n as u8]
}

/// The number that four big-endian bytes spell.
pub open spec fn be_value(b0: u8, b1: u8, b2: u8, b3: u8) -> u32 {
    ((b0 as u32) << 24u32) | ((b1 as u32) << 16u32) | ((b2 as u32) << 8u32) | (b3 as u32)
}

/// The frame that carries `payload`.
pub open spec fn frame_of(payload: Seq<u8>) -> Seq<u8> {
    be_bytes(payload.len() as u32) + payload
}

/// The length a frame announces, read from the start of `buf`.
pub open spec fn announced(buf: Seq<u8>) -> u32
    recommends
        buf.len() >= 4,
{
    be_value(buf[0], buf[1], buf[2], buf[3])
}

/// What the start of `buf` holds: the payload of its first frame and the
/// number of bytes that frame occupies, or why there is none.
pub open spec fn parse_frame(buf: Seq<u8>) -> Result<(Seq<u8>, int), FrameError> {
    if buf.len() < 4 {
        Err(FrameError::Incomplete)
    } else if announced(buf) > MAX_FRAME_BYTES {
        Err(FrameError::FrameTooLarge)
    } else if buf.len() < 4 + announced(buf) {
        Err(FrameError::Incomplete)
    } else {
        Ok((buf.subrange(4, 4 + announced(buf)), 4 + announced(buf)))
    }
}

proof fn lemma_be_round_trip(n: u32)
    ensures
        be_value((n >> 24u32) as u8, (n >> 16u32) as u8, (n >> 8u32) as u8, n as u8) == n,
{
    assert(((((n >> 24u32) as u8) as u32) << 24u32) | ((((n >> 16u32) as u8) as u32) << 16u32)
        | ((((n >> 8u32) as u8) as u32) << 8u32) | ((n as u8) as u32) == n) by (bit_vector);
}

/// The frame carrying `payload`. Fails, producing nothing, when the payload
/// exceeds `MAX_FRAME_BYTES`.
pub fn encode_frame(payload: &[u8]) -> (r: Result<Vec<u8>, FrameError>)
    ensures
        payload@.len() > MAX_FRAME_BYTES <==> r == Err::<Vec<u8>, FrameError>(
            FrameError::FrameTooLarge,
        ),
        payload@.len() <= MAX_FRAME_BYTES ==> r is Ok,
        r matches Ok(bytes) ==> bytes@ == frame_of(payload@),
{
    if payload.len() > MAX_FRAME_BYTES as usize {
        return Err(FrameError::FrameTooLarge);
    }
    let n = payload.len() as u32;
    let mut out: Vec<u8> = Vec::new();
    out.push((n >> 24u32) as u8);
    out.push((n >> 16u32) as u8);
    out.push((n >> 8u32) as u8);
    out.push(n as u8);
    assert(out@ =~= be_bytes(n));
    let mut i: usize = 0;
    while i < payload.len()
        invariant
            i <= payload@.len(),
            n == payload@.len(),
            out@ == be_bytes(n) + payload@.subrange(0, i as int),
        decreases payload.len() - i,
    {
        out.push(payload[i]);
        i = i + 1;
        assert(out@ =~= be_bytes(n) + payload@.subrange(0, i as int));
    }
    assert(payload@.subrange(0, payload@.len() as int) =~= payload@);
    Ok(out)
}

/// The payload length a 4-byte prefix announces. Fails when it exceeds
/// `MAX_FRAME_BYTES`, so that no body of that size is ever read.
pub fn decode_frame_len(prefix: [u8; 4]) -> (r: Result<u32, FrameError>)
    ensures
        announced(prefix@) > MAX_FRAME_BYTES <==> r == Err::<u32, FrameError>(
            FrameError::FrameTooLarge,
        ),
        announced(prefix@) <= MAX_FRAME_BYTES ==> r == Ok::<u32, FrameError>(announced(prefix@)),
{
    let n = ((prefix[0] as u32) << 24u32) | ((prefix[1] as u32) << 16u32) | ((prefix[2] as u32)
        << 8u32) | (prefix[3] as u32);
    if n > MAX_FRAME_BYTES {
        Err(FrameError::FrameTooLarge)
    } else {
        Ok(n)
    }
}

/// Takes the first frame off `buf`: its payload and how many bytes of `buf`
/// it occupies.
pub fn decode_frame(buf: &[u8]) -> (r: Result<(Vec<u8>, usize), FrameError>)
    ensures
        match parse_frame(buf@) {
            Ok((payload, used)) => r matches Ok((p, u)) && p@ == payload && u == used,
            Err(e) => r == Err::<(Vec<u8>, usize), FrameError>(e),
        },
{
    if buf.len() < 4 {
        return Err(FrameError::Incomplete);
    }
    let n = ((buf[0] as u32) << 24u32) | ((buf[1] as u32) << 16u32) | ((buf[2] as u32) << 8u32) | (
    buf[3] as u32);
    if n > MAX_FRAME_BYTES {
        return Err(FrameError::FrameTooLarge);
    }
    if buf.len() - 4 < n as usize {
        return Err(FrameError::Incomplete);
    }
    let end = 4 + n as usize;
    let mut payload: Vec<u8> = Vec::new();
    let mut i: usize = 4;
    while i < end
        invariant
            4 <= i <= end,
            end <= buf@.len(),
            payload@ == buf@.subrange(4, i as int),
        decreases end - i,
    {
        payload.push(buf[i]);
        i = i + 1;
        assert(payload@ =~= buf@.subrange(4, i as int));
    }
    Ok((payload, end))
}

/// Framing round trip: taking the first frame off the bytes of a frame,
/// followed by anything at all, gives back the payload and the frame's size.
pub proof fn lemma_frame_round_trip(payload: Seq<u8>, rest: Seq<u8>)
    requires
        payload.len() <= MAX_FRAME_BYTES,
    ensures
        parse_frame(frame_of(payload) + rest) == Ok::<(Seq<u8>, int), FrameError>(
            (payload, 4 + payload.len() as int),
        ),
{
    let n = payload.len() as u32;
    let buf = frame_of(payload) + rest;
    lemma_be_round_trip(n);
    assert(announced(buf) == n);
    assert(buf.subrange(4, 4 + n) =~= payload);
}

/// A prefix that announces more than the ceiling is refused whatever
/// follows it.
pub proof fn lemma_oversized_prefix_refused(buf: Seq<u8>)
    requires
        buf.len() >= 4,
        announced(buf) > MAX_FRAME_BYTES,
    ensures
        parse_frame(buf) == Err::<(Seq<u8>, int), FrameError>(FrameError::FrameTooLarge),
{
}

} // verus!
