//! The wire codec: length-prefixed frames. A frame is a four-byte
//! big-endian length followed by exactly that many payload bytes; a
//! frame longer than the maximum is refused before allocation, and a
//! short read of either part is an error, never a silent success.

use vstd::prelude::*;

verus! {

/// Longest payload a frame may carry: sixteen mebibytes.
pub const MAX_FRAME_LEN: usize = 16777216;

/// Why a frame could not be encoded or decoded.
#[derive(Debug, Clone, Copy, PartialEq, Eq, Structural)]
pub enum FrameError {
    /// The payload length exceeds the frame maximum.
    TooLong,
    /// Fewer than four bytes where a length prefix was expected.
    TruncatedLength,
    /// Fewer payload bytes than the length prefix declares.
    TruncatedPayload,
}

/// Big-endian bytes of a 32-bit length.
pub open spec fn be32_to_bytes(x: u32) -> Seq<u8> {
    seq![
        ((x >> 24) & 0xff) as u8,
        ((x >> 16) & 0xff) as u8,
        ((x >> 8) & 0xff) as u8,
        (x & 0xff) as u8,
    ]
}

/// The 32-bit length read from four big-endian bytes.
pub open spec fn be32_from_bytes(s: Seq<u8>) -> u32
    recommends
        s.len() == 4,
{
    (s[0] as u32) << 24 | (s[1] as u32) << 16 | (s[2] as u32) << 8 | (s[3] as u32)
}

pub proof fn lemma_be32_to_from(x: u32)
    ensures
        be32_to_bytes(x).len() == 4,
        be32_from_bytes(be32_to_bytes(x)) == x,
{
    assert({
        &&& (x >> 24) & 0xff < 256
        &&& (x >> 16) & 0xff < 256
        &&& (x >> 8) & 0xff < 256
        &&& x & 0xff < 256
    }) by (bit_vector);
    assert(x == ((x >> 24) & 0xff) << 24 | ((x >> 16) & 0xff) << 16 | ((x >> 8) & 0xff) << 8 | (x
        & 0xff)) by (bit_vector);
}

/// The frame that carries a payload.
pub open spec fn frame_of(payload: Seq<u8>) -> Seq<u8>
    recommends
        payload.len() <= MAX_FRAME_LEN,
{
    be32_to_bytes(payload.len() as u32) + payload
}

/// What decoding a byte sequence yields: the payload and the number of
/// bytes consumed, or the error the sequence forces.
pub open spec fn decode_spec(buf: Seq<u8>) -> Result<(Seq<u8>, int), FrameError> {
    if buf.len() < 4 {
        Err(FrameError::TruncatedLength)
    } else {
        let n = be32_from_bytes(buf.take(4)) as int;
        if n > MAX_FRAME_LEN {
            Err(FrameError::TooLong)
        } else if buf.len() - 4 < n {
            Err(FrameError::TruncatedPayload)
        } else {
            Ok((buf.subrange(4, 4 + n), 4 + n))
        }
    }
}

/// Encodes one frame: the payload's length in four big-endian bytes,
/// then the payload. A payload over the maximum is refused.
pub fn encode_frame(payload: &Vec<u8>) -> (r: Result<Vec<u8>, FrameError>)
    ensures
        match r {
            Ok(f) => payload@.len() <= MAX_FRAME_LEN && f@ == frame_of(payload@),
            Err(e) => payload@.len() > MAX_FRAME_LEN && e == FrameError::TooLong,
        },
{
    if payload.len() > MAX_FRAME_LEN {
        return Err(FrameError::TooLong);
    }
    let n: u32 = payload.len() as u32;
    proof {
        assert((n >> 24) & 0xff < 256 && (n >> 16) & 0xff < 256 && (n >> 8) & 0xff < 256 && n
            & 0xff < 256) by (bit_vector);
    }
    let mut frame: Vec<u8> = Vec::new();
    frame.push(((n >> 24) & 0xff) as u8);
    frame.push(((n >> 16) & 0xff) as u8);
    frame.push(((n >> 8) & 0xff) as u8);
    frame.push((n & 0xff) as u8);
    frame.extend_from_slice(payload.as_slice());
    proof {
        assert(frame@ =~= be32_to_bytes(n) + payload@);
    }
    Ok(frame)
}

/// Decodes one frame from the head of a byte sequence, returning the
/// payload and how many bytes the frame occupied. Truncation of the
/// length prefix or of the payload is an error.
pub fn decode_frame(buf: &Vec<u8>) -> (r: Result<(Vec<u8>, usize), FrameError>)
    ensures
        match (r, decode_spec(buf@)) {
            (Ok(p), Ok(q)) => p.0@ == q.0 && p.1 as int == q.1,
            (Err(e), Err(f)) => e == f,
            _ => false,
        },
{
    if buf.len() < 4 {
        return Err(FrameError::TruncatedLength);
    }
    let n32 = (buf[0] as u32) << 24 | (buf[1] as u32) << 16 | (buf[2] as u32) << 8 | (buf[3]
        as u32);
    proof {
        assert(buf@.take(4) =~= seq![buf@[0], buf@[1], buf@[2], buf@[3]]);
        assert(be32_from_bytes(buf@.take(4)) == n32);
    }
    let n = n32 as usize;
    if n > MAX_FRAME_LEN {
        return Err(FrameError::TooLong);
    }
    if buf.len() - 4 < n {
        return Err(FrameError::TruncatedPayload);
    }
    let mut payload: Vec<u8> = Vec::new();
    let mut i: usize = 0;
    while i < n
        invariant
            0 <= i <= n,
            n <= MAX_FRAME_LEN,
            n + 4 <= buf@.len(),
            payload@ == buf@.subrange(4, 4 + i as int),
        decreases n - i,
    {
        payload.push(buf[4 + i]);
        proof {
            assert(payload@ =~= buf@.subrange(4, 4 + i as int + 1));
        }
        i = i + 1;
    }
    Ok((payload, 4 + n))
}

/// Decoding the frame of a payload gives the payload back whole, with
/// the frame's full length consumed.
pub proof fn lemma_frame_round_trip(payload: Seq<u8>)
    requires
        payload.len() <= MAX_FRAME_LEN,
    ensures
        decode_spec(frame_of(payload)) == Ok::<(Seq<u8>, int), FrameError>(
            (payload, payload.len() as int + 4),
        ),
{
    lemma_be32_to_from(payload.len() as u32);
    let f = frame_of(payload);
    assert(f.take(4) =~= be32_to_bytes(payload.len() as u32));
    assert(f.subrange(4, 4 + payload.len() as int) =~= payload);
}

/// A frame cut short anywhere, in the prefix or in the payload, fails
/// to decode: truncation is never a silent success.
pub proof fn lemma_frame_truncation(payload: Seq<u8>, k: int)
    requires
        payload.len() <= MAX_FRAME_LEN,
        0 <= k < frame_of(payload).len(),
    ensures
        decode_spec(frame_of(payload).take(k)) is Err,
{
    lemma_be32_to_from(payload.len() as u32);
    let f = frame_of(payload);
    let cut = f.take(k);
    if k >= 4 {
        assert(cut.take(4) =~= f.take(4));
        assert(f.take(4) =~= be32_to_bytes(payload.len() as u32));
        assert(cut.len() - 4 < payload.len());
    }
}

} // verus!
