//! Frame layout of the control socket: each message is `[len: u32 BE][body]`
//! where `len` counts the body bytes only and lies in `1..=MAX_FRAME_BYTES`.

use vstd::prelude::*;
use crate::text::{dec, push_decimal, push_str};

verus! {

/// Hard cap on the body of one frame (16 MiB).
pub const MAX_FRAME_BYTES: usize = 16 * 1024 * 1024;

/// Why a frame cannot be written or read.
#[derive(Debug, Clone, Copy, PartialEq, Eq, Structural)]
pub enum FrameError {
    /// The header announced a length of zero or above the cap.
    InvalidLength(u32),
    /// A body to write is above the cap.
    TooLarge(usize),
    /// The buffer ends before the header or the announced body does.
    Truncated,
}

/// The length that a big-endian header announces.
pub open spec fn be_u32(h: [u8; 4]) -> u32 {
    (h[0] as u32) << 24u32 | (h[1] as u32) << 16u32 | (h[2] as u32) << 8u32 | (h[3] as u32)
}

/// The big-endian header of length `n`.
pub open spec fn be_bytes(n: u32) -> Seq<u8> {
    seq![((n >> 24u32) & 0xff) as u8, ((n >> 16u32) & 0xff) as u8, ((n >> 8u32) & 0xff) as u8, (n & 0xff) as u8]
}

/// The frame that holds `body`.
pub open spec fn encode_frame_spec(body: Seq<u8>) -> Result<Seq<u8>, FrameError> {
    if body.len() > MAX_FRAME_BYTES {
        Err(FrameError::TooLarge(body.len() as usize))
    } else {
        Ok(be_bytes(body.len() as u32) + body)
    }
}

/// What a header says: the body length, or why it is refused.
pub open spec fn frame_length_spec(h: [u8; 4]) -> Result<usize, FrameError> {
    let n = be_u32(h);
    if n == 0 || n > MAX_FRAME_BYTES {
        Err(FrameError::InvalidLength(n))
    } else {
        Ok(n as usize)
    }
}

/// The body of the frame at the start of `buf`, and the bytes it spans.
pub open spec fn decode_frame_spec(buf: Seq<u8>) -> Result<(Seq<u8>, usize), FrameError> {
    if buf.len() < 4 {
        Err(FrameError::Truncated)
    } else {
        match frame_length_spec([buf[0], buf[1], buf[2], buf[3]]) {
            Err(e) => Err(e),
            Ok(n) => if buf.len() < 4 + n {
                Err(FrameError::Truncated)
            } else {
                Ok((buf.subrange(4, 4 + n), (4 + n) as usize))
            },
        }
    }
}

/// Reads the body length from a frame header.
pub fn frame_length(h: [u8; 4]) -> (r: Result<usize, FrameError>)
    ensures
        r == frame_length_spec(h),
{
    let n: u32 = (h[0] as u32) << 24u32 | (h[1] as u32) << 16u32 | (h[2] as u32) << 8u32 | (
    h[3] as u32);
    if n == 0 || n as usize > MAX_FRAME_BYTES {
        Err(FrameError::InvalidLength(n))
    } else {
        Ok(n as usize)
    }
}

/// Builds the frame that carries `body`.
pub fn encode_frame(body: &[u8]) -> (r: Result<Vec<u8>, FrameError>)
    ensures
        match r {
            Ok(v) => encode_frame_spec(body@) == Ok::<Seq<u8>, FrameError>(v@),
            Err(e) => encode_frame_spec(body@) == Err::<Seq<u8>, FrameError>(e),
        },
{
    if body.len() > MAX_FRAME_BYTES {
        return Err(FrameError::TooLarge(body.len()));
    }
    let n = body.len() as u32;
    let mut v: Vec<u8> = Vec::new();
    v.push(((n >> 24u32) & 0xff) as u8);
    v.push(((n >> 16u32) & 0xff) as u8);
    v.push(((n >> 8u32) & 0xff) as u8);
    v.push((n & 0xff) as u8);
    let mut i: usize = 0;
    while i < body.len()
        invariant
            i <= body@.len(),
            body@.len() <= MAX_FRAME_BYTES,
            n == body@.len(),
            v@ == be_bytes(n) + body@.take(i as int),
        decreases body.len() - i,
    {
        v.push(body[i]);
        proof {
            assert(body@.take(i + 1) =~= body@.take(i as int).push(body@[i as int]));
            assert(v@ =~= be_bytes(n) + body@.take(i + 1));
        }
        i += 1;
    }
    proof {
        assert(body@.take(body@.len() as int) =~= body@);
    }
    Ok(v)
}

/// Reads the frame at the start of `buf`: its body and the bytes it spans.
pub fn decode_frame(buf: &[u8]) -> (r: Result<(Vec<u8>, usize), FrameError>)
    ensures
        match r {
            Ok((body, used)) => decode_frame_spec(buf@) == Ok::<(Seq<u8>, usize), FrameError>(
                (body@, used),
            ),
            Err(e) => decode_frame_spec(buf@) == Err::<(Seq<u8>, usize), FrameError>(e),
        },
{
    if buf.len() < 4 {
        return Err(FrameError::Truncated);
    }
    let h = [buf[0], buf[1], buf[2], buf[3]];
    proof {
        assert(h == [buf@[0], buf@[1], buf@[2], buf@[3]]);
    }
    let n = match frame_length(h) {
        Err(e) => return Err(e),
        Ok(n) => n,
    };
    if buf.len() - 4 < n {
        return Err(FrameError::Truncated);
    }
    let mut body: Vec<u8> = Vec::new();
    let mut i: usize = 0;
    while i < n
        invariant
            i <= n,
            4 + n <= buf@.len(),
            buf@.len() <= usize::MAX,
            body@ == buf@.subrange(4, 4 + i),
        decreases n - i,
    {
        body.push(buf[4 + i]);
        proof {
            assert(body@ =~= buf@.subrange(4, 4 + i + 1));
        }
        i += 1;
    }
    Ok((body, 4 + n))
}

proof fn lemma_be_round_trip(n: u32)
    ensures
        ((((n >> 24u32) & 0xff) as u8) as u32) << 24u32 | ((((n >> 16u32) & 0xff) as u8) as u32)
            << 16u32 | ((((n >> 8u32) & 0xff) as u8) as u32) << 8u32 | (((n & 0xff) as u8) as u32)
            == n,
{
    assert(((((n >> 24u32) & 0xff) as u8) as u32) << 24u32 | ((((n >> 16u32) & 0xff) as u8) as u32)
        << 16u32 | ((((n >> 8u32) & 0xff) as u8) as u32) << 8u32 | (((n & 0xff) as u8) as u32)
        == n) by (bit_vector);
}

/// Reading back a frame gives the body that was written, for every body of
/// 1 to `MAX_FRAME_BYTES` bytes, and the frame spans exactly its own bytes.
pub proof fn lemma_frame_round_trip(body: Seq<u8>, rest: Seq<u8>)
    requires
        0 < body.len() <= MAX_FRAME_BYTES,
    ensures
        encode_frame_spec(body) matches Ok(f) && decode_frame_spec(f + rest) == Ok::<
            (Seq<u8>, usize),
            FrameError,
        >((body, f.len() as usize)),
{
    let n = body.len() as u32;
    let f = be_bytes(n) + body;
    let buf = f + rest;
    lemma_be_round_trip(n);
    assert(buf[0] == be_bytes(n)[0]);
    assert(buf[1] == be_bytes(n)[1]);
    assert(buf[2] == be_bytes(n)[2]);
    assert(buf[3] == be_bytes(n)[3]);
    assert(be_u32([buf[0], buf[1], buf[2], buf[3]]) == n);
    assert(buf.subrange(4, 4 + n) =~= body);
}

/// A header announces what it was written with: the length read back from a
/// written header is the body length, for every body the cap allows.
pub proof fn lemma_header_round_trip(n: u32)
    requires
        0 < n <= MAX_FRAME_BYTES,
    ensures
        frame_length_spec([be_bytes(n)[0], be_bytes(n)[1], be_bytes(n)[2], be_bytes(n)[3]]) == Ok::<
            usize,
            FrameError,
        >(n as usize),
{
    lemma_be_round_trip(n);
}

/// The error text of a frame error.
pub open spec fn frame_error_text(e: FrameError) -> Seq<char> {
    match e {
        FrameError::InvalidLength(n) => "invalid frame length: "@ + dec(n as nat),
        FrameError::TooLarge(n) => "frame too large: "@ + dec(n as nat) + " bytes"@,
        FrameError::Truncated => "frame truncated"@,
    }
}

impl FrameError {
    /// The error text shown to the user.
    pub fn message(&self) -> (r: String)
        ensures
            r@ == frame_error_text(*self),
    {
        let mut r = String::new();
        match *self {
            FrameError::InvalidLength(n) => {
                push_str(&mut r, "invalid frame length: ");
                push_decimal(&mut r, n as u64);
            },
            FrameError::TooLarge(n) => {
                push_str(&mut r, "frame too large: ");
                push_decimal(&mut r, n as u64);
                push_str(&mut r, " bytes");
            },
            FrameError::Truncated => {
                push_str(&mut r, "frame truncated");
            },
        }
        proof {
            assert(r@ =~= frame_error_text(*self));
        }
        r
    }
}

} // verus!
