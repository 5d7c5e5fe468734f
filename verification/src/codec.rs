//! Length-prefixed framing: one message travels as an 8-byte big-endian
//! length field followed by exactly that many payload bytes.

use vstd::prelude::*;

verus! {

/// Byte `i` (0 = most significant) of the big-endian encoding of `x`.
pub open spec fn be64_byte(x: u64, i: int) -> u8 {
    (x >> ((56 - 8 * i) as u64)) as u8
}

/// The 8-byte big-endian encoding of `x`.
pub open spec fn be64_bytes(x: u64) -> Seq<u8> {
    Seq::new(8, |i: int| be64_byte(x, i))
}

/// The value of an 8-byte big-endian length field.
pub open spec fn be64_value(s: Seq<u8>) -> u64
    recommends
        s.len() == 8,
{
    ((s[0] as u64) << 56u64) | ((s[1] as u64) << 48u64) | ((s[2] as u64) << 40u64)
        | ((s[3] as u64) << 32u64) | ((s[4] as u64) << 24u64) | ((s[5] as u64) << 16u64)
        | ((s[6] as u64) << 8u64) | (s[7] as u64)
}

/// Decoding an encoded length field recovers the length.
pub proof fn lemma_be64_round_trip(x: u64)
    ensures
        be64_bytes(x).len() == 8,
        be64_value(be64_bytes(x)) == x,
{
    let s = be64_bytes(x);
    assert(s[0] == (x >> 56u64) as u8);
    assert(s[1] == (x >> 48u64) as u8);
    assert(s[2] == (x >> 40u64) as u8);
    assert(s[3] == (x >> 32u64) as u8);
    assert(s[4] == (x >> 24u64) as u8);
    assert(s[5] == (x >> 16u64) as u8);
    assert(s[6] == (x >> 8u64) as u8);
    assert(s[7] == (x >> 0u64) as u8);
    assert((((x >> 56u64) as u8 as u64) << 56u64) | (((x >> 48u64) as u8 as u64) << 48u64)
        | (((x >> 40u64) as u8 as u64) << 40u64) | (((x >> 32u64) as u8 as u64) << 32u64)
        | (((x >> 24u64) as u8 as u64) << 24u64) | (((x >> 16u64) as u8 as u64) << 16u64)
        | (((x >> 8u64) as u8 as u64) << 8u64) | ((x >> 0u64) as u8 as u64) == x)
        by (bit_vector);
}

/// Encodes `x` as 8 big-endian bytes.
pub fn u64_to_be(x: u64) -> (r: Vec<u8>)
    ensures
        r@ == be64_bytes(x),
{
    let mut r: Vec<u8> = Vec::new();
    r.push((x >> 56u64) as u8);
    r.push((x >> 48u64) as u8);
    r.push((x >> 40u64) as u8);
    r.push((x >> 32u64) as u8);
    r.push((x >> 24u64) as u8);
    r.push((x >> 16u64) as u8);
    r.push((x >> 8u64) as u8);
    r.push(x as u8);
    proof {
        assert(x as u8 == (x >> 0u64) as u8) by (bit_vector);
        assert(r@ =~= be64_bytes(x));
    }
    r
}

/// Reads an 8-byte big-endian length field.
pub fn u64_from_be(s: &[u8]) -> (x: u64)
    requires
        s@.len() == 8,
    ensures
        x == be64_value(s@),
{
    ((s[0] as u64) << 56u64) | ((s[1] as u64) << 48u64) | ((s[2] as u64) << 40u64)
        | ((s[3] as u64) << 32u64) | ((s[4] as u64) << 24u64) | ((s[5] as u64) << 16u64)
        | ((s[6] as u64) << 8u64) | (s[7] as u64)
}

/// The frame of a message: an 8-byte big-endian length field, then the
/// message bytes themselves.
pub open spec fn frame_of(m: Seq<u8>) -> Seq<u8>
    recommends
        m.len() <= u64::MAX,
{
    be64_bytes(m.len() as u64) + m
}

/// The message a complete frame carries: `None` where the bytes are shorter
/// than a length field or where the length field does not match the payload.
pub open spec fn parse_frame(f: Seq<u8>) -> Option<Seq<u8>> {
    if f.len() < 8 {
        None
    } else if be64_value(f.take(8)) == f.len() - 8 {
        Some(f.skip(8))
    } else {
        None
    }
}

/// Framing round-trip: for every message, including the empty one, parsing
/// the frame written for it recovers exactly that message.
pub proof fn lemma_frame_round_trip(m: Seq<u8>)
    requires
        m.len() <= u64::MAX,
    ensures
        frame_of(m).len() == m.len() + 8,
        parse_frame(frame_of(m)) == Some(m),
{
    let f = frame_of(m);
    lemma_be64_round_trip(m.len() as u64);
    assert(f.take(8) =~= be64_bytes(m.len() as u64));
    assert(f.skip(8) =~= m);
}

/// Why a frame could not be parsed.
#[derive(Clone, Copy, Debug, PartialEq, Eq)]
pub enum FrameError {
    /// Fewer bytes than the 8-byte length field: a truncated connection, not
    /// a valid short frame.
    TruncatedHeader,
    /// The length field does not match the number of payload bytes.
    LengthMismatch,
}

/// Serializes one message as a frame: its length as an 8-byte big-endian
/// field, then the message verbatim. Zero-length messages are valid frames.
pub fn write_frame(payload: &Vec<u8>) -> (f: Vec<u8>)
    ensures
        f@ == frame_of(payload@),
        f@.len() == payload@.len() + 8,
{
    let len: u64 = payload.len() as u64;
    let mut f = u64_to_be(len);
    let mut body = vstd::slice::slice_to_vec(payload.as_slice());
    f.append(&mut body);
    proof {
        assert(f@ =~= frame_of(payload@));
    }
    f
}

/// Deserializes one complete frame back into its message: the payload where
/// the length field matches it exactly, the precise [`FrameError`] otherwise.
pub fn read_frame(frame: &Vec<u8>) -> (r: Result<Vec<u8>, FrameError>)
    ensures
        match r {
            Ok(m) => parse_frame(frame@) == Some(m@),
            Err(e) => parse_frame(frame@) is None && e == (
            if frame@.len() < 8 {
                FrameError::TruncatedHeader
            } else {
                FrameError::LengthMismatch
            }),
        },
{
    if frame.len() < 8 {
        return Err(FrameError::TruncatedHeader);
    }
    let header = vstd::slice::slice_subrange(frame.as_slice(), 0, 8);
    proof {
        assert(header@ =~= frame@.take(8));
    }
    let n = u64_from_be(header);
    if n != (frame.len() - 8) as u64 {
        return Err(FrameError::LengthMismatch);
    }
    let body = vstd::slice::slice_to_vec(
        vstd::slice::slice_subrange(frame.as_slice(), 8, frame.len()),
    );
    proof {
        assert(body@ =~= frame@.skip(8));
    }
    Ok(body)
}

/// Optional hardening over the wire-compatible default: whether a declared
/// payload length may be allocated. `None` keeps the legacy behaviour of
/// trusting the length field without an upper bound; `Some(m)` admits only
/// lengths up to `m`, checked before any allocation.
pub fn claimed_len_allowed(len: u64, max_frame_bytes: Option<u64>) -> (ok: bool)
    ensures
        ok == match max_frame_bytes {
            Option::None => true,
            Option::Some(m) => len <= m,
        },
{
    match max_frame_bytes {
        None => true,
        Some(m) => len <= m,
    }
}

} // verus!
