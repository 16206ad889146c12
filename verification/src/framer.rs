use vstd::prelude::*;

use crate::errors::BusError;

verus! {

/// Largest payload, in bytes, that a frame may carry (16 MiB).
pub const MAX_FRAME: usize = 16777216;

/// The four bytes of `x` in big-endian order.
pub open spec fn spec_u32_to_be_bytes(x: u32) -> Seq<u8> {
    seq![
        ((x >> 24) & 0xff) as u8,
        ((x >> 16) & 0xff) as u8,
        ((x >> 8) & 0xff) as u8,
        (x & 0xff) as u8,
    ]
}

/// The value of four big-endian bytes.
pub open spec fn spec_u32_from_be_bytes(s: Seq<u8>) -> u32
    recommends
        s.len() == 4,
{
    (s[0] as u32) << 24 | (s[1] as u32) << 16 | (s[2] as u32) << 8 | (s[3] as u32)
}

pub proof fn lemma_u32_to_from_be_bytes(x: u32)
    ensures
        spec_u32_to_be_bytes(x).len() == 4,
        spec_u32_from_be_bytes(spec_u32_to_be_bytes(x)) == x,
{
    assert({
        &&& (x >> 24) & 0xff < 256
        &&& (x >> 16) & 0xff < 256
        &&& (x >> 8) & 0xff < 256
        &&& x & 0xff < 256
    }) by (bit_vector);
    assert(x == ((x >> 24) & 0xff) << 24 | ((x >> 16) & 0xff) << 16 | ((x >> 8) & 0xff) << 8 | (
    x & 0xff)) by (bit_vector);
}

/// A whole frame: the payload length as a 4-byte big-endian prefix, then the payload.
pub open spec fn spec_frame(payload: Seq<u8>) -> Seq<u8>
    recommends
        payload.len() <= MAX_FRAME,
{
    spec_u32_to_be_bytes(payload.len() as u32) + payload
}

/// What a well-formed frame decodes to: its payload, or nothing if the
/// prefix is out of bounds or the byte count does not match the prefix.
pub open spec fn spec_decode_frame(f: Seq<u8>) -> Option<Seq<u8>> {
    if f.len() < 4 {
        None
    } else {
        let n = spec_u32_from_be_bytes(f.subrange(0, 4));
        if n > MAX_FRAME || f.len() != n + 4 {
            None
        } else {
            Some(f.skip(4))
        }
    }
}

/// Framing round-trip: a payload within bounds survives encoding and decoding
/// unchanged.
pub proof fn lemma_frame_round_trip(payload: Seq<u8>)
    requires
        payload.len() <= MAX_FRAME,
    ensures
        spec_decode_frame(spec_frame(payload)) == Some(payload),
{
    let n: u32 = payload.len() as u32;
    let f = spec_frame(payload);
    lemma_u32_to_from_be_bytes(n);
    assert(f.subrange(0, 4) =~= spec_u32_to_be_bytes(n));
    assert(f.skip(4) =~= payload);
}

/// Prepend the 4-byte big-endian length prefix to `payload`; payloads over
/// `MAX_FRAME` bytes are refused.
pub fn encode_frame(payload: &Vec<u8>) -> (r: Result<Vec<u8>, BusError>)
    ensures
        payload@.len() <= MAX_FRAME ==> (r matches Ok(f) && f@ == spec_frame(payload@)),
        payload@.len() > MAX_FRAME ==> (r matches Err(e) && e == BusError::FrameTooLarge),
{
    if payload.len() > MAX_FRAME {
        return Err(BusError::FrameTooLarge);
    }
    let n: u32 = payload.len() as u32;
    let mut out: Vec<u8> = Vec::new();
    out.push(((n >> 24) & 0xff) as u8);
    out.push(((n >> 16) & 0xff) as u8);
    out.push(((n >> 8) & 0xff) as u8);
    out.push((n & 0xff) as u8);
    assert(out@ =~= spec_u32_to_be_bytes(n));
    let mut i: usize = 0;
    while i < payload.len()
        invariant
            i <= payload@.len(),
            payload@.len() <= MAX_FRAME,
            out@ == spec_u32_to_be_bytes(n) + payload@.subrange(0, i as int),
        decreases payload@.len() - i,
    {
        out.push(payload[i]);
        assert(out@ =~= spec_u32_to_be_bytes(n) + payload@.subrange(0, i + 1));
        i = i + 1;
    }
    assert(payload@.subrange(0, payload@.len() as int) =~= payload@);
    Ok(out)
}

/// Read the 4-byte big-endian length prefix; lengths over `MAX_FRAME` are
/// refused as fatal.
pub fn decode_frame_header(header: &[u8]) -> (r: Result<usize, BusError>)
    requires
        header@.len() == 4,
    ensures
        spec_u32_from_be_bytes(header@) <= MAX_FRAME ==> (r matches Ok(n) && n
            == spec_u32_from_be_bytes(header@)),
        spec_u32_from_be_bytes(header@) > MAX_FRAME ==> (r matches Err(e) && e
            == BusError::FrameTooLarge),
{
    let b0: u32 = header[0] as u32;
    let b1: u32 = header[1] as u32;
    let b2: u32 = header[2] as u32;
    let b3: u32 = header[3] as u32;
    assert(b0 << 24 <= 0xff000000 && b1 << 16 <= 0xff0000 && b2 << 8 <= 0xff00) by (bit_vector)
        requires
            b0 < 256 && b1 < 256 && b2 < 256,
    ;
    let n: u32 = b0 << 24 | b1 << 16 | b2 << 8 | b3;
    if n as usize > MAX_FRAME {
        Err(BusError::FrameTooLarge)
    } else {
        Ok(n as usize)
    }
}

/// Decode one whole frame held in a buffer: check the length prefix against
/// the buffer and hand back the payload bytes.
pub fn decode_frame(frame: &Vec<u8>) -> (r: Result<Vec<u8>, BusError>)
    ensures
        spec_decode_frame(frame@) matches Some(p) ==> (r matches Ok(q) && q@ == p),
        frame@.len() < 4 ==> (r matches Err(e) && e == BusError::TransportClosed),
        frame@.len() >= 4 && spec_u32_from_be_bytes(frame@.subrange(0, 4)) > MAX_FRAME ==> (
        r matches Err(e) && e == BusError::FrameTooLarge),
        frame@.len() >= 4 && spec_u32_from_be_bytes(frame@.subrange(0, 4)) <= MAX_FRAME
            && frame@.len() != spec_u32_from_be_bytes(frame@.subrange(0, 4)) + 4 ==> (
        r matches Err(e) && e == BusError::TransportClosed),
{
    if frame.len() < 4 {
        return Err(BusError::TransportClosed);
    }
    let b0: u32 = frame[0] as u32;
    let b1: u32 = frame[1] as u32;
    let b2: u32 = frame[2] as u32;
    let b3: u32 = frame[3] as u32;
    assert(b0 << 24 <= 0xff000000 && b1 << 16 <= 0xff0000 && b2 << 8 <= 0xff00) by (bit_vector)
        requires
            b0 < 256 && b1 < 256 && b2 < 256,
    ;
    let n: u32 = b0 << 24 | b1 << 16 | b2 << 8 | b3;
    assert(n == spec_u32_from_be_bytes(frame@.subrange(0, 4)));
    if n as usize > MAX_FRAME {
        return Err(BusError::FrameTooLarge);
    }
    if frame.len() - 4 != n as usize {
        return Err(BusError::TransportClosed);
    }
    let mut payload: Vec<u8> = Vec::new();
    let mut i: usize = 4;
    while i < frame.len()
        invariant
            4 <= i <= frame@.len(),
            payload@ == frame@.subrange(4, i as int),
        decreases frame@.len() - i,
    {
        payload.push(frame[i]);
        assert(payload@ =~= frame@.subrange(4, i + 1));
        i = i + 1;
    }
    assert(payload@ =~= frame@.skip(4));
    Ok(payload)
}

} // verus!
