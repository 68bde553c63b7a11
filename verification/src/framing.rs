//! Length-prefixed framing of the messages exchanged over the local sockets:
//! a frame is the payload length as a little-endian `u32`, then the payload.

use vstd::prelude::*;

verus! {

/// The four little-endian bytes of `v`.
pub open spec fn le_bytes(v: u32) -> Seq<u8> {
    seq![
        (v & 0xff) as u8,
        ((v >> 8) & 0xff) as u8,
        ((v >> 16) & 0xff) as u8,
        ((v >> 24) & 0xff) as u8,
    ]
}

/// The `u32` whose little-endian bytes are the first four of `b`.
pub open spec fn from_le_bytes(b: Seq<u8>) -> u32
    recommends
        b.len() >= 4,
{
    (b[0] as u32) | ((b[1] as u32) << 8) | ((b[2] as u32) << 16) | ((b[3] as u32) << 24)
}

/// The length field of a frame whose payload has `len` bytes: the length
/// taken modulo 2^32, as the length is sent as a `u32`.
pub open spec fn header_of(len: nat) -> Seq<u8> {
    le_bytes((len % 0x1_0000_0000) as u32)
}

/// The frame that carries `payload`.
pub open spec fn frame_of(payload: Seq<u8>) -> Seq<u8> {
    header_of(payload.len()) + payload
}

/// Why a byte sequence does not start with a whole frame.
#[derive(Debug, Clone, Copy, PartialEq, Eq)]
pub enum FrameError {
    /// Fewer than four bytes: the length field is not complete.
    IncompleteHeader,
    /// The length field announces more payload bytes than follow it.
    IncompletePayload { expected: u32 },
}

/// What reading one frame from the front of `buf` gives: the payload and the
/// number of bytes the frame takes, or why there is no whole frame.
pub open spec fn decode_of(buf: Seq<u8>) -> Result<(Seq<u8>, nat), FrameError> {
    if buf.len() < 4 {
        Err(FrameError::IncompleteHeader)
    } else {
        let n: u32 = from_le_bytes(buf);
        if buf.len() < 4 + n {
            Err(FrameError::IncompletePayload { expected: n })
        } else {
            Ok((buf.subrange(4, 4 + n), (4 + n) as nat))
        }
    }
}

/// Reading the bytes of a `u32` back gives the `u32`.
pub proof fn lemma_le_bytes_roundtrip(v: u32)
    ensures
        le_bytes(v).len() == 4,
        from_le_bytes(le_bytes(v)) == v,
{
    let b0: u8 = (v & 0xff) as u8;
    let b1: u8 = ((v >> 8) & 0xff) as u8;
    let b2: u8 = ((v >> 16) & 0xff) as u8;
    let b3: u8 = ((v >> 24) & 0xff) as u8;
    assert(le_bytes(v)[0] == b0 && le_bytes(v)[1] == b1 && le_bytes(v)[2] == b2 && le_bytes(v)[3]
        == b3);
    assert((b0 as u32) | ((b1 as u32) << 8) | ((b2 as u32) << 16) | ((b3 as u32) << 24) == v)
        by (bit_vector)
        requires
            b0 == (v & 0xff) as u8,
            b1 == ((v >> 8) & 0xff) as u8,
            b2 == ((v >> 16) & 0xff) as u8,
            b3 == ((v >> 24) & 0xff) as u8,
    ;
}

/// Writing the `u32` that four bytes encode gives those bytes back.
pub proof fn lemma_from_le_bytes_roundtrip(b: Seq<u8>)
    requires
        b.len() == 4,
    ensures
        le_bytes(from_le_bytes(b)) == b,
{
    let b0: u8 = b[0];
    let b1: u8 = b[1];
    let b2: u8 = b[2];
    let b3: u8 = b[3];
    let v: u32 = from_le_bytes(b);
    assert(v == (b0 as u32) | ((b1 as u32) << 8) | ((b2 as u32) << 16) | ((b3 as u32) << 24));
    assert((v & 0xff) as u8 == b0 && ((v >> 8) & 0xff) as u8 == b1 && ((v >> 16) & 0xff) as u8
        == b2 && ((v >> 24) & 0xff) as u8 == b3) by (bit_vector)
        requires
            v == (b0 as u32) | ((b1 as u32) << 8) | ((b2 as u32) << 16) | ((b3 as u32) << 24),
    ;
    assert(le_bytes(v) =~= b);
}

/// The `u32` that four little-endian bytes encode is the sum of the bytes,
/// each weighted by 256 to the power of its position.
pub proof fn lemma_from_le_bytes_value(b: Seq<u8>)
    requires
        b.len() >= 4,
    ensures
        from_le_bytes(b) as int == b[0] as int + 256 * (b[1] as int) + 65536 * (b[2] as int)
            + 16777216 * (b[3] as int),
{
    let b0: u8 = b[0];
    let b1: u8 = b[1];
    let b2: u8 = b[2];
    let b3: u8 = b[3];
    assert((b0 as u32) | ((b1 as u32) << 8) | ((b2 as u32) << 16) | ((b3 as u32) << 24) == (b0
        as u32) + 256 * (b1 as u32) + 65536 * (b2 as u32) + 16777216 * (b3 as u32))
        by (bit_vector);
}

/// The four bytes of `v`, read as a little-endian number, give `v` back.
pub proof fn lemma_le_bytes_value(v: u32)
    ensures
        le_bytes(v).len() == 4,
        le_bytes(v)[0] as int + 256 * (le_bytes(v)[1] as int) + 65536 * (le_bytes(v)[2] as int)
            + 16777216 * (le_bytes(v)[3] as int) == v as int,
{
    lemma_le_bytes_roundtrip(v);
    lemma_from_le_bytes_value(le_bytes(v));
}

/// A frame is exactly four header bytes followed by the payload, and the
/// header bytes, read as a little-endian number, give the payload's length
/// modulo 2^32.
pub proof fn lemma_frame_layout(payload: Seq<u8>)
    ensures
        frame_of(payload).len() == payload.len() + 4,
        frame_of(payload).subrange(4, frame_of(payload).len() as int) == payload,
        frame_of(payload)[0] as int + 256 * (frame_of(payload)[1] as int) + 65536 * (
        frame_of(payload)[2] as int) + 16777216 * (frame_of(payload)[3] as int) == payload.len()
            % 0x1_0000_0000,
{
    let f: Seq<u8> = frame_of(payload);
    let v: u32 = (payload.len() % 0x1_0000_0000) as u32;
    lemma_le_bytes_roundtrip(v);
    assert(f.subrange(4, f.len() as int) =~= payload);
    lemma_from_le_bytes_value(le_bytes(v));
    lemma_from_le_bytes_value(f);
    assert(f[0] == le_bytes(v)[0] && f[1] == le_bytes(v)[1] && f[2] == le_bytes(v)[2] && f[3]
        == le_bytes(v)[3]);
}

/// Reading a frame from received bytes: fewer than four bytes lack a whole
/// header; with a header announcing `n` bytes (its little-endian value),
/// fewer than `4 + n` bytes lack payload, reported with `n`; otherwise the
/// frame is the header and the next `n` bytes, and takes `4 + n` bytes.
pub proof fn lemma_decode_outcomes(buf: Seq<u8>)
    ensures
        buf.len() < 4 ==> decode_of(buf) == Err::<(Seq<u8>, nat), FrameError>(
            FrameError::IncompleteHeader,
        ),
        buf.len() >= 4 ==> ({
            let n: int = buf[0] as int + 256 * (buf[1] as int) + 65536 * (buf[2] as int)
                + 16777216 * (buf[3] as int);
            &&& buf.len() < 4 + n ==> decode_of(buf) == Err::<(Seq<u8>, nat), FrameError>(
                FrameError::IncompletePayload { expected: n as u32 },
            )
            &&& buf.len() >= 4 + n ==> decode_of(buf) == Ok::<(Seq<u8>, nat), FrameError>(
                (buf.subrange(4, 4 + n), (4 + n) as nat),
            )
        }),
        decode_of(buf) matches Ok((p, used)) ==> used == p.len() + 4 && used <= buf.len()
            && p == buf.subrange(4, used as int),
{
    if buf.len() >= 4 {
        lemma_from_le_bytes_value(buf);
    }
}

/// The little-endian bytes of `v`.
pub fn u32_to_le_bytes(v: u32) -> (bytes: [u8; 4])
    ensures
        bytes@ == le_bytes(v),
        bytes[0] as int + 256 * (bytes[1] as int) + 65536 * (bytes[2] as int) + 16777216 * (
        bytes[3] as int) == v as int,
{
    proof {
        lemma_le_bytes_value(v);
    }
    let bytes: [u8; 4] = [
        (v & 0xff) as u8,
        ((v >> 8) & 0xff) as u8,
        ((v >> 16) & 0xff) as u8,
        ((v >> 24) & 0xff) as u8,
    ];
    assert(bytes@ =~= le_bytes(v));
    bytes
}

/// The `u32` whose little-endian bytes are `bytes`.
pub fn u32_from_le_bytes(bytes: &[u8; 4]) -> (v: u32)
    ensures
        v == from_le_bytes(bytes@),
        v as int == bytes[0] as int + 256 * (bytes[1] as int) + 65536 * (bytes[2] as int)
            + 16777216 * (bytes[3] as int),
{
    proof {
        lemma_from_le_bytes_value(bytes@);
    }
    (bytes[0] as u32) | ((bytes[1] as u32) << 8) | ((bytes[2] as u32) << 16) | ((bytes[3] as u32)
        << 24)
}

/// The length field that goes before a payload of `payload_len` bytes.
pub fn frame_header(payload_len: usize) -> (header: [u8; 4])
    ensures
        header@ == header_of(payload_len as nat),
        header[0] as int + 256 * (header[1] as int) + 65536 * (header[2] as int) + 16777216 * (
        header[3] as int) == payload_len as int % 0x1_0000_0000,
{
    let wide: u64 = payload_len as u64;
    let len: u32 = (wide % 0x1_0000_0000u64) as u32;
    u32_to_le_bytes(len)
}

/// The payload length that a received length field announces.
pub fn frame_payload_len(header: &[u8; 4]) -> (len: u32)
    ensures
        len == from_le_bytes(header@),
        len as int == header[0] as int + 256 * (header[1] as int) + 65536 * (header[2] as int)
            + 16777216 * (header[3] as int),
{
    u32_from_le_bytes(header)
}

/// The whole frame that carries `payload`: length field, then payload.
pub fn encode_frame(payload: &[u8]) -> (frame: Vec<u8>)
    ensures
        frame@ == frame_of(payload@),
        frame@.len() == payload@.len() + 4,
        frame@.subrange(4, frame@.len() as int) == payload@,
        frame@[0] as int + 256 * (frame@[1] as int) + 65536 * (frame@[2] as int) + 16777216 * (
        frame@[3] as int) == payload@.len() % 0x1_0000_0000,
{
    let header: [u8; 4] = frame_header(payload.len());
    let mut frame: Vec<u8> = Vec::new();
    for i in 0..4usize
        invariant
            header@ == header_of(payload@.len()),
            frame@ == header@.take(i as int),
    {
        frame.push(header[i]);
        assert(header@.take(i + 1) =~= header@.take(i as int).push(header@[i as int]));
    }
    assert(header@.take(4) =~= header@);
    let n: usize = payload.len();
    for i in 0..n
        invariant
            n == payload@.len(),
            frame@ == header@ + payload@.take(i as int),
    {
        frame.push(payload[i]);
        assert(payload@.take(i + 1) =~= payload@.take(i as int).push(payload@[i as int]));
    }
    assert(payload@.take(n as int) =~= payload@);
    proof {
        lemma_frame_layout(payload@);
    }
    frame
}

/// Reads one frame from the front of `buf`: its payload and the number of
/// bytes the frame takes.
pub fn decode_frame(buf: &[u8]) -> (res: Result<(Vec<u8>, usize), FrameError>)
    ensures
        match (res, decode_of(buf@)) {
            (Ok((payload, used)), Ok((p, u))) => payload@ == p && used == u,
            (Err(e), Err(f)) => e == f,
            _ => false,
        },
        buf@.len() < 4 ==> res == Err::<(Vec<u8>, usize), FrameError>(FrameError::IncompleteHeader),
        buf@.len() >= 4 ==> ({
            let n: int = buf@[0] as int + 256 * (buf@[1] as int) + 65536 * (buf@[2] as int)
                + 16777216 * (buf@[3] as int);
            &&& buf@.len() < 4 + n ==> res == Err::<(Vec<u8>, usize), FrameError>(
                FrameError::IncompletePayload { expected: n as u32 },
            )
            &&& buf@.len() >= 4 + n ==> (res matches Ok((payload, used)) && used == 4 + n
                && payload@ == buf@.subrange(4, 4 + n))
        }),
{
    proof {
        lemma_decode_outcomes(buf@);
    }
    if buf.len() < 4 {
        return Err(FrameError::IncompleteHeader);
    }
    let header: [u8; 4] = [buf[0], buf[1], buf[2], buf[3]];
    let n: u32 = frame_payload_len(&header);
    if ((buf.len() - 4) as u64) < (n as u64) {
        return Err(FrameError::IncompletePayload { expected: n });
    }
    let end: usize = 4 + n as usize;
    let mut payload: Vec<u8> = Vec::new();
    for i in 4..end
        invariant
            4 <= end <= buf@.len(),
            payload@ == buf@.subrange(4, i as int),
    {
        payload.push(buf[i]);
        assert(buf@.subrange(4, i + 1) =~= buf@.subrange(4, i as int).push(buf@[i as int]));
    }
    Ok((payload, end))
}

/// A frame read back gives the payload it carries, and the bytes it took,
/// for every payload whose length fits the `u32` length field.
pub proof fn lemma_frame_roundtrip(payload: Seq<u8>, rest: Seq<u8>)
    requires
        payload.len() <= u32::MAX,
    ensures
        decode_of(frame_of(payload) + rest) == Ok::<(Seq<u8>, nat), FrameError>(
            (payload, payload.len() + 4),
        ),
{
    let len: nat = payload.len();
    assert(len % 0x1_0000_0000 == len);
    lemma_le_bytes_roundtrip(len as u32);
    let buf: Seq<u8> = frame_of(payload) + rest;
    assert(buf.len() == 4 + len + rest.len());
    assert(buf[0] == le_bytes(len as u32)[0]);
    assert(buf[1] == le_bytes(len as u32)[1]);
    assert(buf[2] == le_bytes(len as u32)[2]);
    assert(buf[3] == le_bytes(len as u32)[3]);
    assert(from_le_bytes(buf) == len);
    assert(buf.subrange(4, 4 + len as int) =~= payload);
}

} // verus!
