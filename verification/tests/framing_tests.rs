use termorio::framing::{
    decode_frame, encode_frame, frame_header, frame_payload_len, u32_from_le_bytes,
    u32_to_le_bytes, FrameError,
};

#[test]
fn frame_of_hello_is_length_then_payload() {
    let frame = encode_frame(b"hello");
    assert_eq!(frame, vec![5, 0, 0, 0, b'h', b'e', b'l', b'l', b'o']);
}

#[test]
fn frame_of_empty_payload_is_zero_header() {
    assert_eq!(encode_frame(&[]), vec![0, 0, 0, 0]);
}

#[test]
fn frame_roundtrip_gives_payload_back() {
    let payload: Vec<u8> = (0..300u32).map(|i| (i % 251) as u8).collect();
    let frame = encode_frame(&payload);
    assert_eq!(frame.len(), payload.len() + 4);
    let (decoded, used) = decode_frame(&frame).unwrap();
    assert_eq!(decoded, payload);
    assert_eq!(used, 304);
}

#[test]
fn decode_reads_only_the_first_frame() {
    let mut bytes = encode_frame(&[9, 8, 7]);
    bytes.extend_from_slice(&[1, 2, 3, 4, 5]);
    let (decoded, used) = decode_frame(&bytes).unwrap();
    assert_eq!(decoded, vec![9, 8, 7]);
    assert_eq!(used, 7);
}

#[test]
fn header_is_little_endian() {
    assert_eq!(frame_header(0x0102_0304), [4, 3, 2, 1]);
    assert_eq!(u32_to_le_bytes(0xdead_beef), [0xef, 0xbe, 0xad, 0xde]);
    assert_eq!(u32_from_le_bytes(&[0xef, 0xbe, 0xad, 0xde]), 0xdead_beef);
    assert_eq!(frame_payload_len(&[0x10, 0x27, 0, 0]), 10_000);
}

#[test]
fn header_keeps_length_modulo_two_to_the_32() {
    if usize::BITS > 32 {
        let len = ((1u64 << 32) + 7) as usize;
        assert_eq!(frame_header(len), [7, 0, 0, 0]);
    }
}

#[test]
fn decode_short_header_is_incomplete_header() {
    assert_eq!(decode_frame(&[1, 0]), Err(FrameError::IncompleteHeader));
    assert_eq!(decode_frame(&[]), Err(FrameError::IncompleteHeader));
}

#[test]
fn decode_short_payload_is_incomplete_payload() {
    assert_eq!(
        decode_frame(&[3, 0, 0, 0, 1, 2]),
        Err(FrameError::IncompletePayload { expected: 3 })
    );
}
