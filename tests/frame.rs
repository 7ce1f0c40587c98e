use ersha::frame::{decode_frame, decode_frame_len, encode_frame, FrameError, MAX_FRAME_BYTES};

#[test]
fn test_frame_round_trip() {
    let payload = vec![1u8, 2, 3, 250];
    let bytes = encode_frame(&payload).unwrap();
    assert_eq!(bytes, vec![0, 0, 0, 4, 1, 2, 3, 250]);
    let (decoded, used) = decode_frame(&bytes).unwrap();
    assert_eq!(decoded, payload);
    assert_eq!(used, 8);
}

#[test]
fn test_frame_length_is_big_endian() {
    let payload = vec![7u8; 0x0102];
    let bytes = encode_frame(&payload).unwrap();
    assert_eq!(&bytes[..4], &[0, 0, 1, 2]);
    assert_eq!(bytes.len(), 4 + 0x0102);
    assert_eq!(decode_frame_len([0x00, 0x1e, 0x84, 0x80]), Ok(2_000_000));
}

#[test]
fn test_empty_payload_frame() {
    let bytes = encode_frame(&[]).unwrap();
    assert_eq!(bytes, vec![0, 0, 0, 0]);
    assert_eq!(decode_frame(&bytes), Ok((Vec::new(), 4)));
}

#[test]
fn test_frame_too_large_write() {
    let payload = vec![b'x'; MAX_FRAME_BYTES as usize + 1];
    assert_eq!(encode_frame(&payload), Err(FrameError::FrameTooLarge));
}

#[test]
fn test_largest_frame_accepted() {
    let payload = vec![0u8; MAX_FRAME_BYTES as usize];
    let bytes = encode_frame(&payload).unwrap();
    assert_eq!(bytes.len(), MAX_FRAME_BYTES as usize + 4);
    let (decoded, used) = decode_frame(&bytes).unwrap();
    assert_eq!(decoded.len(), MAX_FRAME_BYTES as usize);
    assert_eq!(used, bytes.len());
}

#[test]
fn test_frame_too_large_read() {
    let oversized = (MAX_FRAME_BYTES + 1).to_be_bytes();
    assert_eq!(decode_frame_len(oversized), Err(FrameError::FrameTooLarge));
    // The body is never needed to refuse the frame.
    assert_eq!(decode_frame(&oversized), Err(FrameError::FrameTooLarge));
}

#[test]
fn test_incomplete_frame() {
    assert_eq!(decode_frame(&[0, 0]), Err(FrameError::Incomplete));
    assert_eq!(decode_frame(&[0, 0, 0, 3, 9, 9]), Err(FrameError::Incomplete));
}

#[test]
fn test_multiple_frames() {
    let payloads = vec![b"Ping".to_vec(), b"Pong".to_vec(), b"Test error".to_vec()];
    let mut stream = Vec::new();
    for p in &payloads {
        stream.extend(encode_frame(p).unwrap());
    }
    let mut rest: &[u8] = &stream;
    for p in &payloads {
        let (decoded, used) = decode_frame(rest).unwrap();
        assert_eq!(&decoded, p);
        rest = &rest[used..];
    }
    assert!(rest.is_empty());
}
