use freecord::channel::{
    check_recv_size, frame_message, read_frame, read_length_prefixed, read_varint_u64, recv_frame,
    write_length_prefixed, write_varint_u64_sync, FrameRead, IoErrorKind, RecvError, SendError,
    VarintRead, VarintReader, MAX_MESSAGE_SIZE,
};

#[test]
fn varint_zero_is_one_byte() {
    let mut out = Vec::new();
    assert_eq!(write_varint_u64_sync(0, &mut out), 1);
    assert_eq!(out, vec![0u8]);
}

#[test]
fn varint_300() {
    let mut out = vec![9u8];
    assert_eq!(write_varint_u64_sync(300, &mut out), 2);
    assert_eq!(out, vec![9u8, 0xAC, 0x02]);
}

#[test]
fn varint_max_is_ten_bytes() {
    let mut out = Vec::new();
    assert_eq!(write_varint_u64_sync(u64::MAX, &mut out), 10);
    assert_eq!(out[9], 0x01);
    assert_eq!(read_varint_u64(&out), VarintRead::Value(u64::MAX, 10));
}

#[test]
fn varint_roundtrip_values() {
    for v in [0u64, 1, 127, 128, 255, 16384, 1 << 35, (1 << 63) + 5, u64::MAX] {
        let mut out = Vec::new();
        let n = write_varint_u64_sync(v, &mut out);
        out.extend_from_slice(&[0xFF, 0x00]);
        assert_eq!(read_varint_u64(&out), VarintRead::Value(v, n));
    }
}

#[test]
fn varint_read_closed_truncated_too_long() {
    assert_eq!(read_varint_u64(&[]), VarintRead::Closed);
    assert_eq!(read_varint_u64(&[0x80]), VarintRead::Truncated);
    assert_eq!(read_varint_u64(&[0xFF; 11]), VarintRead::TooLong);
    assert_eq!(read_varint_u64(&[0xFF; 10]), VarintRead::TooLong);
}

#[test]
fn varint_tenth_byte_high_bits_are_dropped() {
    let mut bytes = vec![0xFFu8; 9];
    bytes.push(0x7F);
    assert_eq!(read_varint_u64(&bytes), VarintRead::Value(u64::MAX, 10));
}

#[test]
fn varint_reader_incremental() {
    let mut reader = VarintReader::new();
    assert!(reader.at_start());
    assert_eq!(reader.feed(0xAC), None);
    assert!(!reader.at_start());
    assert_eq!(reader.feed(0x02), Some(300));
}

#[test]
fn frame_roundtrip() {
    let payload = b"hello".to_vec();
    let mut out = Vec::new();
    write_length_prefixed(&payload, &mut out);
    assert_eq!(out, vec![5, b'h', b'e', b'l', b'l', b'o']);
    out.push(42);
    match read_frame(&out, 5) {
        FrameRead::Frame { payload_start, payload_end } => {
            assert_eq!(&out[payload_start..payload_end], &payload[..]);
            assert_eq!(payload_end, 6);
        }
        other => panic!("unexpected {other:?}"),
    }
    assert_eq!(read_frame(&out, 4), FrameRead::TooLarge(5));
    assert_eq!(read_frame(&out[..3], 5), FrameRead::Truncated);
    assert_eq!(read_frame(&[], 5), FrameRead::Closed);
}

#[test]
fn send_refuses_oversized_messages() {
    let payload = vec![0u8; MAX_MESSAGE_SIZE as usize + 1];
    let mut buffer = vec![1, 2, 3];
    assert_eq!(
        frame_message(&payload, &mut buffer),
        Err(SendError::MaxMessageSizeExceeded)
    );
    assert_eq!(buffer, vec![1, 2, 3]);
    let mut buffer = vec![1, 2, 3];
    assert_eq!(frame_message(&[7, 8], &mut buffer), Ok(()));
    assert_eq!(buffer, vec![2, 7, 8]);
}

#[test]
fn recv_maps_outcomes() {
    assert_eq!(recv_frame(&[]), Ok(None));
    assert_eq!(recv_frame(&[2, 7, 8, 9]), Ok(Some((1, 3))));
    assert_eq!(
        recv_frame(&[3, 7]),
        Err(RecvError::Io(IoErrorKind::UnexpectedEof))
    );
    assert_eq!(
        recv_frame(&[0x81, 0x80, 0x80, 0x10]),
        Err(RecvError::MaxMessageSizeExceeded)
    );
    assert_eq!(
        recv_frame(&[0xFF; 12]),
        Err(RecvError::Io(IoErrorKind::InvalidData))
    );
    assert_eq!(check_recv_size(MAX_MESSAGE_SIZE), Ok(MAX_MESSAGE_SIZE as usize));
    assert_eq!(
        check_recv_size(MAX_MESSAGE_SIZE + 1),
        Err(RecvError::MaxMessageSizeExceeded)
    );
}

#[test]
fn length_prefixed_eof_is_an_error() {
    assert_eq!(read_length_prefixed(&[], 10), Err(IoErrorKind::UnexpectedEof));
    assert_eq!(read_length_prefixed(&[11], 10), Err(IoErrorKind::InvalidData));
    assert_eq!(read_length_prefixed(&[1, 5], 10), Ok((1, 2)));
}
