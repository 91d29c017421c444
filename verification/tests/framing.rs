use desktop_ipc::framing::{
    decode_header, encode_header, read, read_frame, write_frame, ByteOrder, FrameDecoder,
    FramingError,
};

#[test]
fn header_bytes_follow_the_order() {
    assert_eq!(encode_header(5, ByteOrder::Little), [5, 0, 0, 0]);
    assert_eq!(encode_header(5, ByteOrder::Big), [0, 0, 0, 5]);
    assert_eq!(encode_header(0x0102_0304, ByteOrder::Little), [4, 3, 2, 1]);
    assert_eq!(encode_header(0x0102_0304, ByteOrder::Big), [1, 2, 3, 4]);
    assert_eq!(encode_header(u32::MAX, ByteOrder::Big), [255, 255, 255, 255]);
}

#[test]
fn header_value_follows_the_order() {
    assert_eq!(decode_header(&[4, 3, 2, 1], ByteOrder::Little), 0x0102_0304);
    assert_eq!(decode_header(&[4, 3, 2, 1], ByteOrder::Big), 0x0403_0201);
    assert_eq!(decode_header(&[0, 0, 0, 0], ByteOrder::Big), 0);
    assert_eq!(decode_header(&[255, 255, 255, 255], ByteOrder::Little), u32::MAX);
}

#[test]
fn header_round_trips_in_both_orders() {
    for len in [0u32, 1, 255, 256, 65_535, 65_536, 16_777_216, u32::MAX] {
        for order in [ByteOrder::Little, ByteOrder::Big] {
            assert_eq!(decode_header(&encode_header(len, order), order), len);
        }
    }
}

#[test]
fn frame_is_header_then_body() {
    let frame = write_frame(b"hello", ByteOrder::Little).unwrap();
    assert_eq!(frame, vec![5, 0, 0, 0, b'h', b'e', b'l', b'l', b'o']);
    let frame = write_frame(b"hello", ByteOrder::Big).unwrap();
    assert_eq!(frame, vec![0, 0, 0, 5, b'h', b'e', b'l', b'l', b'o']);
}

#[test]
fn empty_body_is_a_bare_header() {
    assert_eq!(write_frame(b"", ByteOrder::Big).unwrap(), vec![0, 0, 0, 0]);
    assert_eq!(read_frame(&[0, 0, 0, 0], ByteOrder::Big), Ok(Vec::new()));
}

#[test]
fn read_frame_returns_the_body() {
    let input = [3, 0, 0, 0, b'a', b'b', b'c'];
    assert_eq!(read_frame(&input, ByteOrder::Little), Ok(b"abc".to_vec()));
}

#[test]
fn read_frame_ignores_what_follows_the_frame() {
    let input = [0, 0, 0, 2, b'o', b'k', 9, 9, 9];
    assert_eq!(read_frame(&input, ByteOrder::Big), Ok(b"ok".to_vec()));
}

#[test]
fn short_header_is_truncated_header() {
    assert_eq!(read_frame(&[], ByteOrder::Little), Err(FramingError::TruncatedHeader));
    assert_eq!(read_frame(&[1, 0, 0], ByteOrder::Little), Err(FramingError::TruncatedHeader));
    assert_eq!(read(&[1, 0, 0]), Err(FramingError::TruncatedHeader));
}

#[test]
fn short_body_is_truncated_body() {
    assert_eq!(
        read_frame(&[4, 0, 0, 0, b'a', b'b', b'c'], ByteOrder::Little),
        Err(FramingError::TruncatedBody)
    );
    assert_eq!(read_frame(&[0, 0, 1, 0], ByteOrder::Big), Err(FramingError::TruncatedBody));
}

#[test]
fn the_same_bytes_read_differently_in_the_other_order() {
    let input = [0, 0, 0, 1, b'x'];
    assert_eq!(read_frame(&input, ByteOrder::Big), Ok(b"x".to_vec()));
    assert_eq!(read_frame(&input, ByteOrder::Little), Err(FramingError::TruncatedBody));
}

#[test]
fn native_write_then_read_round_trips() {
    let frame = desktop_ipc::framing::write("{\"a\":1}").unwrap();
    assert_eq!(frame.len(), 4 + 7);
    assert_eq!(read(&frame), Ok(b"{\"a\":1}".to_vec()));
}

#[test]
fn native_write_matches_the_native_order() {
    let order = ByteOrder::native();
    assert_eq!(desktop_ipc::framing::write("ok").unwrap(), write_frame(b"ok", order).unwrap());
    let expected = if 1u16.to_ne_bytes()[0] == 1 { ByteOrder::Little } else { ByteOrder::Big };
    assert_eq!(order, expected);
}

#[test]
fn native_header_is_the_machines_own() {
    let frame = desktop_ipc::framing::write("hello").unwrap();
    assert_eq!(frame[..4], 5u32.to_ne_bytes());
}

#[test]
fn write_frame_counts_bytes_not_characters() {
    let frame = write_frame("é".as_bytes(), ByteOrder::Big).unwrap();
    assert_eq!(frame, vec![0, 0, 0, 2, 0xC3, 0xA9]);
}

#[test]
fn decoder_waits_for_a_whole_frame() {
    let mut decoder = FrameDecoder::new(ByteOrder::Big);
    assert_eq!(decoder.next_frame(), None);
    decoder.feed(&[0, 0]);
    assert_eq!(decoder.next_frame(), None);
    decoder.feed(&[0, 3, b'a']);
    assert_eq!(decoder.next_frame(), None);
    decoder.feed(&[b'b', b'c']);
    assert_eq!(decoder.next_frame(), Some(b"abc".to_vec()));
    assert_eq!(decoder.next_frame(), None);
    assert_eq!(decoder.finish(), Ok(()));
}

#[test]
fn decoder_yields_frames_in_wire_order() {
    let mut wire = write_frame(b"one", ByteOrder::Little).unwrap();
    wire.extend(write_frame(b"", ByteOrder::Little).unwrap());
    wire.extend(write_frame(b"three", ByteOrder::Little).unwrap());
    let mut decoder = FrameDecoder::new(ByteOrder::Little);
    decoder.feed(&wire);
    assert_eq!(decoder.next_frame(), Some(b"one".to_vec()));
    assert_eq!(decoder.next_frame(), Some(Vec::new()));
    assert_eq!(decoder.next_frame(), Some(b"three".to_vec()));
    assert_eq!(decoder.next_frame(), None);
}

#[test]
fn decoder_handles_every_split_point() {
    let wire = write_frame(b"payload", ByteOrder::Big).unwrap();
    for cut in 0..=wire.len() {
        let mut decoder = FrameDecoder::new(ByteOrder::Big);
        decoder.feed(&wire[..cut]);
        if cut < wire.len() {
            assert_eq!(decoder.next_frame(), None);
        }
        decoder.feed(&wire[cut..]);
        assert_eq!(decoder.next_frame(), Some(b"payload".to_vec()));
        assert_eq!(decoder.finish(), Ok(()));
    }
}

#[test]
fn decoder_reports_a_stream_that_ends_mid_frame() {
    let mut decoder = FrameDecoder::new(ByteOrder::Big);
    decoder.feed(&[0, 0]);
    assert_eq!(decoder.finish(), Err(FramingError::TruncatedHeader));
    decoder.feed(&[0, 9, b'x']);
    assert_eq!(decoder.finish(), Err(FramingError::TruncatedBody));
}

#[test]
fn probe_value_tells_the_order() {
    assert_eq!(ByteOrder::from_probe(1), ByteOrder::Little);
    assert_eq!(ByteOrder::from_probe(256), ByteOrder::Big);
    assert_eq!(ByteOrder::from_probe(u16::from_ne_bytes([1, 0])), ByteOrder::native());
    assert_eq!(ByteOrder::from_probe(u16::from_le_bytes([1, 0])), ByteOrder::Little);
    assert_eq!(ByteOrder::from_probe(u16::from_be_bytes([1, 0])), ByteOrder::Big);
}
