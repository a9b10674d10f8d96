use bench_client::codec::{encode_frame, FrameBuffer, FrameStep, FramingError, MAX_FRAME_LEN};

#[test]
fn frame_round_trip_small() {
    let payload = vec![1u8, 2, 3];
    let frame = encode_frame(&payload).unwrap();
    assert_eq!(frame, vec![0u8, 0, 0, 3, 1, 2, 3]);

    let mut buf = FrameBuffer::new();
    buf.feed(&frame);
    match buf.next_frame() {
        FrameStep::Payload(p) => assert_eq!(p, payload),
        other => panic!("expected a payload, got {:?}", other),
    }
    assert_eq!(buf.len(), 0);
    assert!(buf.end_of_stream().is_ok());
}

#[test]
fn empty_payload_round_trip() {
    let payload: Vec<u8> = vec![];
    let frame = encode_frame(&payload).unwrap();
    assert_eq!(frame, vec![0u8, 0, 0, 0]);

    let mut buf = FrameBuffer::new();
    buf.feed(&frame);
    match buf.next_frame() {
        FrameStep::Payload(p) => assert_eq!(p.len(), 0),
        other => panic!("expected an empty payload, got {:?}", other),
    }
}

#[test]
fn max_size_payload_round_trip() {
    let payload = vec![0xabu8; MAX_FRAME_LEN as usize];
    let frame = encode_frame(&payload).unwrap();
    assert_eq!(frame.len(), payload.len() + 4);

    let mut buf = FrameBuffer::new();
    buf.feed(&frame);
    match buf.next_frame() {
        FrameStep::Payload(p) => assert_eq!(p, payload),
        other => panic!("expected a payload, got {:?}", other),
    }
    assert_eq!(buf.len(), 0);
}

#[test]
fn oversized_payload_refused_by_encoder() {
    let payload = vec![0u8; MAX_FRAME_LEN as usize + 1];
    assert_eq!(encode_frame(&payload), Err(FramingError::Oversized));
}

#[test]
fn oversized_prefix_refused_without_reading_further() {
    let mut buf = FrameBuffer::new();
    // A prefix claiming 0xffffffff bytes, followed by a few stray bytes.
    buf.feed(&vec![0xffu8, 0xff, 0xff, 0xff, 1, 2, 3]);
    assert!(matches!(buf.next_frame(), FrameStep::Oversized));
    // The buffer is left untouched: the refusal reads only the prefix.
    assert_eq!(buf.len(), 7);
}

#[test]
fn partial_frames_are_buffered_not_consumed() {
    let payload = vec![9u8, 8, 7, 6, 5];
    let frame = encode_frame(&payload).unwrap();

    let mut buf = FrameBuffer::new();
    // Feed the frame in three ragged chunks; no partial frame is ever decoded.
    buf.feed(&frame[0..2].to_vec());
    assert!(matches!(buf.next_frame(), FrameStep::Incomplete));
    buf.feed(&frame[2..6].to_vec());
    assert!(matches!(buf.next_frame(), FrameStep::Incomplete));
    buf.feed(&frame[6..].to_vec());
    match buf.next_frame() {
        FrameStep::Payload(p) => assert_eq!(p, payload),
        other => panic!("expected a payload, got {:?}", other),
    }
}

#[test]
fn frame_boundaries_preserved_across_two_frames() {
    let a = vec![1u8, 1, 1];
    let b = vec![2u8, 2];
    let mut bytes = encode_frame(&a).unwrap();
    bytes.extend(encode_frame(&b).unwrap());

    let mut buf = FrameBuffer::new();
    buf.feed(&bytes);
    match buf.next_frame() {
        FrameStep::Payload(p) => assert_eq!(p, a),
        other => panic!("expected the first payload, got {:?}", other),
    }
    match buf.next_frame() {
        FrameStep::Payload(p) => assert_eq!(p, b),
        other => panic!("expected the second payload, got {:?}", other),
    }
    assert!(matches!(buf.next_frame(), FrameStep::Incomplete));
}

#[test]
fn stream_closing_mid_frame_is_truncated() {
    let mut buf = FrameBuffer::new();
    buf.feed(&vec![0u8, 0, 0, 5, 1, 2]);
    assert!(matches!(buf.next_frame(), FrameStep::Incomplete));
    assert_eq!(buf.end_of_stream(), Err(FramingError::Truncated));
}
