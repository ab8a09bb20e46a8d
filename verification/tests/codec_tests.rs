use pyorion::codec::{encode_frame, try_take_frame, FrameOutcome, MAX_FRAME_PAYLOAD};

#[test]
fn frame_has_le_length_prefix() {
    let payload = vec![1u8, 2, 3, 4, 5];
    let frame = encode_frame(&payload);
    assert_eq!(frame.len(), 9);
    assert_eq!(&frame[0..4], &[5, 0, 0, 0]);
    assert_eq!(&frame[4..], &payload[..]);
}

#[test]
fn frame_round_trip() {
    let payload = b"[7,\"window.set_title\",[\"Hello\"]]".to_vec();
    let frame = encode_frame(&payload);
    match try_take_frame(&frame) {
        FrameOutcome::Ready(p, consumed) => {
            assert_eq!(p, payload);
            assert_eq!(consumed, frame.len());
        }
        _ => panic!("expected a complete frame"),
    }
}

#[test]
fn frame_round_trip_with_trailing_bytes() {
    let payload = vec![9u8; 10];
    let mut buf = encode_frame(&payload);
    buf.extend_from_slice(&[0xaa, 0xbb]);
    match try_take_frame(&buf) {
        FrameOutcome::Ready(p, consumed) => {
            assert_eq!(p, payload);
            assert_eq!(consumed, 14);
        }
        _ => panic!("expected a complete frame"),
    }
}

#[test]
fn short_prefix_needs_more() {
    assert!(matches!(try_take_frame(&vec![1, 0]), FrameOutcome::NeedMore));
    assert!(matches!(try_take_frame(&Vec::new()), FrameOutcome::NeedMore));
}

// A length prefix of 10 with only 5 payload bytes: no frame is taken,
// so no response is ever produced for it; the connection loop simply
// stops when the peer closes.
#[test]
fn truncated_payload_needs_more() {
    let mut buf = vec![10u8, 0, 0, 0];
    buf.extend_from_slice(&[1, 2, 3, 4, 5]);
    assert!(matches!(try_take_frame(&buf), FrameOutcome::NeedMore));
}

#[test]
fn oversized_length_refused() {
    let too_big = MAX_FRAME_PAYLOAD + 1;
    let buf = too_big.to_le_bytes().to_vec();
    assert!(matches!(try_take_frame(&buf), FrameOutcome::TooLarge));
}

#[test]
fn empty_payload_frame() {
    let frame = encode_frame(&Vec::new());
    assert_eq!(frame, vec![0, 0, 0, 0]);
    match try_take_frame(&frame) {
        FrameOutcome::Ready(p, consumed) => {
            assert!(p.is_empty());
            assert_eq!(consumed, 4);
        }
        _ => panic!("expected a complete empty frame"),
    }
}
