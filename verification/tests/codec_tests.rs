use ais_common::codec::decode_frame;
use ais_common::codec::encode_frame;
use ais_common::codec::FrameError;
use ais_common::codec::MAX_FRAME_LEN;

#[test]
fn frame_round_trip() {
    let payload: Vec<u8> = b"{\"message_received\":true}".to_vec();
    let frame = encode_frame(&payload).expect("a small payload must encode");
    assert_eq!(frame.len(), payload.len() + 4);
    let (decoded, consumed) = decode_frame(&frame).expect("a whole frame must decode");
    assert_eq!(decoded, payload);
    assert_eq!(consumed, frame.len());
}

#[test]
fn frame_length_prefix_is_big_endian() {
    let payload: Vec<u8> = vec![7u8; 258];
    let frame = encode_frame(&payload).unwrap();
    assert_eq!(&frame[0..4], &[0u8, 0u8, 1u8, 2u8]);
}

#[test]
fn empty_payload_round_trips() {
    let payload: Vec<u8> = Vec::new();
    let frame = encode_frame(&payload).unwrap();
    assert_eq!(frame, vec![0u8, 0u8, 0u8, 0u8]);
    let (decoded, consumed) = decode_frame(&frame).unwrap();
    assert!(decoded.is_empty());
    assert_eq!(consumed, 4);
}

#[test]
fn truncated_length_prefix_errors() {
    let payload: Vec<u8> = b"hello".to_vec();
    let frame = encode_frame(&payload).unwrap();
    for cut in 0..4 {
        let short: Vec<u8> = frame[..cut].to_vec();
        assert_eq!(decode_frame(&short), Err(FrameError::TruncatedLength));
    }
}

#[test]
fn truncated_payload_errors() {
    let payload: Vec<u8> = b"hello".to_vec();
    let frame = encode_frame(&payload).unwrap();
    for cut in 4..frame.len() {
        let short: Vec<u8> = frame[..cut].to_vec();
        assert_eq!(decode_frame(&short), Err(FrameError::TruncatedPayload));
    }
}

#[test]
fn oversized_payload_is_refused_before_allocation() {
    let payload: Vec<u8> = vec![0u8; MAX_FRAME_LEN + 1];
    assert_eq!(encode_frame(&payload), Err(FrameError::TooLong));
    let at_limit: Vec<u8> = vec![0u8; MAX_FRAME_LEN];
    assert!(encode_frame(&at_limit).is_ok());
}

#[test]
fn oversized_declared_length_is_refused() {
    // A prefix declaring more than the maximum is an error even with no
    // payload behind it.
    let frame: Vec<u8> = vec![0xffu8, 0xff, 0xff, 0xff];
    assert_eq!(decode_frame(&frame), Err(FrameError::TooLong));
}

#[test]
fn second_frame_on_one_connection() {
    let first: Vec<u8> = b"one".to_vec();
    let second: Vec<u8> = b"two!".to_vec();
    let mut both = encode_frame(&first).unwrap();
    both.extend_from_slice(&encode_frame(&second).unwrap());
    let (p1, used) = decode_frame(&both).unwrap();
    assert_eq!(p1, first);
    let rest: Vec<u8> = both[used..].to_vec();
    let (p2, used2) = decode_frame(&rest).unwrap();
    assert_eq!(p2, second);
    assert_eq!(used2, rest.len());
}
