use vintage::codec::{is_true, msg_decode, msg_encode, MsgCodecError, MsgDecoded};
use vintage::frame::{frame_decode, frame_encode};
use vintage::msg::act::Act;

#[test]
fn act_message_layout() {
    let act = Act { id: 0x0102, content: vec![9, 8] };
    let bytes = msg_encode(&act).unwrap();
    let mut expected = vec![1u8, 0x02, 0x01];
    expected.extend_from_slice(&[0u8; 14]);
    expected.extend_from_slice(&[2, 0, 0, 0, 0, 0, 0, 0, 9, 8]);
    assert_eq!(bytes, expected);
}

#[test]
fn act_message_roundtrip() {
    let act = Act { id: u128::MAX - 7, content: (0..200u8).collect() };
    let bytes = msg_encode(&act).unwrap();
    assert_eq!(msg_decode(&bytes), Ok(MsgDecoded::Act(act)));
}

#[test]
fn message_with_unknown_kind_is_refused() {
    let act = Act { id: 5, content: vec![] };
    let mut bytes = msg_encode(&act).unwrap();
    bytes[0] = 2;
    assert_eq!(msg_decode(&bytes), Err(MsgCodecError::InvalidKind(2)));
}

#[test]
fn truncated_message_is_refused() {
    let act = Act { id: 5, content: vec![1, 2, 3] };
    let bytes = msg_encode(&act).unwrap();
    assert_eq!(msg_decode(&bytes[..bytes.len() - 1]), Err(MsgCodecError::Decode));
    assert_eq!(msg_decode(&bytes[..10]), Err(MsgCodecError::Decode));
}

#[test]
fn trailing_bytes_are_ignored() {
    let act = Act { id: 5, content: vec![1] };
    let mut bytes = msg_encode(&act).unwrap();
    bytes.push(77);
    assert_eq!(msg_decode(&bytes), Ok(MsgDecoded::Act(act)));
}

#[test]
fn is_true_accepts_only_encoded_true() {
    assert!(is_true(&[1]));
    assert!(!is_true(&[0]));
    assert!(!is_true(&[1, 1]));
    assert!(!is_true(&[]));
}

#[test]
fn frame_layout_and_roundtrip() {
    let frame = frame_encode(&[7, 8, 9]);
    assert_eq!(frame, vec![0, 0, 0, 3, 7, 8, 9]);
    let mut buf = frame.clone();
    buf.extend_from_slice(&[0, 0]);
    assert_eq!(frame_decode(&buf), Some((vec![7, 8, 9], 7)));
}

#[test]
fn incomplete_frames_wait() {
    assert_eq!(frame_decode(&[0, 0, 0]), None);
    assert_eq!(frame_decode(&[0, 0, 1, 0, 5]), None);
    assert_eq!(frame_decode(&[0, 0, 0, 0]), Some((vec![], 4)));
}

#[test]
fn frame_length_is_big_endian() {
    let payload = vec![0u8; 0x0102];
    let frame = frame_encode(&payload);
    assert_eq!(&frame[..4], &[0, 0, 1, 2]);
    assert_eq!(frame_decode(&frame), Some((payload, 4 + 0x0102)));
}

#[test]
fn fresh_act_ids_differ() {
    let a = Act::new_id();
    let b = Act::new_id();
    assert_ne!(a, b);
    for id in [a, b] {
        assert_eq!((id >> 76) & 0xF, 4);
        assert_eq!((id >> 62) & 0x3, 2);
    }
    let act = Act { id: a, content: vec![] };
    assert_eq!(*act.id(), a);
}
