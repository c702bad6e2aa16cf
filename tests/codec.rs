use fancy_mumble::codec::{decode, encode, frame_size, known_tag, DecodeError, Message, UserState};

fn sample_messages() -> Vec<Message> {
    vec![
        Message::Authenticate { username: b"alice".to_vec() },
        Message::Ping {
            timestamp: 1_700_000_000,
            good: 1,
            late: 2,
            lost: 3,
            resync: 4,
            tcp_packets: 5,
            udp_packets: 6,
        },
        Message::Reject { reason: 7 },
        Message::ServerSync { session: 42 },
        Message::UserRemove { session: 9 },
        Message::UserState(UserState {
            session: 42,
            name: Some(b"a".to_vec()),
            channel_id: Some(3),
            muted: Some(true),
            deafened: Some(false),
        }),
        Message::UserState(UserState {
            session: 1,
            name: None,
            channel_id: None,
            muted: None,
            deafened: None,
        }),
        Message::TextMessage { channel_id: Some(0), receiver: None, text: b"hello".to_vec() },
        Message::TextMessage { channel_id: None, receiver: Some(12), text: Vec::new() },
        Message::Like { message_id: b"m7".to_vec() },
        Message::UserImage { mime: b"image/png".to_vec(), image: vec![0, 255, 7] },
    ]
}

#[test]
fn round_trip_every_kind() {
    for m in sample_messages() {
        let bytes = encode(&m);
        assert_eq!(decode(&bytes), Ok(m));
    }
}

#[test]
fn reject_frame_exact_bytes() {
    let bytes = encode(&Message::Reject { reason: 7 });
    assert_eq!(bytes, vec![4, 0, 4, 0, 0, 0, 7, 0, 0, 0]);
}

#[test]
fn authenticate_frame_exact_bytes() {
    let bytes = encode(&Message::Authenticate { username: b"ab".to_vec() });
    assert_eq!(bytes, vec![2, 0, 6, 0, 0, 0, 2, 0, 0, 0, b'a', b'b']);
}

#[test]
fn text_message_frame_exact_bytes() {
    let m = Message::TextMessage { channel_id: Some(1), receiver: None, text: b"x".to_vec() };
    assert_eq!(encode(&m), vec![11, 0, 11, 0, 0, 0, 1, 1, 0, 0, 0, 0, 1, 0, 0, 0, b'x']);
}

#[test]
fn truncated_frames_are_malformed() {
    for m in sample_messages() {
        let bytes = encode(&m);
        for k in 0..bytes.len() {
            assert_eq!(decode(&bytes[..k]), Err(DecodeError::MalformedFrame));
        }
    }
}

#[test]
fn empty_buffer_is_malformed() {
    assert_eq!(decode(&[]), Err(DecodeError::MalformedFrame));
}

#[test]
fn extra_bytes_after_frame_are_malformed() {
    let mut bytes = encode(&Message::ServerSync { session: 1 });
    bytes.push(0);
    assert_eq!(decode(&bytes), Err(DecodeError::MalformedFrame));
}

#[test]
fn unknown_tag_is_rejected() {
    let bytes = vec![99, 0, 4, 0, 0, 0, 1, 2, 3, 4];
    assert_eq!(decode(&bytes), Err(DecodeError::UnknownMessageType));
    assert!(!known_tag(99));
    assert!(known_tag(9));
}

#[test]
fn bad_presence_byte_is_payload_error() {
    // a user state whose name presence byte is 7
    let bytes = vec![9, 0, 8, 0, 0, 0, 42, 0, 0, 0, 7, 0, 0, 0];
    assert_eq!(decode(&bytes), Err(DecodeError::PayloadDecodeError));
}

#[test]
fn short_payload_is_payload_error() {
    // a ping whose payload holds only four bytes
    let bytes = vec![3, 0, 4, 0, 0, 0, 1, 2, 3, 4];
    assert_eq!(decode(&bytes), Err(DecodeError::PayloadDecodeError));
}

#[test]
fn trailing_payload_bytes_are_payload_error() {
    let bytes = vec![5, 0, 5, 0, 0, 0, 1, 0, 0, 0, 0];
    assert_eq!(decode(&bytes), Err(DecodeError::PayloadDecodeError));
}

#[test]
fn byte_string_longer_than_payload_is_payload_error() {
    let bytes = vec![2, 0, 5, 0, 0, 0, 9, 0, 0, 0, b'a'];
    assert_eq!(decode(&bytes), Err(DecodeError::PayloadDecodeError));
}

#[test]
fn frame_size_reads_header() {
    assert_eq!(frame_size(&[1, 0, 4]), None);
    assert_eq!(frame_size(&[1, 0, 4, 0, 0, 0]), Some(10));
    let bytes = encode(&Message::Authenticate { username: b"bob".to_vec() });
    assert_eq!(frame_size(&bytes), Some(bytes.len() as u64));
}

#[test]
fn like_round_trip_and_bytes() {
    let m = Message::Like { message_id: b"m1".to_vec() };
    let bytes = encode(&m);
    assert_eq!(bytes, vec![26, 0, 6, 0, 0, 0, 2, 0, 0, 0, b'm', b'1']);
    assert_eq!(decode(&bytes), Ok(m));
}

#[test]
fn user_image_frame_exact_bytes() {
    let m = Message::UserImage { mime: b"a".to_vec(), image: vec![9] };
    assert_eq!(encode(&m), vec![27, 0, 10, 0, 0, 0, 1, 0, 0, 0, b'a', 1, 0, 0, 0, 9]);
}
