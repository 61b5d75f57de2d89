use smarthome::codec::{
    decode_frame, encode_frame, encode_message, message_reader, FrameReader, CONTROL_REQUEST_ID,
    CONTROL_RESPONSE_ID, TEXT_MESSAGE_ID,
};
use smarthome::error::RecvError;
use smarthome::message::{ControlRequest, ControlResponse};

#[test]
fn frame_layout_is_big_endian() {
    let f = encode_frame(0x0102, &[9, 8, 7]).unwrap();
    assert_eq!(f, vec![0x01, 0x02, 0, 0, 0, 3, 9, 8, 7]);
}

#[test]
fn frame_length_of_empty_payload() {
    let f = encode_frame(TEXT_MESSAGE_ID, &[]).unwrap();
    assert_eq!(f, vec![0xFF, 0xFF, 0, 0, 0, 0]);
}

#[test]
fn frame_round_trip() {
    let payload: Vec<u8> = (0..=255u8).collect();
    let f = encode_frame(CONTROL_REQUEST_ID, &payload).unwrap();
    assert_eq!(f.len(), 6 + payload.len());
    assert_eq!(&f[2..6], &[0, 0, 1, 0]);
    assert_eq!(decode_frame(CONTROL_REQUEST_ID, &f).unwrap(), payload);
}

#[test]
fn frame_type_mismatch_is_bad_type() {
    let f = encode_frame(CONTROL_RESPONSE_ID, &[1, 2, 3]).unwrap();
    match decode_frame(CONTROL_REQUEST_ID, &f) {
        Err(RecvError::BadType(t)) => assert_eq!(t, CONTROL_RESPONSE_ID),
        other => panic!("unexpected {:?}", other),
    }
}

#[test]
fn reader_stops_after_type_on_mismatch() {
    let f = encode_frame(7, &[1, 2, 3]).unwrap();
    let mut r = FrameReader::new(8);
    assert_eq!(r.feed(&f), 2);
    assert!(r.is_done());
    assert_eq!(r.wanted(), 0);
}

#[test]
fn truncated_frame_is_incomplete() {
    let f = encode_frame(CONTROL_REQUEST_ID, &[1, 2, 3, 4]).unwrap();
    assert!(matches!(decode_frame(CONTROL_REQUEST_ID, &f[..5]), Err(RecvError::Incomplete)));
    assert!(matches!(decode_frame(CONTROL_REQUEST_ID, &f[..8]), Err(RecvError::Incomplete)));
    assert!(matches!(decode_frame(CONTROL_REQUEST_ID, &[]), Err(RecvError::Incomplete)));
}

#[test]
fn byte_at_a_time_equals_all_at_once() {
    let payload = b"partial transports still deliver".to_vec();
    let f = encode_frame(CONTROL_RESPONSE_ID, &payload).unwrap();

    let mut slow = FrameReader::new(CONTROL_RESPONSE_ID);
    let mut taken = 0;
    for b in &f {
        assert!(slow.wanted() >= 1);
        taken += slow.feed(std::slice::from_ref(b));
    }
    assert_eq!(taken, f.len());
    assert!(slow.is_done());

    let mut fast = FrameReader::new(CONTROL_RESPONSE_ID);
    assert_eq!(fast.feed(&f), f.len());
    assert_eq!(slow.finish().unwrap(), payload);
    assert_eq!(fast.finish().unwrap(), payload);
}

#[test]
fn reader_wants_each_field_in_turn() {
    let f = encode_frame(CONTROL_REQUEST_ID, &[5, 6, 7]).unwrap();
    let mut r = FrameReader::new(CONTROL_REQUEST_ID);
    assert_eq!(r.wanted(), 2);
    r.feed(&f[..1]);
    assert_eq!(r.wanted(), 1);
    r.feed(&f[1..2]);
    assert_eq!(r.wanted(), 4);
    r.feed(&f[2..6]);
    assert_eq!(r.wanted(), 3);
    r.feed(&f[6..]);
    assert_eq!(r.wanted(), 0);
}

#[test]
fn reader_leaves_the_next_frame_alone() {
    let mut stream = encode_frame(CONTROL_REQUEST_ID, &[1]).unwrap();
    stream.extend(encode_frame(CONTROL_REQUEST_ID, &[2, 2]).unwrap());
    let mut r = FrameReader::new(CONTROL_REQUEST_ID);
    let n = r.feed(&stream);
    assert_eq!(n, 7);
    assert_eq!(r.finish().unwrap(), vec![1]);
    assert_eq!(decode_frame(CONTROL_REQUEST_ID, &stream[n..]).unwrap(), vec![2, 2]);
}

#[test]
fn message_types_select_ids() {
    let f = encode_message::<ControlResponse>(&[4]).unwrap();
    assert_eq!(&f[..2], &[0, 2]);
    let mut r = message_reader::<ControlRequest>();
    r.feed(&f);
    assert!(matches!(r.finish(), Err(RecvError::BadType(2))));
}
