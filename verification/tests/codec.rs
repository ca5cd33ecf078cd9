use bytes::BytesMut;
use gear_connector::codec::{
    FrameError, VcmiCommand, VcmiCommandCodec, VcmiReply, VcmiSavedGame, HEADER_LEN, MAX_BODY_LEN,
};

#[test]
fn a_frame_is_its_length_and_its_body() {
    let mut codec = VcmiCommandCodec;
    let mut buffer = BytesMut::new();
    assert_eq!(codec.encode(b"\"LoadAll\"", &mut buffer), Ok(()));
    assert_eq!(&buffer[..], b"\x09\x00\x00\x00\"LoadAll\"");
    assert_eq!(HEADER_LEN, 4);
    assert_eq!(MAX_BODY_LEN, 4294967295);
}

#[test]
fn the_length_is_written_least_significant_byte_first() {
    let mut codec = VcmiCommandCodec;
    let mut buffer = BytesMut::new();
    let body = vec![7u8; 0x1_02_03];
    assert_eq!(codec.encode(&body, &mut buffer), Ok(()));
    assert_eq!(&buffer[..4], &[0x03, 0x02, 0x01, 0x00]);
    assert_eq!(buffer.len(), 4 + 0x1_02_03);
    assert_eq!(codec.decode(&mut buffer), Some(body));
    assert!(buffer.is_empty());
}

#[test]
fn a_frame_comes_back_as_it_went_in() {
    let mut codec = VcmiCommandCodec;
    let mut buffer = BytesMut::new();
    let body = b"{\"Save\":{\"filename\":\"g1\",\"archive_bytes\":[1,2,3]}}".to_vec();
    assert_eq!(codec.encode(&body, &mut buffer), Ok(()));
    assert_eq!(codec.decode(&mut buffer), Some(body));
    assert_eq!(buffer.len(), 0);
    assert_eq!(codec.decode(&mut buffer), None);
}

#[test]
fn an_empty_body_is_a_frame() {
    let mut codec = VcmiCommandCodec;
    let mut buffer = BytesMut::new();
    assert_eq!(codec.encode(b"", &mut buffer), Ok(()));
    assert_eq!(&buffer[..], &[0, 0, 0, 0]);
    assert_eq!(codec.decode(&mut buffer), Some(Vec::new()));
    assert!(buffer.is_empty());
}

#[test]
fn frames_are_appended_and_taken_in_order() {
    let mut codec = VcmiCommandCodec;
    let mut buffer = BytesMut::from(&b"\x01\x00\x00\x00a"[..]);
    assert_eq!(codec.encode(b"bc", &mut buffer), Ok(()));
    assert_eq!(&buffer[..], b"\x01\x00\x00\x00a\x02\x00\x00\x00bc");
    assert_eq!(codec.decode(&mut buffer), Some(b"a".to_vec()));
    assert_eq!(&buffer[..], b"\x02\x00\x00\x00bc");
    assert_eq!(codec.decode(&mut buffer), Some(b"bc".to_vec()));
    assert_eq!(codec.decode(&mut buffer), None);
}

#[test]
fn a_partial_frame_waits_for_the_rest() {
    let mut codec = VcmiCommandCodec;
    let mut whole = BytesMut::new();
    assert_eq!(codec.encode(b"hello", &mut whole), Ok(()));
    let whole = whole.to_vec();
    for arrived in 0..whole.len() {
        let mut buffer = BytesMut::from(&whole[..arrived]);
        assert_eq!(codec.decode(&mut buffer), None);
        assert_eq!(&buffer[..], &whole[..arrived]);
        buffer.extend_from_slice(&whole[arrived..]);
        assert_eq!(codec.decode(&mut buffer), Some(b"hello".to_vec()));
        assert!(buffer.is_empty());
    }
}

#[test]
fn a_large_announced_length_is_only_waited_for() {
    let mut codec = VcmiCommandCodec;
    let mut buffer = BytesMut::from(&[0x00u8, 0x00, 0x00, 0x01, 9, 9][..]);
    assert_eq!(codec.decode(&mut buffer), None);
    assert_eq!(&buffer[..], &[0x00u8, 0x00, 0x00, 0x01, 9, 9]);
}

#[test]
fn the_error_variants_differ() {
    assert_ne!(FrameError::BodyTooLong, FrameError::BufferFull);
}

#[test]
fn commands_and_replies_hold_what_they_are_given() {
    let save = VcmiCommand::Save { filename: "g1".to_string(), archive_bytes: vec![1, 2, 3] };
    assert_eq!(save.clone(), save);
    assert_ne!(save, VcmiCommand::LoadAll);
    let game = VcmiSavedGame { filename: "g1".to_string(), data: vec![1] };
    let reply = VcmiReply::AllLoaded { archives: vec![game.clone()] };
    assert_eq!(reply, VcmiReply::AllLoaded { archives: vec![game] });
}
