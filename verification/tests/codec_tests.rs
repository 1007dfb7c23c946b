use chess_server::codec::{FrameCodec, DELIMITER};

#[test]
fn no_delimiter_means_need_more_data() {
    let mut codec = FrameCodec {};
    let mut buf = b"\"Pin".to_vec();
    assert_eq!(codec.decode(&mut buf), None);
    assert_eq!(buf, b"\"Pin".to_vec());
}

#[test]
fn a_full_line_is_consumed_with_its_delimiter() {
    let mut codec = FrameCodec {};
    let mut buf = b"\"Ping\"\n".to_vec();
    assert_eq!(codec.decode(&mut buf), Some(b"\"Ping\"".to_vec()));
    assert!(buf.is_empty());
}

#[test]
fn two_lines_in_one_write_are_decoded_in_order() {
    // two commands concatenated with a single newline between them
    let mut codec = FrameCodec {};
    let mut buf = b"\"Enqueue\"\n\"Ping\"\n".to_vec();
    assert_eq!(codec.decode(&mut buf), Some(b"\"Enqueue\"".to_vec()));
    assert_eq!(buf, b"\"Ping\"\n".to_vec());
    assert_eq!(codec.decode(&mut buf), Some(b"\"Ping\"".to_vec()));
    assert!(buf.is_empty());
    assert_eq!(codec.decode(&mut buf), None);
}

#[test]
fn partial_tail_stays_buffered() {
    let mut codec = FrameCodec {};
    let mut buf = b"\"Ping\"\n\"Enq".to_vec();
    assert_eq!(codec.decode(&mut buf), Some(b"\"Ping\"".to_vec()));
    assert_eq!(buf, b"\"Enq".to_vec());
    assert_eq!(codec.decode(&mut buf), None);
}

#[test]
fn encode_appends_payload_and_delimiter() {
    let mut codec = FrameCodec {};
    let mut out = Vec::new();
    codec.encode(&b"\"Ping\"".to_vec(), &mut out);
    assert_eq!(out, b"\"Ping\"\n".to_vec());
    codec.encode(&b"\"Enqueue\"".to_vec(), &mut out);
    assert_eq!(out, b"\"Ping\"\n\"Enqueue\"\n".to_vec());
    assert_eq!(out.iter().filter(|&&b| b == DELIMITER).count(), 2);
}

#[test]
fn encode_then_decode_round_trips() {
    let mut codec = FrameCodec {};
    let mut wire = Vec::new();
    codec.encode(&b"{\"Login\":\"alice\"}".to_vec(), &mut wire);
    assert_eq!(codec.decode(&mut wire), Some(b"{\"Login\":\"alice\"}".to_vec()));
    assert!(wire.is_empty());
}
