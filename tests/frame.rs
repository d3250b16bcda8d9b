use fusen_net::buffer::{FrameBuffer, StreamEnd};
use fusen_net::frame::{Error, Frame};

fn encode(f: &Frame) -> Vec<u8> {
    f.serialization().expect("frame fits")
}

#[test]
fn ping_has_exact_bytes() {
    assert_eq!(encode(&Frame::Ping), vec![0x30, 0, 5, b'!', b'p', b'i', b'n', b'g']);
}

#[test]
fn ack_and_keepalive_have_exact_bytes() {
    assert_eq!(encode(&Frame::Ack), vec![0x30, 0, 4, b'!', b'a', b'c', b'k']);
    let mut keepalive = vec![0x30, 0, 10, b'!'];
    keepalive.extend_from_slice(b"keepalive");
    assert_eq!(encode(&Frame::KeepAlive), keepalive);
}

#[test]
fn connection_carries_its_payload() {
    let json = br#"{"source_tag":"id","target_tag":"R"}"#.to_vec();
    let bytes = encode(&Frame::Connection(json.clone()));
    assert_eq!(bytes[0], 0x30);
    assert_eq!(((bytes[1] as usize) << 8) | bytes[2] as usize, json.len() + 1);
    assert_eq!(bytes[3], b'*');
    assert_eq!(&bytes[4..], &json[..]);
}

#[test]
fn variant_bytes_follow_the_table() {
    assert_eq!(encode(&Frame::TargetConnection(vec![b'x']))[3], b'&');
    assert_eq!(encode(&Frame::Register(vec![b'x']))[3], b'+');
    assert_eq!(encode(&Frame::Subscribe(vec![b'x']))[3], b'$');
}

fn round_trip(f: Frame) -> Frame {
    let bytes = encode(&f);
    let (back, used) = Frame::parse(&bytes).expect("decodes");
    assert_eq!(used, bytes.len());
    back
}

#[test]
fn every_variant_round_trips() {
    assert!(matches!(round_trip(Frame::Ping), Frame::Ping));
    assert!(matches!(round_trip(Frame::Ack), Frame::Ack));
    assert!(matches!(round_trip(Frame::KeepAlive), Frame::KeepAlive));
    let p = b"{\"tag\":\"R\"}".to_vec();
    assert!(matches!(round_trip(Frame::Register(p.clone())), Frame::Register(q) if q == p));
    assert!(matches!(round_trip(Frame::Subscribe(p.clone())), Frame::Subscribe(q) if q == p));
    assert!(matches!(round_trip(Frame::Connection(p.clone())), Frame::Connection(q) if q == p));
    assert!(matches!(round_trip(Frame::TargetConnection(p.clone())), Frame::TargetConnection(q) if q == p));
    assert!(matches!(round_trip(Frame::Connection(vec![])), Frame::Connection(q) if q.is_empty()));
}

#[test]
fn encoded_size_is_header_plus_length_field() {
    for f in [Frame::Ping, Frame::Ack, Frame::Register(vec![7; 300]), Frame::Connection(vec![1; 65534])] {
        let bytes = encode(&f);
        let n = ((bytes[1] as usize) << 8) | bytes[2] as usize;
        assert_eq!(bytes.len(), 3 + n);
    }
}

#[test]
fn largest_body_fits_and_one_more_does_not() {
    let bytes = encode(&Frame::Connection(vec![b'a'; 65534]));
    assert_eq!(bytes.len(), 3 + 65535);
    assert_eq!(&bytes[1..3], &[0xff, 0xff]);
    assert_eq!(Frame::Connection(vec![b'a'; 65535]).serialization().unwrap_err(), Error::TooLong);
}

#[test]
fn parse_stops_at_the_frame_end() {
    let mut bytes = encode(&Frame::Ping);
    bytes.extend_from_slice(&encode(&Frame::Ack));
    let (f, used) = Frame::parse(&bytes).unwrap();
    assert!(matches!(f, Frame::Ping));
    assert_eq!(used, 8);
    assert!(matches!(Frame::parse(&bytes[used..]).unwrap().0, Frame::Ack));
}

#[test]
fn truncated_input_is_incomplete() {
    let bytes = encode(&Frame::KeepAlive);
    for cut in 0..bytes.len() {
        assert_eq!(Frame::parse(&bytes[..cut]).unwrap_err(), Error::Incomplete);
    }
}

#[test]
fn missing_sync_byte_is_a_verify_error() {
    assert_eq!(Frame::parse(&[0x31, 0, 1, b'!']).unwrap_err(), Error::Verify);
    assert_eq!(Frame::parse(&[0x31]).unwrap_err(), Error::Verify);
    assert_eq!(Error::Verify.message(), "parse verify error");
}

#[test]
fn unknown_variant_byte_is_a_parse_error() {
    assert_eq!(Frame::parse(&[0x30, 0, 2, b'?', b'x']).unwrap_err(), Error::Unknown);
    assert_eq!(Frame::parse(&[0x30, 0, 0]).unwrap_err(), Error::Unknown);
    assert_eq!(Error::Unknown.message(), "parse error");
}

#[test]
fn unknown_probe_text_reads_as_ack() {
    let (f, _) = Frame::parse(&[0x30, 0, 4, b'!', b'h', b'e', b'y']).unwrap();
    assert!(matches!(f, Frame::Ack));
    let (f, _) = Frame::parse(&[0x30, 0, 1, b'!']).unwrap();
    assert!(matches!(f, Frame::Ack));
}

#[test]
fn buffer_waits_for_a_whole_frame() {
    let bytes = encode(&Frame::Register(b"{}".to_vec()));
    let mut buf = FrameBuffer::new();
    buf.extend(&bytes[..4]);
    assert!(matches!(buf.next_frame(), Ok(None)));
    buf.extend(&bytes[4..]);
    assert!(matches!(buf.next_frame(), Ok(Some(Frame::Register(p))) if p == b"{}".to_vec()));
    assert!(buf.is_empty());
    assert!(matches!(buf.next_frame(), Ok(None)));
}

#[test]
fn buffer_yields_frames_in_order() {
    let mut bytes = encode(&Frame::Ping);
    bytes.extend_from_slice(&encode(&Frame::KeepAlive));
    bytes.extend_from_slice(&encode(&Frame::Ack)[..2]);
    let mut buf = FrameBuffer::new();
    buf.extend(&bytes);
    assert!(matches!(buf.next_frame(), Ok(Some(Frame::Ping))));
    assert!(matches!(buf.next_frame(), Ok(Some(Frame::KeepAlive))));
    assert!(matches!(buf.next_frame(), Ok(None)));
    assert_eq!(buf.end_of_stream(), StreamEnd::Reset);
}

#[test]
fn buffer_reports_bad_bytes_and_keeps_them() {
    let mut buf = FrameBuffer::new();
    buf.extend(&[0x41, 0, 1, b'!']);
    assert_eq!(buf.next_frame().unwrap_err(), Error::Verify);
    assert!(!buf.is_empty());
}

#[test]
fn empty_buffer_ends_cleanly() {
    let buf = FrameBuffer::new();
    assert_eq!(buf.end_of_stream(), StreamEnd::Eof);
}

#[test]
fn pending_bytes_are_handed_over_as_payload() {
    let mut bytes = encode(&Frame::Ack);
    bytes.extend_from_slice(b"payload");
    let mut buf = FrameBuffer::new();
    buf.extend(&bytes);
    assert!(matches!(buf.next_frame(), Ok(Some(Frame::Ack))));
    assert_eq!(buf.take_pending(), b"payload".to_vec());
    assert!(buf.is_empty());
    assert_eq!(buf.end_of_stream(), StreamEnd::Eof);
}

#[test]
fn error_messages() {
    assert_eq!(Error::Incomplete.message(), "incomplete frame");
    assert_eq!(Error::TooLong.message(), "frame too long");
}
