use bytes::BytesMut;
use wusheng_pool_client::stratum::codec::{CodecError, StratumCodec};

#[test]
fn frames_are_cut_at_line_ends() {
    let mut codec = StratumCodec::new();
    let mut buf = BytesMut::from(&b"abc\ndef"[..]);
    assert_eq!(codec.decode_frame(&mut buf), Ok(Some(b"abc".to_vec())));
    assert_eq!(&buf[..], b"def");
    assert_eq!(codec.seen(), 0);
    assert_eq!(codec.decode_frame(&mut buf), Ok(None));
    assert_eq!(&buf[..], b"def");
    assert_eq!(codec.seen(), 3);
    buf.extend_from_slice(b"\n");
    assert_eq!(codec.decode_frame(&mut buf), Ok(Some(b"def".to_vec())));
    assert!(buf.is_empty());
    assert_eq!(codec.seen(), 0);
}

#[test]
fn over_long_frames_are_refused_then_skipped() {
    let mut codec = StratumCodec::default();
    let mut buf = BytesMut::from(&vec![b'x'; 5000][..]);
    assert_eq!(codec.decode_frame(&mut buf), Err(CodecError::FrameTooLong));
    buf.extend_from_slice(b"\nnext\n");
    assert_eq!(codec.decode_frame(&mut buf), Ok(Some(b"next".to_vec())));
    assert!(buf.is_empty());
}

#[test]
fn a_frame_of_the_longest_length_is_accepted() {
    let mut codec = StratumCodec::new();
    let mut bytes = vec![b'y'; 4096];
    bytes.push(b'\n');
    let mut buf = BytesMut::from(&bytes[..]);
    assert_eq!(codec.decode_frame(&mut buf).unwrap().unwrap().len(), 4096);
}

#[test]
fn frames_are_written_with_a_line_end() {
    let mut codec = StratumCodec::new();
    let mut dst = BytesMut::new();
    assert_eq!(codec.encode_frame(b"{\"id\":1}", &mut dst), Ok(()));
    assert_eq!(codec.encode_frame(b"[]", &mut dst), Ok(()));
    assert_eq!(&dst[..], b"{\"id\":1}\n[]\n");
    assert_eq!(codec.encode_frame(&[0xff, 0xfe], &mut dst), Err(CodecError::InvalidUtf8));
    assert_eq!(&dst[..], b"{\"id\":1}\n[]\n");
    assert_eq!(CodecError::FrameTooLong.message(), "max chunk length exceeded");
}

#[test]
fn written_frames_are_read_back() {
    let mut writer = StratumCodec::new();
    let mut reader = StratumCodec::new();
    let mut buf = BytesMut::new();
    writer.encode_frame(b"{\"method\":\"mining.notify\"}", &mut buf).unwrap();
    writer.encode_frame(b"second", &mut buf).unwrap();
    assert_eq!(reader.decode_frame(&mut buf), Ok(Some(b"{\"method\":\"mining.notify\"}".to_vec())));
    assert_eq!(reader.decode_frame(&mut buf), Ok(Some(b"second".to_vec())));
    assert_eq!(reader.decode_frame(&mut buf), Ok(None));
}

#[test]
fn a_line_arriving_in_pieces_is_read_whole() {
    let mut codec = StratumCodec::default();
    let mut buf = BytesMut::from(&b"{\"id\":"[..]);
    assert_eq!(codec.decode_frame(&mut buf), Ok(None));
    assert_eq!(&buf[..], b"{\"id\":");
    buf.extend_from_slice(b"1,");
    assert_eq!(codec.decode_frame(&mut buf), Ok(None));
    buf.extend_from_slice(b"\"x\":2}\nrest");
    assert_eq!(codec.decode_frame(&mut buf), Ok(Some(b"{\"id\":1,\"x\":2}".to_vec())));
    assert_eq!(&buf[..], b"rest");
}
