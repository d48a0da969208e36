use bytes::{Bytes, BytesMut};
use uip::channel_codec;
use uip::codec::{decode, encode, CodecError, Frame};

fn data_frame(src_port: u16, dst_port: u16, data: &[u8]) -> Frame {
    Frame::Data { src_port, dst_port, data: Bytes::copy_from_slice(data) }
}

#[test]
fn encodes_ping_and_pong_as_one_byte() {
    let mut buf = BytesMut::new();
    encode(Frame::Ping, &mut buf).unwrap();
    encode(Frame::Pong, &mut buf).unwrap();
    assert_eq!(&buf[..], &[1, 2]);
}

#[test]
fn encodes_data_frame_header_big_endian() {
    let mut buf = BytesMut::new();
    encode(data_frame(0x0102, 0xfe11, b"hey"), &mut buf).unwrap();
    assert_eq!(&buf[..], &[3, 0x01, 0x02, 0xfe, 0x11, 0x00, 0x03, b'h', b'e', b'y']);
}

#[test]
fn encode_appends_to_existing_bytes() {
    let mut buf = BytesMut::from(&b"xy"[..]);
    encode(Frame::Ping, &mut buf).unwrap();
    assert_eq!(&buf[..], b"xy\x01");
}

#[test]
fn encode_truncates_length_field_of_oversized_payload() {
    let payload = vec![7u8; 65536 + 5];
    let mut buf = BytesMut::new();
    encode(data_frame(1, 2, &payload), &mut buf).unwrap();
    assert_eq!(&buf[5..7], &[0, 5]);
    assert_eq!(buf.len(), 7 + 65541);
}

#[test]
fn decode_empty_buffer_waits() {
    let mut buf = BytesMut::new();
    assert!(matches!(decode(&mut buf), Ok(None)));
    assert!(buf.is_empty());
}

#[test]
fn decode_rejects_unknown_type_and_keeps_buffer() {
    let mut buf = BytesMut::from(&[9u8, 1, 2][..]);
    assert_eq!(decode(&mut buf).err(), Some(CodecError::InvalidMessageType));
    assert_eq!(&buf[..], &[9, 1, 2]);
}

#[test]
fn decode_ping_consumes_one_byte() {
    let mut buf = BytesMut::from(&[1u8, 2, 3][..]);
    assert!(matches!(decode(&mut buf), Ok(Some(Frame::Ping))));
    assert!(matches!(decode(&mut buf), Ok(Some(Frame::Pong))));
    assert_eq!(&buf[..], &[3]);
}

#[test]
fn decode_waits_for_whole_header_and_payload() {
    let mut buf = BytesMut::from(&[3u8, 0, 1, 0, 2][..]);
    assert!(matches!(decode(&mut buf), Ok(None)));
    assert_eq!(buf.len(), 5);
    buf.extend_from_slice(&[0, 4, b'a', b'b']);
    assert!(matches!(decode(&mut buf), Ok(None)));
    assert_eq!(buf.len(), 9);
    buf.extend_from_slice(&[b'c', b'd', b'z']);
    match decode(&mut buf) {
        Ok(Some(Frame::Data { src_port, dst_port, data })) => {
            assert_eq!(src_port, 1);
            assert_eq!(dst_port, 2);
            assert_eq!(&data[..], b"abcd");
        }
        _ => panic!("expected a data frame"),
    }
    assert_eq!(&buf[..], b"z");
}

#[test]
fn decode_after_encode_gives_back_frames_in_order() {
    let mut buf = BytesMut::new();
    encode(data_frame(7, 8, b"first"), &mut buf).unwrap();
    encode(Frame::Ping, &mut buf).unwrap();
    encode(data_frame(0, 0, b""), &mut buf).unwrap();
    match decode(&mut buf) {
        Ok(Some(Frame::Data { src_port: 7, dst_port: 8, data })) => assert_eq!(&data[..], b"first"),
        _ => panic!("expected the first data frame"),
    }
    assert!(matches!(decode(&mut buf), Ok(Some(Frame::Ping))));
    match decode(&mut buf) {
        Ok(Some(Frame::Data { src_port: 0, dst_port: 0, data })) => assert!(data.is_empty()),
        _ => panic!("expected the empty data frame"),
    }
    assert!(buf.is_empty());
    assert!(matches!(decode(&mut buf), Ok(None)));
}

#[test]
fn every_proper_prefix_of_a_frame_is_incomplete() {
    let mut full = BytesMut::new();
    encode(data_frame(300, 400, b"payload"), &mut full).unwrap();
    for k in 0..full.len() {
        let mut prefix = BytesMut::from(&full[..k]);
        assert!(matches!(decode(&mut prefix), Ok(None)), "prefix of length {}", k);
        assert_eq!(prefix.len(), k);
    }
}

#[test]
fn channel_codec_encodes_channel_and_length() {
    let mut codec = channel_codec::Codec();
    let mut buf = BytesMut::new();
    codec.encode(channel_codec::Frame::Data(0xabcd, BytesMut::from(&b"hi"[..])), &mut buf).unwrap();
    codec.encode(channel_codec::Frame::Pong, &mut buf).unwrap();
    assert_eq!(&buf[..], &[3, 0xab, 0xcd, 0, 2, b'h', b'i', 2]);
}

#[test]
fn channel_codec_decode_takes_data_frame_off() {
    let mut codec = channel_codec::Codec();
    let mut buf = BytesMut::from(&[3u8, 0, 9, 0, 3, b'a', b'b', b'c', 1][..]);
    match codec.decode(&mut buf) {
        Ok(Some(channel_codec::Frame::Data(channel, data))) => {
            assert_eq!(channel, 9);
            assert_eq!(&data[..], b"abc");
        }
        _ => panic!("expected a data frame"),
    }
    assert_eq!(&buf[..], &[1]);
}

#[test]
fn channel_codec_decode_leaves_ping_in_buffer() {
    let mut codec = channel_codec::Codec();
    let mut buf = BytesMut::from(&[1u8][..]);
    assert!(matches!(codec.decode(&mut buf), Ok(Some(channel_codec::Frame::Ping))));
    assert_eq!(&buf[..], &[1]);
    let mut buf = BytesMut::from(&[2u8, 5][..]);
    assert!(matches!(codec.decode(&mut buf), Ok(Some(channel_codec::Frame::Pong))));
    assert_eq!(&buf[..], &[2, 5]);
}

#[test]
fn channel_codec_waits_and_rejects() {
    let mut codec = channel_codec::Codec();
    let mut buf = BytesMut::from(&[3u8, 0, 1, 0][..]);
    assert!(matches!(codec.decode(&mut buf), Ok(None)));
    let mut buf = BytesMut::from(&[3u8, 0, 1, 0, 2, b'x'][..]);
    assert!(matches!(codec.decode(&mut buf), Ok(None)));
    assert_eq!(buf.len(), 6);
    let mut buf = BytesMut::from(&[0u8][..]);
    assert_eq!(codec.decode(&mut buf).err(), Some(CodecError::InvalidMessageType));
}
