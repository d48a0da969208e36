use bytes::BytesMut;
use uip::identifier::Identifier;
use uip::unix::{
    bound_read, default_ctl_socket, delivery_frame, stream_opening, BoundRead, ControlCodecError,
    ControlProtocolCodec, ControlSocketError, ErrorCode, Frame, StreamOpening, UnixState,
};

fn id(n: u8) -> Identifier {
    Identifier::copy_from_slice(&[n; 32]).unwrap()
}

#[test]
fn bind_and_deliver_by_port() {
    let mut state: UnixState<&str> = UnixState::new("/tmp/uip.sock".to_string());
    assert!(state.writer_for(5).is_none());
    state.bind(5, "app five");
    state.bind(7, "app seven");
    assert_eq!(state.writer_for(5), Some(&"app five"));
    assert_eq!(state.used_ports(), vec![5, 7]);
    assert_eq!(state.ctl_socket(), "/tmp/uip.sock");
    assert_eq!(state.check_ctl_socket(), Ok(()));
}

#[test]
fn empty_ctl_socket_path_is_refused() {
    let state: UnixState<()> = UnixState::new(String::new());
    assert_eq!(state.check_ctl_socket(), Err(ControlSocketError::NoPath));
}

#[test]
fn first_message_decides_binding() {
    assert!(matches!(stream_opening(Some(Ok(Frame::Bind(80)))), StreamOpening::Bind(80)));
    assert!(matches!(
        stream_opening(Some(Ok(Frame::Data(id(1), 3, vec![1])))),
        StreamOpening::UnboundData
    ));
    assert!(matches!(
        stream_opening(Some(Ok(Frame::Error(ErrorCode::NotBound)))),
        StreamOpening::UnboundError(ErrorCode::NotBound)
    ));
    assert!(matches!(stream_opening(Some(Err("broken".to_string()))), StreamOpening::StreamError(_)));
    assert!(matches!(stream_opening(None), StreamOpening::Closed));
}

#[test]
fn bound_connection_forwards_data_only() {
    match bound_read(Some(Ok(Frame::Data(id(2), 9, vec![4, 5])))) {
        BoundRead::Forward(host, port, data) => {
            assert_eq!(host, id(2));
            assert_eq!(port, 9);
            assert_eq!(data, vec![4, 5]);
        }
        _ => panic!("expected forwarding"),
    }
    assert!(matches!(bound_read(Some(Ok(Frame::Bind(1)))), BoundRead::Unhandled));
    assert!(matches!(bound_read(Some(Err("x".to_string()))), BoundRead::Unhandled));
    assert!(matches!(bound_read(None), BoundRead::Closed));
}

#[test]
fn codec_takes_decoded_length_off_the_buffer() {
    let mut buf = BytesMut::new();
    assert!(!ControlProtocolCodec::has_input(&buf));
    buf.extend_from_slice(&[1, 2, 3, 4]);
    assert!(ControlProtocolCodec::has_input(&buf));
    let r = ControlProtocolCodec::finish_decode(&mut buf, Ok((Frame::Bind(3), 3)));
    assert!(matches!(r, Ok(Some(Frame::Bind(3)))));
    assert_eq!(&buf[..], &[4]);
    let r = ControlProtocolCodec::finish_decode(&mut buf, Err("bad".to_string()));
    assert!(matches!(r, Err(ControlCodecError::Decode(m)) if m == "bad"));
    assert_eq!(&buf[..], &[4]);
}

#[test]
fn codec_appends_serialized_message() {
    let mut buf = BytesMut::from(&b"a"[..]);
    ControlProtocolCodec::finish_encode(Ok(vec![0x91, 0x05]), &mut buf).unwrap();
    assert_eq!(&buf[..], &[b'a', 0x91, 0x05]);
    let r = ControlProtocolCodec::finish_encode(Err("no".to_string()), &mut buf);
    assert!(matches!(r, Err(ControlCodecError::Serialize(m)) if m == "no"));
    assert_eq!(buf.len(), 3);
}

#[test]
fn delivery_frame_and_default_path() {
    assert!(matches!(delivery_frame(id(1), 4, vec![9]), Frame::Data(h, 4, d) if h == id(1) && d == vec![9]));
    assert_eq!(
        default_ctl_socket(&id(0xab)),
        format!("/run/user/1000/{}.sock", "AB".repeat(32))
    );
}
