use bytes::Bytes;
use uip::codec::Frame;
use uip::connection::{
    after_delivery, control_frame, data_frame, on_read_event, on_write_event, ping_frame, ReadAction,
    ReadEvent, ReadStop, WriteEvent, PING_INTERVAL_SECS, READ_TIMEOUT_SECS,
};
use uip::identifier::Identifier;

fn id(n: u8) -> Identifier {
    Identifier::copy_from_slice(&[n; 32]).unwrap()
}

#[test]
fn ping_is_answered_with_pong() {
    assert!(matches!(on_read_event(id(1), ReadEvent::Received(Frame::Ping)), ReadAction::Reply(Frame::Pong)));
    assert!(matches!(on_read_event(id(1), ReadEvent::Received(Frame::Pong)), ReadAction::Ignore));
}

#[test]
fn data_is_delivered_with_sender() {
    let frame = Frame::Data { src_port: 3, dst_port: 4, data: Bytes::from_static(b"x") };
    match on_read_event(id(2), ReadEvent::Received(frame)) {
        ReadAction::Deliver { remote_id, src_port, dst_port, data } => {
            assert_eq!(remote_id, id(2));
            assert_eq!((src_port, dst_port), (3, 4));
            assert_eq!(&data[..], b"x");
        }
        _ => panic!("expected delivery"),
    }
}

#[test]
fn reader_stops_on_errors_end_and_timeout() {
    assert!(matches!(on_read_event(id(1), ReadEvent::ReceiveError("e".to_string())), ReadAction::Stop(ReadStop::ReceiveError(_))));
    assert!(matches!(on_read_event(id(1), ReadEvent::Closed), ReadAction::Stop(ReadStop::Closed)));
    assert!(matches!(on_read_event(id(1), ReadEvent::TimedOut), ReadAction::Stop(ReadStop::TimedOut)));
    assert!(after_delivery(true).is_none());
    assert!(matches!(after_delivery(false), Some(ReadStop::UpstreamClosed)));
    assert_eq!((READ_TIMEOUT_SECS, PING_INTERVAL_SECS), (20, 15));
}

#[test]
fn writer_and_frames() {
    assert!(matches!(on_write_event(WriteEvent::Queued(Frame::Pong)), Some(Frame::Pong)));
    assert!(on_write_event(WriteEvent::SendersClosed).is_none());
    assert!(on_write_event(WriteEvent::CloseSignal).is_none());
    assert!(matches!(ping_frame(), Frame::Ping));
    assert!(matches!(control_frame(Bytes::from_static(b"m")), Frame::Data { src_port: 0, dst_port: 0, .. }));
    assert!(matches!(data_frame(5, 6, Bytes::new()), Frame::Data { src_port: 5, dst_port: 6, .. }));
}
