//! The decisions of a secured connection to a peer: what its reader does with each
//! received frame, what its writer and its pinger do, and the frames it sends.
use vstd::prelude::*;
use bytes::Bytes;
use crate::buffer::bytes_contents;
use crate::codec::{Frame, FrameView};
use crate::identifier::Identifier;

verus! {

/// The seconds after which a connection that received nothing is given up.
pub const READ_TIMEOUT_SECS: u64 = 20;

/// The seconds between two pings on a connection.
pub const PING_INTERVAL_SECS: u64 = 15;

/// The number of frames that wait to be written on a connection.
pub const SEND_QUEUE_LENGTH: usize = 10;

/// What happened on the reading side of a connection.
pub enum ReadEvent {
    /// A frame arrived.
    Received(Frame),
    /// Reading failed; the explanation.
    ReceiveError(String),
    /// The peer closed the stream.
    Closed,
    /// Nothing arrived within the read timeout.
    TimedOut,
}

/// Why the reader of a connection stops.
#[derive(Debug)]
pub enum ReadStop {
    ReceiveError(String),
    Closed,
    TimedOut,
    /// The local side no longer takes data: the connection is closed.
    UpstreamClosed,
}

/// What the reader of a connection does next.
pub enum ReadAction {
    /// Answer with this frame (a pong to a ping).
    Reply(Frame),
    /// Nothing (a pong).
    Ignore,
    /// Hand the data from the peer `remote_id` to the local side.
    Deliver { remote_id: Identifier, src_port: u16, dst_port: u16, data: Bytes },
    /// Stop reading.
    Stop(ReadStop),
}

/// What the reader of the connection to `remote_id` does with `event`: a ping is answered
/// with a pong, a pong is ignored, data goes to the local side, and a failure, the end of
/// the stream or a timeout stops it.
pub fn on_read_event(remote_id: Identifier, event: ReadEvent) -> (r: ReadAction)
    ensures
        match event {
            ReadEvent::Received(f) => match f@ {
                FrameView::Ping => r matches ReadAction::Reply(g) && g@ == FrameView::Pong,
                FrameView::Pong => r is Ignore,
                FrameView::Data { src_port, dst_port, data } => r matches ReadAction::Deliver {
                    remote_id: id,
                    src_port: s,
                    dst_port: d,
                    data: bytes,
                } && id == remote_id && s == src_port && d == dst_port && bytes_contents(bytes) == data,
            },
            ReadEvent::ReceiveError(e) => r matches ReadAction::Stop(ReadStop::ReceiveError(m)) && m@
                == e@,
            ReadEvent::Closed => r matches ReadAction::Stop(ReadStop::Closed),
            ReadEvent::TimedOut => r matches ReadAction::Stop(ReadStop::TimedOut),
        },
{
    match event {
        ReadEvent::Received(Frame::Ping) => ReadAction::Reply(Frame::Pong),
        ReadEvent::Received(Frame::Pong) => ReadAction::Ignore,
        ReadEvent::Received(Frame::Data { src_port, dst_port, data }) => ReadAction::Deliver {
            remote_id,
            src_port,
            dst_port,
            data,
        },
        ReadEvent::ReceiveError(e) => ReadAction::Stop(ReadStop::ReceiveError(e)),
        ReadEvent::Closed => ReadAction::Stop(ReadStop::Closed),
        ReadEvent::TimedOut => ReadAction::Stop(ReadStop::TimedOut),
    }
}

/// What the reader does after handing data to the local side: where the local side no
/// longer takes it, the connection is closed and the reader stops.
pub fn after_delivery(delivered: bool) -> (r: Option<ReadStop>)
    ensures
        delivered <==> r is None,
        r matches Some(s) ==> s is UpstreamClosed,
{
    if delivered {
        None
    } else {
        Some(ReadStop::UpstreamClosed)
    }
}

/// What happened on the writing side of a connection.
pub enum WriteEvent {
    /// A frame is queued for sending.
    Queued(Frame),
    /// All senders are gone.
    SendersClosed,
    /// The connection was closed.
    CloseSignal,
}

/// What the writer does with `event`: write a queued frame, or stop.
pub fn on_write_event(event: WriteEvent) -> (r: Option<Frame>)
    ensures
        match event {
            WriteEvent::Queued(f) => r matches Some(g) && g@ == f@,
            _ => r is None,
        },
{
    match event {
        WriteEvent::Queued(f) => Some(f),
        _ => None,
    }
}

/// The frame that the pinger sends at each tick.
pub fn ping_frame() -> (r: Frame)
    ensures
        r@ == FrameView::Ping,
{
    Frame::Ping
}

/// The data frame that carries `data` from `src_port` to `dst_port`.
pub fn data_frame(src_port: u16, dst_port: u16, data: Bytes) -> (r: Frame)
    ensures
        r@ == (FrameView::Data { src_port, dst_port, data: bytes_contents(data) }),
{
    Frame::Data { src_port, dst_port, data }
}

/// The data frame that carries a serialized control message: ports 0 and 0.
pub fn control_frame(message: Bytes) -> (r: Frame)
    ensures
        r@ == (FrameView::Data { src_port: 0, dst_port: 0, data: bytes_contents(message) }),
{
    data_frame(0, 0, message)
}

} // verus!
