//! The local control protocol: applications on this host connect to the daemon
//! over a Unix socket, bind a port, and exchange data frames with peers.
use vstd::prelude::*;
use vstd::string::StringExecFns;
use bytes::BytesMut;
use crate::buffer::{buf_extend_from_slice, buf_len, buf_split_to, buffer_limit, bytes_mut_contents};
use crate::identifier::{hex_string, Identifier};
use crate::table::Table;

verus! {

/// An error that the daemon reports to a local application.
#[derive(Clone, Copy, Debug, PartialEq, Eq, Structural)]
pub enum ErrorCode {
    NetworkUnreachable,
    NotBound,
}

/// A message of the local control protocol.
#[derive(Debug)]
pub enum Frame {
    /// Bind the connection to a local port.
    Bind(u16),
    /// Data for or from the given peer's port.
    Data(Identifier, u16, Vec<u8>),
    /// An error.
    Error(ErrorCode),
}

/// What a control protocol message holds.
pub enum FrameView {
    Bind(u16),
    Data(Identifier, u16, Seq<u8>),
    Error(ErrorCode),
}

impl View for Frame {
    type V = FrameView;

    open spec fn view(&self) -> FrameView {
        match self {
            Frame::Bind(p) => FrameView::Bind(*p),
            Frame::Data(id, port, data) => FrameView::Data(*id, *port, data@),
            Frame::Error(e) => FrameView::Error(*e),
        }
    }
}

/// Why the control protocol codec failed.
#[derive(Debug)]
pub enum ControlCodecError {
    /// The buffered bytes are no message; the decoder's explanation.
    Decode(String),
    /// A message could not be serialized; the serializer's explanation.
    Serialize(String),
}

/// The codec of the control protocol. The messages themselves are MessagePack values;
/// this codec decides what happens to the buffer around their decoding and encoding.
pub struct ControlProtocolCodec;

impl ControlProtocolCodec {
    /// Whether the buffer holds any byte to decode: an empty buffer yields no message.
    pub fn has_input(buf: &BytesMut) -> (r: bool)
        ensures
            r == (bytes_mut_contents(*buf).len() >= 1),
    {
        buf_len(buf) >= 1
    }

    /// Completes the decoding of a non-empty buffer. `decoded` is the message read from
    /// the front of the buffer with the length of its serialized form, or the decoder's
    /// error. A message takes its serialized length off the buffer; an error leaves the
    /// buffer as it is and says why.
    pub fn finish_decode(buf: &mut BytesMut, decoded: Result<(Frame, usize), String>) -> (r: Result<
        Option<Frame>,
        ControlCodecError,
    >)
        requires
            decoded matches Ok((_, n)) ==> n <= bytes_mut_contents(*old(buf)).len(),
        ensures
            match decoded {
                Ok((f, n)) => r matches Ok(Some(g)) && g@ == f@ && bytes_mut_contents(*final(buf))
                    == bytes_mut_contents(*old(buf)).skip(n as int),
                Err(e) => r matches Err(ControlCodecError::Decode(d)) && d@ == e@
                    && bytes_mut_contents(*final(buf)) == bytes_mut_contents(*old(buf)),
            },
    {
        match decoded {
            Ok((frame, n)) => {
                let _consumed = buf_split_to(buf, n);
                Ok(Some(frame))
            },
            Err(e) => Err(ControlCodecError::Decode(e)),
        }
    }

    /// Completes the encoding of a message. `serialized` is its serialized form, or the
    /// serializer's error: the form is appended to the buffer; an error leaves the buffer
    /// as it is and says why.
    pub fn finish_encode(serialized: Result<Vec<u8>, String>, buf: &mut BytesMut) -> (r: Result<
        (),
        ControlCodecError,
    >)
        requires
            serialized matches Ok(bytes) ==> bytes_mut_contents(*old(buf)).len() + bytes@.len()
                <= buffer_limit(),
        ensures
            match serialized {
                Ok(bytes) => r is Ok && bytes_mut_contents(*final(buf)) == bytes_mut_contents(
                    *old(buf),
                ) + bytes@,
                Err(e) => r matches Err(ControlCodecError::Serialize(d)) && d@ == e@
                    && bytes_mut_contents(*final(buf)) == bytes_mut_contents(*old(buf)),
            },
    {
        match serialized {
            Ok(bytes) => {
                buf_extend_from_slice(buf, bytes.as_slice());
                Ok(())
            },
            Err(e) => Err(ControlCodecError::Serialize(e)),
        }
    }
}

/// What to do with a new connection of a local application, by its first message.
#[derive(Debug)]
pub enum StreamOpening {
    /// Bind the connection to this port: start forwarding in both directions.
    Bind(u16),
    /// Data came before any bind; nothing is forwarded.
    UnboundData,
    /// An error came before any bind; nothing is forwarded.
    UnboundError(ErrorCode),
    /// The stream failed with this explanation.
    StreamError(String),
    /// The stream ended before any message.
    Closed,
}

/// What to do with a message read from a bound connection.
#[derive(Debug)]
pub enum BoundRead {
    /// Send the data to the given port of the given peer.
    Forward(Identifier, u16, Vec<u8>),
    /// Another message, or a stream error: stop reading.
    Unhandled,
    /// The stream ended: stop reading.
    Closed,
}

/// What a new connection's first message (or the end of its stream) leads to.
pub fn stream_opening(first: Option<Result<Frame, String>>) -> (r: StreamOpening)
    ensures
        match first {
            Some(Ok(f)) => match f@ {
                FrameView::Bind(port) => r matches StreamOpening::Bind(p) && p == port,
                FrameView::Data(_, _, _) => r is UnboundData,
                FrameView::Error(e) => r matches StreamOpening::UnboundError(c) && c == e,
            },
            Some(Err(e)) => r matches StreamOpening::StreamError(d) && d@ == e@,
            None => r is Closed,
        },
{
    match first {
        Some(Ok(Frame::Bind(port))) => StreamOpening::Bind(port),
        Some(Ok(Frame::Data(_, _, _))) => StreamOpening::UnboundData,
        Some(Ok(Frame::Error(e))) => StreamOpening::UnboundError(e),
        Some(Err(e)) => StreamOpening::StreamError(e),
        None => StreamOpening::Closed,
    }
}

/// What a message read from a bound connection (or the end of its stream) leads to.
pub fn bound_read(next: Option<Result<Frame, String>>) -> (r: BoundRead)
    ensures
        match next {
            Some(Ok(f)) => match f@ {
                FrameView::Data(id, port, data) => r matches BoundRead::Forward(i, p, d) && i == id
                    && p == port && d@ == data,
                _ => r is Unhandled,
            },
            Some(Err(_)) => r is Unhandled,
            None => r is Closed,
        },
{
    match next {
        Some(Ok(Frame::Data(id, port, data))) => BoundRead::Forward(id, port, data),
        Some(_) => BoundRead::Unhandled,
        None => BoundRead::Closed,
    }
}

/// Why the control socket cannot be opened.
#[derive(Clone, Copy, Debug, PartialEq, Eq, Structural)]
pub enum ControlSocketError {
    /// No path is configured ("No unix control socket path is given").
    NoPath,
}

/// The state of the local control layer: the path of its control socket and, for each
/// bound port, the writer towards the application bound to it.
pub struct UnixState<W> {
    pub ctl_socket: String,
    pub connections: Table<u16, W>,
}

impl<W> UnixState<W> {
    /// The control layer listening at `ctl_socket`, with no port bound.
    pub fn new(ctl_socket: String) -> (r: UnixState<W>)
        ensures
            r.ctl_socket@ == ctl_socket@,
            r.connections@ == Map::<u16, W>::empty(),
    {
        UnixState { ctl_socket, connections: Table::new() }
    }

    /// The path of the control socket.
    pub fn ctl_socket(&self) -> (r: String)
        ensures
            r@ == self.ctl_socket@,
    {
        self.ctl_socket.clone()
    }

    /// Whether the control socket can be opened: a path must be configured.
    pub fn check_ctl_socket(&self) -> (r: Result<(), ControlSocketError>)
        ensures
            r is Err <==> self.ctl_socket@.len() == 0,
    {
        if self.ctl_socket.as_str().is_empty() {
            Err(ControlSocketError::NoPath)
        } else {
            Ok(())
        }
    }

    /// Binds `port` to the application behind `writer`, replacing an earlier binding.
    pub fn bind(&mut self, port: u16, writer: W)
        ensures
            final(self).connections@ == old(self).connections@.insert(port, writer),
            final(self).ctl_socket@ == old(self).ctl_socket@,
    {
        self.connections.insert(port, writer);
    }

    /// The bound ports, in the order they were first bound.
    pub fn used_ports(&self) -> (r: Vec<u16>)
        ensures
            r@ == self.connections.key_order(),
            r@.to_set() == self.connections@.dom(),
            r@.no_duplicates(),
    {
        self.connections.keys()
    }

    /// The writer towards the application bound to `local_port`, where one is; a frame
    /// for an unbound port is dropped.
    pub fn writer_for(&self, local_port: u16) -> (r: Option<&W>)
        ensures
            r is Some <==> self.connections@.contains_key(local_port),
            r matches Some(w) ==> *w == self.connections@[local_port],
    {
        self.connections.get(&local_port)
    }
}

/// The message that carries data from `host_id`'s `remote_port` to a local application.
pub fn delivery_frame(host_id: Identifier, remote_port: u16, data: Vec<u8>) -> (r: Frame)
    ensures
        r@ == FrameView::Data(host_id, remote_port, data@),
{
    Frame::Data(host_id, remote_port, data)
}

/// The default path of the control socket of the peer `id`:
/// `/run/user/1000/<identifier in hexadecimal>.sock`.
pub fn default_ctl_socket(id: &Identifier) -> (r: String)
    ensures
        r@ == "/run/user/1000/"@ + hex_string(id@) + ".sock"@,
{
    let prefix = String::from_str("/run/user/1000/");
    let hex = id.to_hex_string();
    prefix.concat(hex.as_str()).concat(".sock")
}

} // verus!
