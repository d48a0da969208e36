//! The frame codec of the transport protocol spoken over a secured connection
//! between two peers.
//!
//! A frame starts with its type byte: `1` is a ping, `2` a pong, `3` a data frame.
//! A data frame goes on with the source port, the destination port and the
//! payload length, each a big-endian `u16`, followed by the payload.
use vstd::prelude::*;
use bytes::{Bytes, BytesMut};
use crate::buffer::{
    be_bytes, be_u16, buf_advance, buf_as_slice, buf_freeze, buf_len, buf_put_bytes, buf_put_u16,
    buf_put_u8, buf_split_to, buffer_limit, bytes_contents, bytes_len, bytes_mut_contents, read_u16_be,
};

verus! {

/// A frame of the transport protocol.
pub enum Frame {
    Ping,
    Pong,
    Data { src_port: u16, dst_port: u16, data: Bytes },
}

/// What a frame holds, with the payload as a sequence of bytes.
pub enum FrameView {
    Ping,
    Pong,
    Data { src_port: u16, dst_port: u16, data: Seq<u8> },
}

impl View for Frame {
    type V = FrameView;

    open spec fn view(&self) -> FrameView {
        match self {
            Frame::Ping => FrameView::Ping,
            Frame::Pong => FrameView::Pong,
            Frame::Data { src_port, dst_port, data } => FrameView::Data {
                src_port: *src_port,
                dst_port: *dst_port,
                data: bytes_contents(*data),
            },
        }
    }
}

/// Why a buffer holds no frame of the protocol.
#[derive(Clone, Copy, Debug, PartialEq, Eq, Structural)]
pub enum CodecError {
    /// The first byte is no known frame type.
    InvalidMessageType,
}

/// The bytes of a frame on the wire. The length field holds the payload length
/// modulo 65536.
pub open spec fn encode_spec(f: FrameView) -> Seq<u8> {
    match f {
        FrameView::Ping => seq![1u8],
        FrameView::Pong => seq![2u8],
        FrameView::Data { src_port, dst_port, data } => seq![3u8] + be_bytes(src_port) + be_bytes(
            dst_port,
        ) + be_bytes((data.len() % 65536) as u16) + data,
    }
}

/// What the front of a buffer holds.
pub enum Decoded {
    /// Not yet a whole frame.
    Incomplete,
    /// The first byte is no known frame type.
    InvalidType,
    /// A whole frame, and the number of bytes it takes.
    Complete(FrameView, nat),
}

/// What the front of the buffer `s` holds.
pub open spec fn decode_spec(s: Seq<u8>) -> Decoded {
    if s.len() == 0 {
        Decoded::Incomplete
    } else if s[0] == 1 {
        Decoded::Complete(FrameView::Ping, 1)
    } else if s[0] == 2 {
        Decoded::Complete(FrameView::Pong, 1)
    } else if s[0] != 3 {
        Decoded::InvalidType
    } else if s.len() < 7 {
        Decoded::Incomplete
    } else {
        let length = be_u16(s[5], s[6]) as int;
        if s.len() < 7 + length {
            Decoded::Incomplete
        } else {
            Decoded::Complete(
                FrameView::Data {
                    src_port: be_u16(s[1], s[2]),
                    dst_port: be_u16(s[3], s[4]),
                    data: s.subrange(7, 7 + length),
                },
                (7 + length) as nat,
            )
        }
    }
}

/// Appends the wire form of `item` to `dst`.
pub fn encode(item: Frame, dst: &mut BytesMut) -> (r: Result<(), CodecError>)
    requires
        bytes_mut_contents(*old(dst)).len() + encode_spec(item@).len() <= buffer_limit(),
    ensures
        r is Ok,
        bytes_mut_contents(*final(dst)) == bytes_mut_contents(*old(dst)) + encode_spec(item@),
{
    let ghost start = bytes_mut_contents(*dst);
    match item {
        Frame::Ping => buf_put_u8(dst, 1),
        Frame::Pong => buf_put_u8(dst, 2),
        Frame::Data { src_port, dst_port, data } => {
            let length = (bytes_len(&data) % 65536) as u16;
            buf_put_u8(dst, 3);
            buf_put_u16(dst, src_port);
            buf_put_u16(dst, dst_port);
            buf_put_u16(dst, length);
            buf_put_bytes(dst, data);
            assert(bytes_mut_contents(*dst) =~= start + encode_spec(item@));
        },
    }
    Ok(())
}

/// Takes the first whole frame off the front of `src`. Where the buffer does not yet
/// hold a whole frame it is left as it is and nothing is returned; where its first
/// byte is no frame type, that is an error and the buffer is left as it is.
pub fn decode(src: &mut BytesMut) -> (r: Result<Option<Frame>, CodecError>)
    ensures
        match decode_spec(bytes_mut_contents(*old(src))) {
            Decoded::Incomplete => r matches Ok(None) && bytes_mut_contents(*final(src))
                == bytes_mut_contents(*old(src)),
            Decoded::InvalidType => r == Err::<Option<Frame>, CodecError>(
                CodecError::InvalidMessageType,
            ) && bytes_mut_contents(*final(src)) == bytes_mut_contents(*old(src)),
            Decoded::Complete(f, n) => r matches Ok(Some(frame)) && frame@ == f
                && bytes_mut_contents(*final(src)) == bytes_mut_contents(*old(src)).skip(n as int),
        },
{
    let ghost s = bytes_mut_contents(*src);
    let typ = {
        let view = buf_as_slice(src);
        if view.len() == 0 {
            return Ok(None);
        }
        view[0]
    };
    if typ == 1 {
        buf_advance(src, 1);
        return Ok(Some(Frame::Ping));
    }
    if typ == 2 {
        buf_advance(src, 1);
        return Ok(Some(Frame::Pong));
    }
    if typ != 3 {
        return Err(CodecError::InvalidMessageType);
    }
    let available = buf_len(src);
    if available < 7 {
        return Ok(None);
    }
    let (src_port, dst_port, length) = {
        let view = buf_as_slice(src);
        (
            read_u16_be(&view[1..3]),
            read_u16_be(&view[3..5]),
            read_u16_be(&view[5..7]) as usize,
        )
    };
    if available < 7 + length {
        return Ok(None);
    }
    buf_advance(src, 7);
    let payload = buf_split_to(src, length);
    proof {
        assert(bytes_mut_contents(payload) =~= s.subrange(7, 7 + length));
        assert(s.skip(7).skip(length as int) =~= s.skip(7 + length));
    }
    Ok(Some(Frame::Data { src_port, dst_port, data: buf_freeze(payload) }))
}

/// A codec for the transport protocol; `encode` and `decode` do its work.
pub struct Codec();

/// Reading the big-endian bytes of `n` gives `n` back.
pub(crate) proof fn lemma_be_round_trip(n: u16)
    ensures
        be_u16(be_bytes(n)[0], be_bytes(n)[1]) == n,
{
}

/// Decoding a buffer that starts with the wire form of a frame gives back that frame
/// and takes exactly its bytes, whatever follows it; a data frame's payload must fit
/// the 16-bit length field.
pub proof fn lemma_decode_encoded(f: FrameView, rest: Seq<u8>)
    requires
        f matches FrameView::Data { data, .. } ==> data.len() < 65536,
    ensures
        decode_spec(encode_spec(f) + rest) == Decoded::Complete(f, encode_spec(f).len()),
{
    let s = encode_spec(f) + rest;
    if let FrameView::Data { src_port, dst_port, data } = f {
        lemma_be_round_trip(src_port);
        lemma_be_round_trip(dst_port);
        lemma_be_round_trip((data.len() % 65536) as u16);
        assert(s[1] == be_bytes(src_port)[0]);
        assert(s[2] == be_bytes(src_port)[1]);
        assert(s[3] == be_bytes(dst_port)[0]);
        assert(s[4] == be_bytes(dst_port)[1]);
        assert(s[5] == be_bytes((data.len() % 65536) as u16)[0]);
        assert(s[6] == be_bytes((data.len() % 65536) as u16)[1]);
        assert(s.subrange(7, 7 + data.len() as int) =~= data);
    }
}

/// Every proper prefix of the wire form of a frame is an incomplete frame: the decoder
/// waits for more bytes and takes none.
pub proof fn lemma_decode_prefix_incomplete(f: FrameView, k: int)
    requires
        0 <= k < encode_spec(f).len(),
        f matches FrameView::Data { data, .. } ==> data.len() < 65536,
    ensures
        decode_spec(encode_spec(f).take(k)) == Decoded::Incomplete,
{
    let e = encode_spec(f);
    let p = e.take(k);
    if let FrameView::Data { src_port, dst_port, data } = f {
        lemma_be_round_trip((data.len() % 65536) as u16);
        if k >= 7 {
            assert(p[0] == e[0]);
            assert(p[5] == e[5]);
            assert(p[6] == e[6]);
        } else if k > 0 {
            assert(p[0] == e[0]);
        }
    }
}

} // verus!
