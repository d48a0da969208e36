//! A frame codec that addresses a single channel number per data frame.
//!
//! A frame starts with its type byte: `1` is a ping, `2` a pong, `3` a data frame.
//! A data frame goes on with the channel number and the payload length, each a
//! big-endian `u16`, followed by the payload. Decoding a ping or a pong leaves its
//! byte in the buffer.
use vstd::prelude::*;
use bytes::BytesMut;
use crate::buffer::{
    be_bytes, be_u16, buf_as_slice, buf_len, buf_put_bytes_mut, buf_put_u16, buf_put_u8,
    buf_split_to, buffer_limit, bytes_mut_contents, read_u16_be,
};
use crate::codec::{lemma_be_round_trip, CodecError};

verus! {

/// A frame of the channel protocol.
pub enum Frame {
    Ping,
    Pong,
    Data(u16, BytesMut),
}

/// What a frame holds, with the payload as a sequence of bytes.
pub enum FrameView {
    Ping,
    Pong,
    Data(u16, Seq<u8>),
}

impl View for Frame {
    type V = FrameView;

    open spec fn view(&self) -> FrameView {
        match self {
            Frame::Ping => FrameView::Ping,
            Frame::Pong => FrameView::Pong,
            Frame::Data(channel, data) => FrameView::Data(*channel, bytes_mut_contents(*data)),
        }
    }
}

/// The bytes of a frame on the wire. The length field holds the payload length
/// modulo 65536.
pub open spec fn encode_spec(f: FrameView) -> Seq<u8> {
    match f {
        FrameView::Ping => seq![1u8],
        FrameView::Pong => seq![2u8],
        FrameView::Data(channel, data) => seq![3u8] + be_bytes(channel) + be_bytes(
            (data.len() % 65536) as u16,
        ) + data,
    }
}

/// What the front of a buffer holds.
pub enum Decoded {
    /// Not yet a whole frame.
    Incomplete,
    /// The first byte is no known frame type.
    InvalidType,
    /// A whole frame, and the number of bytes that decoding takes off the buffer.
    Complete(FrameView, nat),
}

/// What the front of the buffer `s` holds.
pub open spec fn decode_spec(s: Seq<u8>) -> Decoded {
    if s.len() == 0 {
        Decoded::Incomplete
    } else if s[0] == 1 {
        Decoded::Complete(FrameView::Ping, 0)
    } else if s[0] == 2 {
        Decoded::Complete(FrameView::Pong, 0)
    } else if s[0] != 3 {
        Decoded::InvalidType
    } else if s.len() < 5 {
        Decoded::Incomplete
    } else {
        let length = be_u16(s[3], s[4]) as int;
        if s.len() < 5 + length {
            Decoded::Incomplete
        } else {
            Decoded::Complete(
                FrameView::Data(be_u16(s[1], s[2]), s.subrange(5, 5 + length)),
                (5 + length) as nat,
            )
        }
    }
}

/// A codec for the channel protocol.
pub struct Codec();

impl Codec {
    /// Appends the wire form of `item` to `dst`.
    pub fn encode(&mut self, item: Frame, dst: &mut BytesMut) -> (r: Result<(), CodecError>)
        requires
            bytes_mut_contents(*old(dst)).len() + encode_spec(item@).len() <= buffer_limit(),
        ensures
            r is Ok,
            bytes_mut_contents(*final(dst)) == bytes_mut_contents(*old(dst)) + encode_spec(item@),
    {
        let ghost start = bytes_mut_contents(*dst);
        match item {
            Frame::Ping => buf_put_u8(dst, 1),
            Frame::Pong => buf_put_u8(dst, 2),
            Frame::Data(channel, data) => {
                let length = (buf_len(&data) % 65536) as u16;
                buf_put_u8(dst, 3);
                buf_put_u16(dst, channel);
                buf_put_u16(dst, length);
                buf_put_bytes_mut(dst, data);
                assert(bytes_mut_contents(*dst) =~= start + encode_spec(item@));
            },
        }
        Ok(())
    }

    /// Reads the first whole frame at the front of `src`. A ping or a pong is returned
    /// and left in the buffer; a data frame is taken off it. Where the buffer does not
    /// yet hold a whole frame, or its first byte is no frame type, it is left as it is.
    pub fn decode(&mut self, src: &mut BytesMut) -> (r: Result<Option<Frame>, CodecError>)
        ensures
            match decode_spec(bytes_mut_contents(*old(src))) {
                Decoded::Incomplete => r matches Ok(None) && bytes_mut_contents(*final(src))
                    == bytes_mut_contents(*old(src)),
                Decoded::InvalidType => r == Err::<Option<Frame>, CodecError>(
                    CodecError::InvalidMessageType,
                ) && bytes_mut_contents(*final(src)) == bytes_mut_contents(*old(src)),
                Decoded::Complete(f, n) => r matches Ok(Some(frame)) && frame@ == f
                    && bytes_mut_contents(*final(src)) == bytes_mut_contents(*old(src)).skip(
                    n as int,
                ),
            },
    {
        let ghost s = bytes_mut_contents(*src);
        let typ = {
            let view = buf_as_slice(src);
            if view.len() == 0 {
                return Ok(None);
            }
            view[0]
        };
        if typ == 1 {
            assert(s.skip(0) =~= s);
            return Ok(Some(Frame::Ping));
        }
        if typ == 2 {
            assert(s.skip(0) =~= s);
            return Ok(Some(Frame::Pong));
        }
        if typ != 3 {
            return Err(CodecError::InvalidMessageType);
        }
        let available = buf_len(src);
        if available < 5 {
            return Ok(None);
        }
        let (channel, length) = {
            let view = buf_as_slice(src);
            (read_u16_be(&view[1..3]), read_u16_be(&view[3..5]) as usize)
        };
        if available < 5 + length {
            return Ok(None);
        }
        let _header = buf_split_to(src, 5);
        let payload = buf_split_to(src, length);
        proof {
            assert(bytes_mut_contents(payload) =~= s.subrange(5, 5 + length));
            assert(s.skip(5).skip(length as int) =~= s.skip(5 + length));
        }
        Ok(Some(Frame::Data(channel, payload)))
    }
}

/// Decoding a buffer that starts with the wire form of a frame gives back that frame,
/// whatever follows it; a data frame, whose payload must fit the 16-bit length field,
/// is taken off the buffer, while a ping or a pong stays in it.
pub proof fn lemma_decode_encoded(f: FrameView, rest: Seq<u8>)
    requires
        f matches FrameView::Data(_, data) ==> data.len() < 65536,
    ensures
        decode_spec(encode_spec(f) + rest) == Decoded::Complete(
            f,
            if f is Data {
                encode_spec(f).len()
            } else {
                0
            },
        ),
{
    let s = encode_spec(f) + rest;
    if let FrameView::Data(channel, data) = f {
        lemma_be_round_trip(channel);
        lemma_be_round_trip((data.len() % 65536) as u16);
        assert(s[1] == be_bytes(channel)[0]);
        assert(s[2] == be_bytes(channel)[1]);
        assert(s[3] == be_bytes((data.len() % 65536) as u16)[0]);
        assert(s[4] == be_bytes((data.len() % 65536) as u16)[1]);
        assert(s.subrange(5, 5 + data.len() as int) =~= data);
    }
}

} // verus!
