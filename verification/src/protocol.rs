//! Control messages that peers exchange on the data frames between ports 0 and 0.
use vstd::prelude::*;
use crate::identifier::Identifier;
use crate::peer::{Peer, PeerView};

verus! {

/// A peer's information, as sent to other peers.
#[derive(Debug)]
pub struct PeerInfo {
    pub peer: Peer,
}

/// A control message.
#[derive(Debug)]
pub enum Message {
    /// What the sender knows of a peer.
    PeerInfo(PeerInfo),
    /// A request for what the receiver knows of a peer.
    PeerInfoRequest(Identifier),
    /// Bytes that are no control message.
    Invalid(Vec<u8>),
}

/// What a control message holds.
pub enum MessageView {
    PeerInfo(PeerView),
    PeerInfoRequest(Identifier),
    Invalid(Seq<u8>),
}

impl View for Message {
    type V = MessageView;

    open spec fn view(&self) -> MessageView {
        match self {
            Message::PeerInfo(info) => MessageView::PeerInfo(info.peer@),
            Message::PeerInfoRequest(id) => MessageView::PeerInfoRequest(*id),
            Message::Invalid(bytes) => MessageView::Invalid(bytes@),
        }
    }
}

impl Clone for PeerInfo {
    fn clone(&self) -> (r: PeerInfo)
        ensures
            r.peer@ == self.peer@,
    {
        PeerInfo { peer: self.peer.clone() }
    }
}

impl Default for PeerInfo {
    fn default() -> (r: PeerInfo)
        ensures
            r.peer@.id@ == Seq::new(32, |i: int| 0u8),
            r.peer@.addresses.len() == 0,
            r.peer@.relays.len() == 0,
    {
        PeerInfo { peer: Peer::default() }
    }
}

impl Message {
    /// The message that a received buffer holds: the decoded message, or, where the
    /// buffer did not decode, an invalid message that carries the buffer's bytes.
    pub fn from_decoded(decoded: Option<Message>, buffer: &[u8]) -> (r: Message)
        ensures
            match decoded {
                Some(m) => r@ == m@,
                None => r@ == MessageView::Invalid(buffer@),
            },
    {
        match decoded {
            Some(m) => m,
            None => Message::Invalid(vstd::slice::slice_to_vec(buffer)),
        }
    }

    /// A message that tells what is known of `peer`.
    pub fn peer_info(peer: Peer) -> (r: Message)
        ensures
            r@ == MessageView::PeerInfo(peer@),
    {
        Message::PeerInfo(PeerInfo { peer })
    }

    /// A message that asks what is known of the peer `id`.
    pub fn peer_info_request(id: Identifier) -> (r: Message)
        ensures
            r@ == MessageView::PeerInfoRequest(id),
    {
        Message::PeerInfoRequest(id)
    }
}

} // verus!
