//! The decisions of the daemon's network layer: which sockets are open, which
//! peers each holds a connection to, what to do with a received frame or control
//! message, whom to connect to and how.
use vstd::prelude::*;
use crate::address::{ipv6_is_global, LocalAddress, SocketAddress, SocketAddressV6};
use crate::identifier::{copy_identifiers, lemma_identifier_view, Identifier};
use crate::identity::Identity;
use crate::peer::{lookup_spec, Peer, PeerInformationBase, PeerView};
use crate::protocol::{Message, MessageView};

verus! {

broadcast use lemma_identifier_view;

/// An open socket: the address it is bound to, the peers it holds a connection to, and
/// the address under which it is reachable from outside, where one is known.
pub struct SocketState {
    pub local: LocalAddress,
    pub connected: Vec<Identifier>,
    pub public_address: Option<SocketAddressV6>,
}

/// What an open socket holds.
pub struct SocketView {
    pub address: SocketAddress,
    /// The name of the interface the socket's address is on.
    pub interface: Seq<u8>,
    pub connected: Seq<Identifier>,
    pub public_address: Option<SocketAddressV6>,
}

/// The key of a socket: the IPv6 socket address of its local address.
pub open spec fn socket_key(s: SocketState) -> SocketAddress {
    SocketAddress::V6(s.local.address)
}

/// What a socket state holds.
pub open spec fn socket_view(s: SocketState) -> SocketView {
    SocketView {
        address: socket_key(s),
        interface: s.local.interface@,
        connected: s.connected@,
        public_address: s.public_address,
    }
}

/// The state of the network layer.
pub struct NetworkState {
    /// This peer's identity.
    pub id: Identity,
    /// What is known of other peers.
    pub pib: PeerInformationBase,
    /// The relays this peer keeps connections to.
    pub relays: Vec<Identifier>,
    /// The port that sockets bind to.
    pub port: u16,
    /// The open sockets, in the order they were opened.
    pub sockets: Vec<SocketState>,
}

/// Where a received data frame goes.
#[derive(Clone, Copy, Debug, PartialEq, Eq, Structural)]
pub enum FrameRoute {
    /// It is a control message for the network layer (ports 0 and 0).
    Control,
    /// It goes up to the local applications.
    Upstream,
}

/// Why no connection to a peer can be had.
#[derive(Clone, Copy, Debug, PartialEq, Eq, Structural)]
pub enum NetworkError {
    /// No address of the peer is known ("peer address not found").
    PeerAddressNotFound,
    /// No socket is open that can reach the address ("No socket is currently open").
    NoSocketOpen,
}

/// How to reach a peer.
#[derive(Clone, Copy, Debug, PartialEq, Eq, Structural)]
pub enum ConnectionPlan {
    /// The socket at this index holds a connection to it.
    Existing(usize),
    /// Open a connection on the socket at this index to this address.
    Open(usize, SocketAddressV6),
}

/// What a received control message asks the network layer to do.
#[derive(Debug)]
pub enum ControlAction {
    /// The sender's information about itself was recorded.
    PeerRecorded,
    /// The sender told about another peer than itself; nothing was recorded.
    PeerMismatch,
    /// Send this peer's information to the given peer.
    SendPeerInfo(Identifier, Peer),
    /// Nothing is known of the peer asked about; nothing to do.
    UnknownPeer,
    /// The message was invalid.
    InvalidMessage,
}

/// What a processed control message leads to.
pub enum ControlActionView {
    PeerRecorded,
    PeerMismatch,
    SendPeerInfo(Identifier, PeerView),
    UnknownPeer,
    InvalidMessage,
}

impl View for ControlAction {
    type V = ControlActionView;

    open spec fn view(&self) -> ControlActionView {
        match self {
            ControlAction::PeerRecorded => ControlActionView::PeerRecorded,
            ControlAction::PeerMismatch => ControlActionView::PeerMismatch,
            ControlAction::SendPeerInfo(to, peer) => ControlActionView::SendPeerInfo(*to, peer@),
            ControlAction::UnknownPeer => ControlActionView::UnknownPeer,
            ControlAction::InvalidMessage => ControlActionView::InvalidMessage,
        }
    }
}

/// The known peers after the control message `msg` from the peer `host_id` was processed:
/// a peer's information about itself is recorded, nothing else changes them.
pub open spec fn pib_after_control(
    pib: Map<Identifier, PeerView>,
    host_id: Identifier,
    msg: MessageView,
) -> Map<Identifier, PeerView> {
    match msg {
        MessageView::PeerInfo(p) => if host_id == p.id {
            pib.insert(p.id, p)
        } else {
            pib
        },
        _ => pib,
    }
}

/// What the control message `msg` from the peer `host_id` leads to, given the known peers
/// `pib`: information about the sender itself is recorded, information about another peer
/// is refused, a request is answered with what is known of the peer asked about.
pub open spec fn control_action_spec(
    pib: Map<Identifier, PeerView>,
    host_id: Identifier,
    msg: MessageView,
) -> ControlActionView {
    match msg {
        MessageView::PeerInfo(p) => if host_id == p.id {
            ControlActionView::PeerRecorded
        } else {
            ControlActionView::PeerMismatch
        },
        MessageView::PeerInfoRequest(id) => if pib.contains_key(id) {
            ControlActionView::SendPeerInfo(host_id, pib[id])
        } else {
            ControlActionView::UnknownPeer
        },
        MessageView::Invalid(_) => ControlActionView::InvalidMessage,
    }
}

/// Where a data frame from `src_port` to `dst_port` goes: between ports 0 and 0 it is a
/// control message, otherwise it goes up to the local applications.
pub fn route_frame(src_port: u16, dst_port: u16) -> (r: FrameRoute)
    ensures
        r == (if src_port == 0 && dst_port == 0 {
            FrameRoute::Control
        } else {
            FrameRoute::Upstream
        }),
{
    if src_port == 0 && dst_port == 0 {
        FrameRoute::Control
    } else {
        FrameRoute::Upstream
    }
}

/// The relays, in order, that a socket with connections to `connected` opens a connection
/// to: those it holds none to and whose address is known, each with that address.
pub open spec fn relays_to_connect_spec(
    relays: Seq<Identifier>,
    connected: Seq<Identifier>,
    pib: Map<Identifier, PeerView>,
) -> Seq<(Identifier, SocketAddressV6)>
    decreases relays.len(),
{
    if relays.len() == 0 {
        Seq::empty()
    } else {
        let rest = relays_to_connect_spec(relays.drop_last(), connected, pib);
        let r = relays.last();
        if !connected.contains(r) && lookup_spec(pib, r) is Some {
            rest.push((r, lookup_spec(pib, r)->0))
        } else {
            rest
        }
    }
}

/// The public addresses of the sockets, in socket order.
pub open spec fn public_addresses_spec(sockets: Seq<SocketView>) -> Seq<SocketAddressV6>
    decreases sockets.len(),
{
    if sockets.len() == 0 {
        Seq::empty()
    } else {
        let rest = public_addresses_spec(sockets.drop_last());
        match sockets.last().public_address {
            Some(a) => rest.push(a),
            None => rest,
        }
    }
}

/// The socket addresses, in socket order.
pub open spec fn socket_addresses(sockets: Seq<SocketView>) -> Seq<SocketAddress> {
    sockets.map_values(|s: SocketView| s.address)
}

/// The discovered addresses, with the port set to `port`, that are no open socket's
/// address and are globally reachable, in order.
pub open spec fn new_addresses_spec(
    discovered: Seq<LocalAddress>,
    open: Seq<SocketAddress>,
    port: u16,
) -> Seq<LocalAddress>
    decreases discovered.len(),
{
    if discovered.len() == 0 {
        Seq::empty()
    } else {
        let rest = new_addresses_spec(discovered.drop_last(), open, port);
        let a = discovered.last();
        let with_port = LocalAddress { address: SocketAddressV6 { port, ..a.address }, ..a };
        if !open.contains(SocketAddress::V6(with_port.address)) && ipv6_is_global(
            with_port.address.ip.0,
        ) {
            rest.push(with_port)
        } else {
            rest
        }
    }
}

/// The open socket addresses, in order, that are none of the discovered addresses with
/// the port set to `port`.
pub open spec fn stale_addresses_spec(
    open: Seq<SocketAddress>,
    discovered: Seq<LocalAddress>,
    port: u16,
) -> Seq<SocketAddress> {
    open.filter(
        |a: SocketAddress|
            !discovered.map_values(
                |d: LocalAddress| SocketAddress::V6(SocketAddressV6 { port, ..d.address }),
            ).contains(a),
    )
}

impl NetworkState {
    /// Well-formedness: no two sockets are bound to the same address.
    pub open spec fn wf(self) -> bool {
        socket_addresses(self.sockets_view()).no_duplicates()
    }

    /// The open sockets, in the order they were opened.
    pub open spec fn sockets_view(self) -> Seq<SocketView> {
        self.sockets@.map_values(|s: SocketState| socket_view(s))
    }

    /// The network layer of the peer with identity `id`, with no socket open.
    pub fn new(id: Identity, pib: PeerInformationBase, relays: Vec<Identifier>, port: u16) -> (r:
        NetworkState)
        ensures
            r.id == id,
            r.pib@ == pib@,
            r.relays@ == relays@,
            r.port == port,
            r.sockets_view() == Seq::<SocketView>::empty(),
    {
        let r = NetworkState { id, pib, relays, port, sockets: Vec::new() };
        assert(r.sockets_view() =~= Seq::<SocketView>::empty());
        r
    }

    /// The number of open sockets.
    pub fn socket_count(&self) -> (n: usize)
        ensures
            n == self.sockets_view().len(),
    {
        self.sockets.len()
    }

    /// The local address of the socket at `index`.
    pub fn socket_address(&self, index: usize) -> (r: LocalAddress)
        requires
            index < self.sockets_view().len(),
        ensures
            SocketAddress::V6(r.address) == self.sockets_view()[index as int].address,
            r.interface@ == self.sockets_view()[index as int].interface,
    {
        self.sockets[index].local
    }

    /// Adds `id` to the relays.
    pub fn add_relay(&mut self, id: Identifier)
        ensures
            final(self).relays@ == old(self).relays@.push(id),
            final(self).pib@ == old(self).pib@,
            final(self).sockets_view() == old(self).sockets_view(),
            final(self).id.identifier == old(self).id.identifier,
            final(self).port == old(self).port,
    {
        self.relays.push(id);
    }

    /// Acts on a control message received from the peer `host_id`. Information about the
    /// sender itself is recorded; information about another peer is not. A request is
    /// answered with what is known of the peer asked about, where anything is.
    pub fn process_control_message(&mut self, host_id: Identifier, msg: Message) -> (r:
        ControlAction)
        ensures
            final(self).relays@ == old(self).relays@,
            final(self).sockets_view() == old(self).sockets_view(),
            final(self).id.identifier == old(self).id.identifier,
            final(self).port == old(self).port,
            final(self).pib@ == pib_after_control(old(self).pib@, host_id, msg@),
            r@ == control_action_spec(old(self).pib@, host_id, msg@),
    {
        match msg {
            Message::PeerInfo(info) => {
                if host_id == info.peer.id {
                    let id = info.peer.id;
                    self.pib.add_peer(id, info.peer);
                    ControlAction::PeerRecorded
                } else {
                    ControlAction::PeerMismatch
                }
            },
            Message::PeerInfoRequest(id) => match self.pib.get_peer(&id) {
                Some(peer) => ControlAction::SendPeerInfo(host_id, peer.clone()),
                None => ControlAction::UnknownPeer,
            },
            Message::Invalid(_) => ControlAction::InvalidMessage,
        }
    }

    /// The relay to ask for information about the peer `id`: its first relay, where it is
    /// known and has one.
    pub fn peer_info_relay(&self, id: &Identifier) -> (r: Option<Identifier>)
        ensures
            r == (if self.pib@.contains_key(*id) && self.pib@[*id].relays.len() > 0 {
                Some(self.pib@[*id].relays[0])
            } else {
                None::<Identifier>
            }),
    {
        match self.pib.get_peer(id) {
            Some(peer) => {
                if peer.relays.len() > 0 {
                    Some(peer.relays[0])
                } else {
                    None
                }
            },
            None => None,
        }
    }

    /// The relays that the socket at `index` opens a connection to, in order: those it
    /// holds no connection to and whose address is known, each with that address.
    pub fn relays_to_connect(&self, index: usize) -> (r: Vec<(Identifier, SocketAddressV6)>)
        requires
            index < self.sockets_view().len(),
        ensures
            r@ == relays_to_connect_spec(
                self.relays@,
                self.sockets_view()[index as int].connected,
                self.pib@,
            ),
    {
        let connected = &self.sockets[index].connected;
        let ghost conn = connected@;
        let mut r: Vec<(Identifier, SocketAddressV6)> = Vec::new();
        for i in 0..self.relays.len()
            invariant
                conn == connected@,
                conn == self.sockets_view()[index as int].connected,
                r@ == relays_to_connect_spec(self.relays@.take(i as int), conn, self.pib@),
        {
            let relay = self.relays[i];
            proof {
                assert(self.relays@.take(i + 1).drop_last() =~= self.relays@.take(i as int));
                assert(self.relays@.take(i + 1).last() == relay);
            }
            if !contains_identifier(connected, &relay) {
                match self.pib.lookup_peer_address(&relay) {
                    Some(addr) => r.push((relay, addr)),
                    None => {},
                }
            }
        }
        assert(self.relays@.take(self.relays@.len() as int) =~= self.relays@);
        r
    }

    /// The first socket, in socket order, that holds a connection to `host_id`.
    pub fn find_connection(&self, host_id: &Identifier) -> (r: Option<usize>)
        ensures
            r matches Some(i) ==> i < self.sockets_view().len() && self.sockets_view()[i as int].connected.contains(*host_id)
                && forall|j: int| 0 <= j < i ==> !self.sockets_view()[j].connected.contains(*host_id),
            r is None ==> forall|j: int|
                0 <= j < self.sockets_view().len() ==> !self.sockets_view()[j].connected.contains(*host_id),
    {
        let mut i: usize = 0;
        while i < self.sockets.len()
            invariant
                i <= self.sockets@.len(),
                forall|j: int| 0 <= j < i ==> !self.sockets_view()[j].connected.contains(*host_id),
            decreases self.sockets@.len() - i,
        {
            if contains_identifier(&self.sockets[i].connected, host_id) {
                return Some(i);
            }
            i = i + 1;
        }
        None
    }

    /// The first socket, in socket order, whose address is of the same IP version as
    /// `address`.
    pub fn select_socket(&self, address: &SocketAddress) -> (r: Option<usize>)
        ensures
            r matches Some(i) ==> i < self.sockets_view().len() && (self.sockets_view()[i as int].address is V4
                == *address is V4) && forall|j: int|
                0 <= j < i ==> (self.sockets_view()[j].address is V4) != (*address is V4),
            r is None ==> forall|j: int|
                0 <= j < self.sockets_view().len() ==> (self.sockets_view()[j].address is V4) != (
                *address is V4),
    {
        let mut i: usize = 0;
        while i < self.sockets.len()
            invariant
                i <= self.sockets@.len(),
                forall|j: int|
                    0 <= j < i ==> (self.sockets_view()[j].address is V4) != (*address is V4),
            decreases self.sockets@.len() - i,
        {
            let key = SocketAddress::V6(self.sockets[i].local.address);
            if key.is_ipv4() == address.is_ipv4() {
                return Some(i);
            }
            i = i + 1;
        }
        None
    }

    /// How to reach the peer `host_id`: through the first socket that holds a connection
    /// to it; otherwise by opening one to its first known address on the first socket of
    /// the same IP version. Where its address is unknown, or no such socket is open, it
    /// cannot be reached.
    pub fn connection_plan(&self, host_id: &Identifier) -> (r: Result<ConnectionPlan, NetworkError>)
        ensures
            match r {
                Ok(ConnectionPlan::Existing(i)) => i < self.sockets_view().len()
                    && self.sockets_view()[i as int].connected.contains(*host_id) && forall|j: int|
                    0 <= j < i ==> !self.sockets_view()[j].connected.contains(*host_id),
                Ok(ConnectionPlan::Open(i, addr)) => (forall|j: int|
                    0 <= j < self.sockets_view().len() ==> !self.sockets_view()[j].connected.contains(*host_id))
                    && lookup_spec(self.pib@, *host_id) == Some(addr) && i < self.sockets_view().len()
                    && self.sockets_view()[i as int].address is V6 && forall|j: int|
                    0 <= j < i ==> self.sockets_view()[j].address is V4,
                Err(NetworkError::PeerAddressNotFound) => (forall|j: int|
                    0 <= j < self.sockets_view().len() ==> !self.sockets_view()[j].connected.contains(*host_id))
                    && lookup_spec(self.pib@, *host_id) is None,
                Err(NetworkError::NoSocketOpen) => (forall|j: int|
                    0 <= j < self.sockets_view().len() ==> !self.sockets_view()[j].connected.contains(*host_id))
                    && lookup_spec(self.pib@, *host_id) is Some && forall|j: int|
                    0 <= j < self.sockets_view().len() ==> self.sockets_view()[j].address is V4,
            },
    {
        match self.find_connection(host_id) {
            Some(i) => Ok(ConnectionPlan::Existing(i)),
            None => {
                let addr = match self.pib.lookup_peer_address(host_id) {
                    Some(a) => a,
                    None => return Err(NetworkError::PeerAddressNotFound),
                };
                match self.select_socket(&SocketAddress::V6(addr)) {
                    Some(i) => Ok(ConnectionPlan::Open(i, addr)),
                    None => Err(NetworkError::NoSocketOpen),
                }
            },
        }
    }

    /// Records that the socket at `index` holds a connection to `id`.
    pub fn record_connection(&mut self, index: usize, id: Identifier)
        requires
            index < old(self).sockets_view().len(),
        ensures
            final(self).sockets_view() == old(self).sockets_view().update(
                index as int,
                SocketView {
                    connected: if old(self).sockets_view()[index as int].connected.contains(id) {
                        old(self).sockets_view()[index as int].connected
                    } else {
                        old(self).sockets_view()[index as int].connected.push(id)
                    },
                    ..old(self).sockets_view()[index as int]
                },
            ),
            final(self).pib@ == old(self).pib@,
            final(self).relays@ == old(self).relays@,
            final(self).id.identifier == old(self).id.identifier,
            final(self).port == old(self).port,
    {
        let mut sockets = Vec::new();
        std::mem::swap(&mut sockets, &mut self.sockets);
        let mut socket = sockets.remove(index);
        let ghost before = socket;
        if !contains_identifier(&socket.connected, &id) {
            socket.connected.push(id);
        }
        sockets.insert(index, socket);
        proof {
            assert(sockets@ == old(self).sockets@.update(index as int, socket));
            assert(socket_key(socket) == socket_key(before));
        }
        self.sockets = sockets;
        assert(self.sockets_view() =~= old(self).sockets_view().update(
            index as int,
            socket_view(socket),
        ));
    }

    /// Records the address under which the socket at `index` is reachable from outside.
    pub fn set_public_address(&mut self, index: usize, address: Option<SocketAddressV6>)
        requires
            index < old(self).sockets_view().len(),
        ensures
            final(self).sockets_view() == old(self).sockets_view().update(
                index as int,
                SocketView { public_address: address, ..old(self).sockets_view()[index as int] },
            ),
            final(self).pib@ == old(self).pib@,
            final(self).relays@ == old(self).relays@,
            final(self).id.identifier == old(self).id.identifier,
            final(self).port == old(self).port,
    {
        let mut sockets = Vec::new();
        std::mem::swap(&mut sockets, &mut self.sockets);
        let mut socket = sockets.remove(index);
        socket.public_address = address;
        sockets.insert(index, socket);
        proof {
            assert(sockets@ == old(self).sockets@.update(index as int, socket));
        }
        self.sockets = sockets;
        assert(self.sockets_view() =~= old(self).sockets_view().update(
            index as int,
            socket_view(socket),
        ));
    }

    /// The index of the socket bound to `address`, if one is.
    pub fn socket_index(&self, address: &SocketAddress) -> (r: Option<usize>)
        ensures
            r matches Some(i) ==> i < self.sockets_view().len() && self.sockets_view()[i as int].address
                == *address,
            r is None ==> !socket_addresses(self.sockets_view()).contains(*address),
    {
        let mut i: usize = 0;
        while i < self.sockets.len()
            invariant
                i <= self.sockets@.len(),
                forall|j: int| 0 <= j < i ==> self.sockets_view()[j].address != *address,
            decreases self.sockets@.len() - i,
        {
            if SocketAddress::V6(self.sockets[i].local.address) == *address {
                return Some(i);
            }
            i = i + 1;
        }
        proof {
            if socket_addresses(self.sockets_view()).contains(*address) {
                let j = choose|j: int|
                    0 <= j < socket_addresses(self.sockets_view()).len() && socket_addresses(
                        self.sockets_view(),
                    )[j] == *address;
                assert(self.sockets_view()[j].address == *address);
            }
        }
        None
    }

    /// Records a socket opened on `local`, holding no connection; a socket open on the
    /// same address is replaced by it.
    pub fn add_socket(&mut self, local: LocalAddress)
        ensures
            ({
                let s = SocketView {
                    address: SocketAddress::V6(local.address),
                    interface: local.interface@,
                    connected: Seq::empty(),
                    public_address: None,
                };
                if socket_addresses(old(self).sockets_view()).contains(
                    SocketAddress::V6(local.address),
                ) {
                    exists|i: int|
                        0 <= i < old(self).sockets_view().len() && old(self).sockets_view()[i].address
                            == SocketAddress::V6(local.address) && final(self).sockets_view() == old(
                            self,
                        ).sockets_view().update(i, s)
                } else {
                    final(self).sockets_view() == old(self).sockets_view().push(s)
                }
            }),
            old(self).wf() ==> final(self).wf(),
            final(self).pib@ == old(self).pib@,
            final(self).relays@ == old(self).relays@,
            final(self).id.identifier == old(self).id.identifier,
            final(self).port == old(self).port,
    {
        let socket = SocketState { local, connected: Vec::new(), public_address: None };
        let key = SocketAddress::V6(local.address);
        let found = self.socket_index(&key);
        let mut sockets = Vec::new();
        std::mem::swap(&mut sockets, &mut self.sockets);
        match found {
            Some(i) => {
                sockets.set(i, socket);
                self.sockets = sockets;
                assert(self.sockets_view() =~= old(self).sockets_view().update(
                    i as int,
                    socket_view(socket),
                ));
                assert(socket_addresses(old(self).sockets_view()).contains(key)) by {
                    assert(socket_addresses(old(self).sockets_view())[i as int] == key);
                }
                assert(socket_addresses(self.sockets_view()) =~= socket_addresses(
                    old(self).sockets_view(),
                ));
            },
            None => {
                sockets.push(socket);
                self.sockets = sockets;
                assert(self.sockets_view() =~= old(self).sockets_view().push(socket_view(socket)));
                assert(socket_addresses(self.sockets_view()) =~= socket_addresses(
                    old(self).sockets_view(),
                ).push(key));
            },
        }
    }

    /// Drops the socket bound to `address`, if one is; it tells whether one was.
    pub fn remove_socket(&mut self, address: &SocketAddress) -> (r: bool)
        ensures
            r == socket_addresses(old(self).sockets_view()).contains(*address),
            r ==> exists|i: int|
                0 <= i < old(self).sockets_view().len() && old(self).sockets_view()[i].address
                    == *address && final(self).sockets_view() == old(self).sockets_view().remove(i),
            !r ==> final(self).sockets_view() == old(self).sockets_view(),
            old(self).wf() ==> final(self).wf(),
            final(self).pib@ == old(self).pib@,
            final(self).relays@ == old(self).relays@,
            final(self).id.identifier == old(self).id.identifier,
            final(self).port == old(self).port,
    {
        match self.socket_index(address) {
            Some(i) => {
                let mut sockets = Vec::new();
                std::mem::swap(&mut sockets, &mut self.sockets);
                let _ = sockets.remove(i);
                self.sockets = sockets;
                assert(self.sockets_view() =~= old(self).sockets_view().remove(i as int));
                assert(socket_addresses(old(self).sockets_view())[i as int] == *address);
                assert(socket_addresses(self.sockets_view()) =~= socket_addresses(
                    old(self).sockets_view(),
                ).remove(i as int));
                true
            },
            None => false,
        }
    }

    /// The addresses of the open sockets that are none of the discovered addresses (with
    /// the port set to this layer's port): these sockets are stale and get closed.
    pub fn stale_addresses(&self, discovered: &Vec<LocalAddress>) -> (r: Vec<SocketAddress>)
        ensures
            r@ == stale_addresses_spec(socket_addresses(self.sockets_view()), discovered@, self.port),
    {
        let ghost current = discovered@.map_values(
            |d: LocalAddress| SocketAddress::V6(SocketAddressV6 { port: self.port, ..d.address }),
        );
        let mut r: Vec<SocketAddress> = Vec::new();
        for i in 0..self.sockets.len()
            invariant
                current == discovered@.map_values(
                    |d: LocalAddress| SocketAddress::V6(SocketAddressV6 { port: self.port, ..d.address }),
                ),
                r@ == socket_addresses(self.sockets_view()).take(i as int).filter(
                    |a: SocketAddress| !current.contains(a),
                ),
        {
            let key = SocketAddress::V6(self.sockets[i].local.address);
            let mut found = false;
            for j in 0..discovered.len()
                invariant
                    current == discovered@.map_values(
                        |d: LocalAddress| SocketAddress::V6(SocketAddressV6 { port: self.port, ..d.address }),
                    ),
                    found == current.take(j as int).contains(key),
            {
                let mut d = discovered[j].address;
                d.port = self.port;
                proof {
                    assert(current.take(j + 1) =~= current.take(j as int).push(current[j as int]));
                    assert(current[j as int] == SocketAddress::V6(d));
                    lemma_push_contains(current.take(j as int), current[j as int], key);
                }
                if SocketAddress::V6(d) == key {
                    found = true;
                }
            }
            proof {
                assert(current.take(discovered@.len() as int) =~= current);
                let s = socket_addresses(self.sockets_view());
                assert(s.take(i + 1) =~= s.take(i as int).push(key));
                reveal(Seq::filter);
                assert(s.take(i + 1).drop_last() =~= s.take(i as int));
            }
            if !found {
                r.push(key);
            }
        }
        proof {
            let s = socket_addresses(self.sockets_view());
            assert(s.take(self.sockets@.len() as int) =~= s);
        }
        r
    }

    /// The discovered addresses, with the port set to this layer's port, that no socket is
    /// open on yet and that are globally reachable: sockets are opened on these.
    pub fn new_addresses(&self, discovered: &Vec<LocalAddress>) -> (r: Vec<LocalAddress>)
        ensures
            r@ == new_addresses_spec(discovered@, socket_addresses(self.sockets_view()), self.port),
    {
        let mut r: Vec<LocalAddress> = Vec::new();
        for i in 0..discovered.len()
            invariant
                r@ == new_addresses_spec(
                    discovered@.take(i as int),
                    socket_addresses(self.sockets_view()),
                    self.port,
                ),
        {
            let mut a = discovered[i];
            a.address.port = self.port;
            proof {
                assert(discovered@.take(i + 1).drop_last() =~= discovered@.take(i as int));
                assert(discovered@.take(i + 1).last() == discovered@[i as int]);
            }
            let open = self.socket_index(&SocketAddress::V6(a.address));
            proof {
                if let Some(k) = open {
                    assert(socket_addresses(self.sockets_view())[k as int] == SocketAddress::V6(
                        a.address,
                    ));
                }
            }
            if open.is_none() && a.address.ip.is_global() {
                r.push(a);
            }
        }
        assert(discovered@.take(discovered@.len() as int) =~= discovered@);
        r
    }

    /// The addresses under which the sockets are reachable from outside, in socket order.
    pub fn external_addresses(&self) -> (r: Vec<SocketAddressV6>)
        ensures
            r@ == public_addresses_spec(self.sockets_view()),
    {
        let mut r: Vec<SocketAddressV6> = Vec::new();
        for i in 0..self.sockets.len()
            invariant
                r@ == public_addresses_spec(self.sockets_view().take(i as int)),
        {
            proof {
                assert(self.sockets_view().take(i + 1).drop_last() =~= self.sockets_view().take(
                    i as int,
                ));
            }
            match self.sockets[i].public_address {
                Some(a) => r.push(a),
                None => {},
            }
        }
        assert(self.sockets_view().take(self.sockets@.len() as int) =~= self.sockets_view());
        r
    }

    /// The information this peer publishes about itself: its identifier, the addresses
    /// under which its sockets are reachable from outside, and its relays.
    pub fn my_peer_information(&self) -> (r: Peer)
        ensures
            r@ == (PeerView {
                id: self.id.identifier,
                addresses: public_addresses_spec(self.sockets_view()),
                relays: self.relays@,
            }),
    {
        let relays = copy_identifiers(&self.relays);
        Peer::new(self.id.identifier, self.external_addresses(), relays)
    }
}

/// After a peer's information about itself is processed, a request for that peer, from
/// any peer, is answered with that information.
pub proof fn lemma_request_answered_after_info(
    pib: Map<Identifier, PeerView>,
    p: PeerView,
    asker: Identifier,
)
    ensures
        control_action_spec(
            pib_after_control(pib, p.id, MessageView::PeerInfo(p)),
            asker,
            MessageView::PeerInfoRequest(p.id),
        ) == ControlActionView::SendPeerInfo(asker, p),
{
}

/// A peer's information about another peer than itself leaves the known peers as they
/// were.
pub proof fn lemma_foreign_info_not_recorded(
    pib: Map<Identifier, PeerView>,
    host_id: Identifier,
    p: PeerView,
)
    requires
        host_id != p.id,
    ensures
        pib_after_control(pib, host_id, MessageView::PeerInfo(p)) == pib,
        control_action_spec(pib, host_id, MessageView::PeerInfo(p)) == ControlActionView::PeerMismatch,
{
}

/// No address that a socket is open on is among the new addresses to open sockets on,
/// and every new address is globally reachable and carries the layer's port.
pub proof fn lemma_new_addresses_not_open(
    discovered: Seq<LocalAddress>,
    open: Seq<SocketAddress>,
    port: u16,
)
    ensures
        forall|i: int|
            0 <= i < new_addresses_spec(discovered, open, port).len() ==> {
                let a = #[trigger] new_addresses_spec(discovered, open, port)[i];
                &&& !open.contains(SocketAddress::V6(a.address))
                &&& ipv6_is_global(a.address.ip.0)
                &&& a.address.port == port
            },
    decreases discovered.len(),
{
    if discovered.len() > 0 {
        let rest = new_addresses_spec(discovered.drop_last(), open, port);
        let all = new_addresses_spec(discovered, open, port);
        lemma_new_addresses_not_open(discovered.drop_last(), open, port);
        assert forall|i: int| 0 <= i < all.len() implies {
            let a = #[trigger] all[i];
            &&& !open.contains(SocketAddress::V6(a.address))
            &&& ipv6_is_global(a.address.ip.0)
            &&& a.address.port == port
        } by {
            if i < rest.len() {
                assert(all[i] == rest[i]);
            }
        }
    }
}

/// The relays that a socket opens connections to are exactly the configured relays it holds
/// no connection to and whose address is known, each paired with that address.
pub proof fn lemma_relays_to_connect_exact(
    relays: Seq<Identifier>,
    connected: Seq<Identifier>,
    pib: Map<Identifier, PeerView>,
)
    ensures
        forall|r: Identifier|
            (exists|j: int|
                0 <= j < relays_to_connect_spec(relays, connected, pib).len()
                    && #[trigger] relays_to_connect_spec(relays, connected, pib)[j].0 == r) <==> (
            relays.contains(r) && !connected.contains(r) && lookup_spec(pib, r) is Some),
        forall|j: int|
            0 <= j < relays_to_connect_spec(relays, connected, pib).len() ==> lookup_spec(
                pib,
                (#[trigger] relays_to_connect_spec(relays, connected, pib)[j]).0,
            ) == Some(relays_to_connect_spec(relays, connected, pib)[j].1),
    decreases relays.len(),
{
    let res = relays_to_connect_spec(relays, connected, pib);
    if relays.len() > 0 {
        let init = relays.drop_last();
        let last = relays.last();
        let rest = relays_to_connect_spec(init, connected, pib);
        lemma_relays_to_connect_exact(init, connected, pib);
        assert(relays == init.push(last));
        assert forall|r: Identifier|
            (exists|j: int| 0 <= j < res.len() && #[trigger] res[j].0 == r) <==> (relays.contains(r)
                && !connected.contains(r) && lookup_spec(pib, r) is Some) by {
            lemma_push_contains(init, last, r);
            if exists|j: int| 0 <= j < res.len() && #[trigger] res[j].0 == r {
                let j = choose|j: int| 0 <= j < res.len() && #[trigger] res[j].0 == r;
                if j < rest.len() {
                    assert(res[j] == rest[j]);
                }
            }
            if relays.contains(r) && !connected.contains(r) && lookup_spec(pib, r) is Some {
                if r == last {
                    assert(res[rest.len() as int].0 == r);
                } else {
                    let j = choose|j: int| 0 <= j < rest.len() && #[trigger] rest[j].0 == r;
                    assert(res[j] == rest[j]);
                }
            }
        }
        assert forall|j: int| 0 <= j < res.len() implies lookup_spec(pib, (#[trigger] res[j]).0)
            == Some(res[j].1) by {
            if j < rest.len() {
                assert(res[j] == rest[j]);
            }
        }
    }
}

/// Every discovered address that, with the port set to `port`, no socket is open on and
/// that is globally reachable is among the new addresses that sockets are opened on.
pub proof fn lemma_new_addresses_complete(
    discovered: Seq<LocalAddress>,
    open: Seq<SocketAddress>,
    port: u16,
)
    ensures
        forall|i: int|
            0 <= i < discovered.len() ==> {
                let d = #[trigger] discovered[i];
                let w = LocalAddress { address: SocketAddressV6 { port, ..d.address }, ..d };
                !open.contains(SocketAddress::V6(w.address)) && ipv6_is_global(w.address.ip.0)
                    ==> new_addresses_spec(discovered, open, port).contains(w)
            },
    decreases discovered.len(),
{
    if discovered.len() > 0 {
        let init = discovered.drop_last();
        let rest = new_addresses_spec(init, open, port);
        let res = new_addresses_spec(discovered, open, port);
        lemma_new_addresses_complete(init, open, port);
        assert forall|i: int| 0 <= i < discovered.len() implies {
            let d = #[trigger] discovered[i];
            let w = LocalAddress { address: SocketAddressV6 { port, ..d.address }, ..d };
            !open.contains(SocketAddress::V6(w.address)) && ipv6_is_global(w.address.ip.0)
                ==> res.contains(w)
        } by {
            let d = discovered[i];
            let w = LocalAddress { address: SocketAddressV6 { port, ..d.address }, ..d };
            if !open.contains(SocketAddress::V6(w.address)) && ipv6_is_global(w.address.ip.0) {
                if i < init.len() {
                    assert(init[i] == d);
                    let j = choose|j: int| 0 <= j < rest.len() && rest[j] == w;
                    lemma_push_contains(rest, res.last(), w);
                    if res != rest {
                        assert(res == rest.push(res.last()));
                    }
                    assert(rest[j] == w);
                } else {
                    assert(d == discovered.last());
                    assert(res == rest.push(w));
                    assert(res[rest.len() as int] == w);
                }
            }
        }
    }
}

/// The addresses published as this peer's are the public addresses of its sockets: every
/// socket's public address is among them, each of them is some socket's public address,
/// and there are as many as sockets that have one.
pub proof fn lemma_public_addresses_all(sockets: Seq<SocketView>)
    ensures
        forall|i: int|
            0 <= i < sockets.len() ==> (#[trigger] sockets[i].public_address matches Some(a)
                ==> public_addresses_spec(sockets).contains(a)),
        forall|j: int|
            0 <= j < public_addresses_spec(sockets).len() ==> exists|i: int|
                0 <= i < sockets.len() && sockets[i].public_address == Some(
                    #[trigger] public_addresses_spec(sockets)[j],
                ),
        public_addresses_spec(sockets).len() == sockets.filter(
            |s: SocketView| s.public_address is Some,
        ).len(),
    decreases sockets.len(),
{
    reveal(Seq::filter);
    if sockets.len() > 0 {
        let init = sockets.drop_last();
        let rest = public_addresses_spec(init);
        let res = public_addresses_spec(sockets);
        lemma_public_addresses_all(init);
        assert forall|i: int| 0 <= i < sockets.len() implies (#[trigger] sockets[i].public_address matches Some(
            a,
        ) ==> res.contains(a)) by {
            if let Some(a) = sockets[i].public_address {
                if i < init.len() {
                    assert(init[i] == sockets[i]);
                    let j = choose|j: int| 0 <= j < rest.len() && rest[j] == a;
                    if res != rest {
                        assert(res[j] == rest[j]);
                    }
                } else {
                    assert(res[rest.len() as int] == a);
                }
            }
        }
        assert forall|j: int| 0 <= j < res.len() implies exists|i: int|
            0 <= i < sockets.len() && sockets[i].public_address == Some(#[trigger] res[j]) by {
            if j < rest.len() {
                assert(res[j] == rest[j]);
                let i = choose|i: int|
                    0 <= i < init.len() && init[i].public_address == Some(#[trigger] rest[j]);
                assert(sockets[i] == init[i]);
            } else {
                assert(sockets[sockets.len() - 1].public_address == Some(res[j]));
            }
        }
    }
}

proof fn lemma_push_contains<A>(s: Seq<A>, x: A, k: A)
    ensures
        s.push(x).contains(k) == (s.contains(k) || x == k),
{
    if s.contains(k) {
        let j = choose|j: int| 0 <= j < s.len() && s[j] == k;
        assert(s.push(x)[j] == k);
    }
    if x == k {
        assert(s.push(x)[s.len() as int] == k);
    }
    if s.push(x).contains(k) {
        let j = choose|j: int| 0 <= j < s.push(x).len() && s.push(x)[j] == k;
        if j < s.len() {
            assert(s[j] == k);
        }
    }
}

/// Whether `id` is among `ids`.
fn contains_identifier(ids: &Vec<Identifier>, id: &Identifier) -> (r: bool)
    ensures
        r == ids@.contains(*id),
{
    let mut i: usize = 0;
    while i < ids.len()
        invariant
            i <= ids@.len(),
            forall|j: int| 0 <= j < i ==> ids@[j] != *id,
        decreases ids@.len() - i,
    {
        if ids[i] == *id {
            return true;
        }
        i = i + 1;
    }
    false
}

} // verus!
