//! The decisions of the datagram layer: one UDP socket per local address, shared by
//! the connections to all remote addresses, each connection seeing only its remote's
//! datagrams.
use vstd::prelude::*;
use crate::address::SocketAddress;
use crate::table::Table;

verus! {

/// The size of the buffer that one received datagram is read into.
pub const DATAGRAM_BUFFER_SIZE: usize = 1_500_000;

/// The number of connections that wait to be accepted, and of datagrams that wait to be
/// read on a connection.
pub const QUEUE_LENGTH: usize = 10;

/// What became of a received datagram.
#[derive(Clone, Copy, Debug, PartialEq, Eq, Structural)]
pub enum DatagramOutcome {
    /// The connection of its remote no longer reads: the datagram is dropped and the
    /// connection is not recorded.
    Dropped,
    /// It went to its remote's connection, which is recorded; where that connection is
    /// new, it is announced as an incoming connection.
    Forwarded { announce: bool },
}

/// What becomes of a datagram from a remote that has a connection already (`known`) or
/// gets a new one, given whether handing the datagram to that connection succeeded.
pub fn datagram_outcome(known: bool, handed_over: bool) -> (r: DatagramOutcome)
    ensures
        !handed_over ==> r == DatagramOutcome::Dropped,
        handed_over ==> r == (DatagramOutcome::Forwarded { announce: !known }),
{
    if !handed_over {
        DatagramOutcome::Dropped
    } else {
        DatagramOutcome::Forwarded { announce: !known }
    }
}

/// The connections after a datagram from `remote`, handed to `writer` (its connection's,
/// or a new one's), was handed over or not: where it was, `remote`'s connection is the one
/// behind `writer`; otherwise nothing changes.
pub open spec fn connections_after_datagram<W>(
    connections: Map<SocketAddress, W>,
    remote: SocketAddress,
    writer: W,
    handed_over: bool,
) -> Map<SocketAddress, W> {
    if handed_over {
        connections.insert(remote, writer)
    } else {
        connections
    }
}

/// The connections of a shared datagram socket: for each remote address, the writer
/// towards the one connection that sees that remote's datagrams.
pub struct DatagramRouter<W> {
    pub connections: Table<SocketAddress, W>,
}

impl<W> DatagramRouter<W> {
    /// A socket with no connection.
    pub fn new() -> (r: DatagramRouter<W>)
        ensures
            r.connections@ == Map::<SocketAddress, W>::empty(),
    {
        DatagramRouter { connections: Table::new() }
    }

    /// Records a connection opened from this socket to `remote`, replacing an earlier one.
    pub fn connect(&mut self, remote: SocketAddress, writer: W)
        ensures
            final(self).connections@ == old(self).connections@.insert(remote, writer),
    {
        self.connections.insert(remote, writer);
    }

    /// The writer towards the connection of `remote`, where it has one; otherwise a
    /// datagram from it opens a new connection.
    pub fn destination(&self, remote: &SocketAddress) -> (r: Option<&W>)
        ensures
            r is Some <==> self.connections@.contains_key(*remote),
            r matches Some(w) ==> *w == self.connections@[*remote],
    {
        self.connections.get(remote)
    }

    /// Records what became of a datagram from `remote` handed to `writer`: the known
    /// connection's writer (`known`) or a new connection's. Where it was handed over, the
    /// writer is `remote`'s connection from now on and a new connection is announced;
    /// otherwise the datagram is dropped and nothing is recorded.
    pub fn record_datagram(&mut self, remote: SocketAddress, writer: W, known: bool, handed_over: bool) -> (r:
        DatagramOutcome)
        ensures
            final(self).connections@ == connections_after_datagram(
                old(self).connections@,
                remote,
                writer,
                handed_over,
            ),
            !handed_over ==> r == DatagramOutcome::Dropped,
            handed_over ==> r == (DatagramOutcome::Forwarded { announce: !known }),
    {
        let r = datagram_outcome(known, handed_over);
        if handed_over {
            self.connections.insert(remote, writer);
        }
        r
    }
}

/// Once a datagram from `remote` was handed over, every later datagram from `remote` goes
/// to the same connection, and the connections of all other remotes are as before: each
/// connection sees only its remote's datagrams, and each remote has one connection.
pub proof fn lemma_one_connection_per_remote<W>(
    connections: Map<SocketAddress, W>,
    remote: SocketAddress,
    other: SocketAddress,
    writer: W,
)
    ensures
        connections_after_datagram(connections, remote, writer, true).contains_key(remote),
        connections_after_datagram(connections, remote, writer, true)[remote] == writer,
        other != remote ==> (connections_after_datagram(connections, remote, writer, true).contains_key(
            other,
        ) == connections.contains_key(other) && connections_after_datagram(
            connections,
            remote,
            writer,
            true,
        )[other] == connections[other]),
{
}

/// Why a connection refuses an operation on another address than its remote's.
#[derive(Clone, Copy, Debug, PartialEq, Eq, Structural)]
pub enum ConnectionAddressError {
    /// The address is not this connection's remote address.
    CantAssignRequestedAddress,
}

/// The two ends of a connection over a shared datagram socket.
#[derive(Clone, Copy, Debug, PartialEq, Eq, Structural)]
pub struct ConnectionEnds {
    pub local: SocketAddress,
    pub remote: SocketAddress,
}

impl ConnectionEnds {
    /// Connecting succeeds only to the connection's own remote address.
    pub fn check_connect(&self, address: SocketAddress) -> (r: Result<(), ConnectionAddressError>)
        ensures
            r is Ok <==> address == self.remote,
    {
        if self.remote == address {
            Ok(())
        } else {
            Err(ConnectionAddressError::CantAssignRequestedAddress)
        }
    }

    /// Sending succeeds only to the connection's own remote address.
    pub fn check_send_to(&self, target: SocketAddress) -> (r: Result<(), ConnectionAddressError>)
        ensures
            r is Ok <==> target == self.remote,
    {
        if target != self.remote {
            Err(ConnectionAddressError::CantAssignRequestedAddress)
        } else {
            Ok(())
        }
    }
}

/// The netlink multicast group of IPv4 route changes.
pub const RTMGRP_IPV4_ROUTE: u32 = 0x40;

/// The netlink multicast group of IPv6 route changes.
pub const RTMGRP_IPV6_ROUTE: u32 = 0x400;

/// The netlink groups that the listener for network changes joins: IPv4 and IPv6 route
/// changes.
pub fn network_change_groups() -> (r: u32)
    ensures
        r == 0x440,
{
    let r = RTMGRP_IPV6_ROUTE | RTMGRP_IPV4_ROUTE;
    assert(0x400u32 | 0x40u32 == 0x440u32) by (bit_vector);
    r
}

/// The milliseconds within which further network changes are folded into one.
pub const CHANGE_DEBOUNCE_MILLIS: u64 = 2000;

/// Whether a network change passes the debouncer: only once more than the window has
/// passed since the last change that passed; earlier ones are swallowed.
pub fn debounce_passes(elapsed_nanos: u128, window_nanos: u128) -> (r: bool)
    ensures
        r == (elapsed_nanos > window_nanos),
{
    elapsed_nanos > window_nanos
}

} // verus!
