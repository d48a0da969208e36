//! The daemon's configuration: what it keeps from one run to the next.
use vstd::prelude::*;
use crate::identifier::{copy_identifiers, Identifier};
use crate::identity::{certificate_fields, private_key_bits, private_key_pem, private_key_spki, Identity, IdentityError};
use crate::network::NetworkState;
use crate::peer::{PeerInformationBase, PeerView};
use crate::unix::{default_ctl_socket, UnixState};
use crate::identifier::hex_string;

verus! {

/// The port that the daemon binds where the configuration names none (port 0).
pub const DEFAULT_PORT: u16 = 0xfe11;

/// The daemon's configuration.
pub struct Configuration {
    /// The port that sockets bind to; 0 stands for the default port.
    pub port: u16,
    /// The path of the control socket.
    pub ctl_socket: String,
    /// The relays this peer keeps connections to.
    pub relays: Vec<Identifier>,
    /// This peer's identity.
    pub id: Identity,
    /// What is known of other peers.
    pub pib: PeerInformationBase,
}

impl Configuration {
    /// A fresh configuration for `id`: port 0, the default control socket path of its
    /// identifier, no relays and no known peers.
    pub fn generate(id: Identity) -> (r: Configuration)
        ensures
            r.port == 0,
            r.ctl_socket@ == "/run/user/1000/"@ + hex_string(id.identifier@) + ".sock"@,
            r.relays@.len() == 0,
            r.id == id,
            r.pib@ == Map::<Identifier, PeerView>::empty(),
    {
        let ctl_socket = default_ctl_socket(&id.identifier);
        Configuration { port: 0, ctl_socket, relays: Vec::new(), id, pib: PeerInformationBase::new() }
    }

    /// The port that sockets bind to: the configured one, or the default port where it is 0.
    pub fn effective_port(&self) -> (p: u16)
        ensures
            p == (if self.port == 0 {
                DEFAULT_PORT
            } else {
                self.port
            }),
    {
        if self.port == 0 {
            DEFAULT_PORT
        } else {
            self.port
        }
    }

    /// The configuration to keep at the end of a run: a copy of the identity, and the
    /// current known peers, relays, port and control socket path of the network and control
    /// layers. Copying the identity's key can fail.
    pub fn from_state<W>(network: &NetworkState, unix: &UnixState<W>) -> (r: Result<Configuration, IdentityError>)
        ensures
            r matches Ok(c) ==> {
                &&& c.id.identifier == network.id.identifier
                &&& private_key_spki(c.id.key) == private_key_spki(network.id.key)
                &&& private_key_bits(c.id.key) == private_key_bits(network.id.key)
                &&& certificate_fields(c.id.cert) == certificate_fields(network.id.cert)
                &&& c.pib@ == network.pib@
                &&& c.relays@ == network.relays@
                &&& c.port == network.port
                &&& c.ctl_socket@ == unix.ctl_socket@
            },
            r is Ok <==> (private_key_pem(network.id.key) matches Some(p) && p.len() <= i32::MAX),
            r matches Err(IdentityError::KeyTooLong) ==> (private_key_pem(network.id.key) matches Some(
                p,
            ) && p.len() > i32::MAX),
    {
        let id = match network.id.try_clone() {
            Ok(id) => id,
            Err(e) => return Err(e),
        };
        Ok(Configuration {
            id,
            pib: network.pib.clone(),
            relays: copy_identifiers(&network.relays),
            port: network.port,
            ctl_socket: unix.ctl_socket(),
        })
    }

    /// The network layer that this configuration describes, with no socket open, bound to
    /// the effective port; it takes the identity, the known peers and the relays, and hands
    /// back the control socket path.
    pub fn into_network(self) -> (r: (NetworkState, String))
        ensures
            r.0.id == self.id,
            r.0.pib@ == self.pib@,
            r.0.relays@ == self.relays@,
            r.0.port == (if self.port == 0 {
                DEFAULT_PORT
            } else {
                self.port
            }),
            r.0.sockets_view().len() == 0,
            r.1@ == self.ctl_socket@,
    {
        let port = self.effective_port();
        (NetworkState::new(self.id, self.pib, self.relays, port), self.ctl_socket)
    }
}

} // verus!
