//! Discovery of the address under which a local IPv4 socket is reachable from the
//! internet, through a port mapping on the internet gateway device (UPnP IGD).
//!
//! The gateway is asked in turn for its port mapping entries, by index, until one maps
//! the socket or none is left; where one does, the external address is the gateway's
//! external IP with that entry's external port, otherwise a new UDP mapping is asked for.
use vstd::prelude::*;
use vstd::string::StringExecFns;
use crate::address::{dotted_ipv4, Ipv4Address, SocketAddressV4};
use vstd::utf8::encode_utf8;

verus! {

/// Why no external address was found.
#[derive(Clone, Debug)]
pub enum AddressDiscoveryError {
    /// The gateway failed; the message says how.
    IgdError(String),
    /// The host's interfaces could not be listed; the message says why.
    InterfacesError(String),
    /// The address cannot be mapped; the message says why.
    UnsupportedAddress(String),
}

impl AddressDiscoveryError {
    /// The message of the error.
    pub fn description(&self) -> (r: &String)
        ensures
            *r == match *self {
                AddressDiscoveryError::IgdError(s) => s,
                AddressDiscoveryError::InterfacesError(s) => s,
                AddressDiscoveryError::UnsupportedAddress(s) => s,
            },
    {
        match self {
            AddressDiscoveryError::IgdError(s) => s,
            AddressDiscoveryError::InterfacesError(s) => s,
            AddressDiscoveryError::UnsupportedAddress(s) => s,
        }
    }

    /// The error for a failed search for the gateway, with the search's explanation.
    pub fn gateway_search_failed(detail: &str) -> (r: AddressDiscoveryError)
        ensures
            r matches AddressDiscoveryError::IgdError(s) && s@
                == "Error while searching internet gateway device: "@ + detail@,
    {
        AddressDiscoveryError::IgdError(
            String::from_str("Error while searching internet gateway device: ").concat(detail),
        )
    }

    /// The error for a refused new port mapping, with the gateway's explanation.
    pub fn port_mapping_failed(detail: &str) -> (r: AddressDiscoveryError)
        ensures
            r matches AddressDiscoveryError::IgdError(s) && s@
                == "Error while setting up port mapping: "@ + detail@,
    {
        AddressDiscoveryError::IgdError(
            String::from_str("Error while setting up port mapping: ").concat(detail),
        )
    }

    /// The error for an unknown external IP, with the gateway's explanation.
    pub fn external_ip_failed(detail: &str) -> (r: AddressDiscoveryError)
        ensures
            r matches AddressDiscoveryError::IgdError(s) && s@
                == "Unable to determine the external IP address: "@ + detail@,
    {
        AddressDiscoveryError::IgdError(
            String::from_str("Unable to determine the external IP address: ").concat(detail),
        )
    }

    /// The error for interfaces that could not be listed, with the host's explanation.
    pub fn interfaces_failed(detail: &str) -> (r: AddressDiscoveryError)
        ensures
            r matches AddressDiscoveryError::InterfacesError(s) && s@
                == "Error while fetching interfaces: "@ + detail@,
    {
        AddressDiscoveryError::InterfacesError(
            String::from_str("Error while fetching interfaces: ").concat(detail),
        )
    }
}

/// The transport protocol of a port mapping.
#[derive(Clone, Copy, Debug, PartialEq, Eq, Structural)]
pub enum MappingProtocol {
    Tcp,
    Udp,
}

/// What the daemon reads of a port mapping entry of the gateway.
#[derive(Debug)]
pub struct PortMappingEntry {
    /// The local host the mapping leads to, as the gateway writes it.
    pub internal_client: String,
    /// The local port the mapping leads to.
    pub internal_port: u16,
    /// The mapped protocol.
    pub protocol: MappingProtocol,
    /// Whether the mapping is enabled.
    pub enabled: bool,
    /// The port on the gateway's external address.
    pub external_port: u16,
}

/// The external port of `entry`, where it maps the socket `internal`: its client reads as
/// `internal`'s IP (`client_ip` is that reading), its internal port is `internal`'s port,
/// it maps UDP and it is enabled.
pub open spec fn mapping_port_spec(
    client_ip: Option<u32>,
    entry: PortMappingEntry,
    internal: SocketAddressV4,
) -> Option<u16> {
    if client_ip == Some(internal.ip.0) && entry.internal_port == internal.port && entry.protocol
        == MappingProtocol::Udp && entry.enabled {
        Some(entry.external_port)
    } else {
        None
    }
}

/// The external port of `entry` where it maps the socket `internal`, given the IP that its
/// client reads as (`None` where it reads as none).
pub fn mapping_port(client_ip: Option<Ipv4Address>, entry: &PortMappingEntry, internal: SocketAddressV4) -> (r: Option<u16>)
    ensures
        r == mapping_port_spec(
            match client_ip {
                Some(a) => Some(a.0),
                None => None,
            },
            *entry,
            internal,
        ),
{
    let ip = match client_ip {
        Some(ip) => ip,
        None => return None,
    };
    if ip.0 != internal.ip.0 {
        return None;
    }
    if entry.internal_port != internal.port {
        return None;
    }
    if entry.protocol != MappingProtocol::Udp {
        return None;
    }
    if !entry.enabled {
        return None;
    }
    Some(entry.external_port)
}

/// The external port of `entry` where it maps the socket `internal`; its client is read
/// as a dotted decimal IPv4 address.
pub fn existing_mapping_port(entry: &PortMappingEntry, internal: SocketAddressV4) -> (r: Option<u16>)
    ensures
        r == mapping_port_spec(
            dotted_ipv4(encode_utf8(entry.internal_client@)),
            *entry,
            internal,
        ),
{
    let client_ip = Ipv4Address::parse_dotted(entry.internal_client.as_str());
    mapping_port(client_ip, entry, internal)
}

/// What the gateway answered to a request for a port mapping entry.
#[derive(Debug)]
pub enum EntryAnswer {
    /// The entry at the requested index.
    Entry(PortMappingEntry),
    /// There is no entry at that index: all were listed.
    NoSuchEntry,
    /// The request failed; the explanation.
    Failed(String),
}

/// The next step of the search for an existing mapping.
#[derive(Clone, Copy, Debug, PartialEq, Eq, Structural)]
pub enum ScanStep {
    /// Ask for the entry at this index.
    Request(u32),
    /// The entry just read maps the socket to this external port.
    Found(u16),
    /// No entry maps the socket.
    NotFound,
}

/// The external port of `entry` where it maps the socket `internal`, its client read as a
/// dotted decimal IPv4 address.
pub open spec fn entry_port(entry: PortMappingEntry, internal: SocketAddressV4) -> Option<u16> {
    mapping_port_spec(dotted_ipv4(encode_utf8(entry.internal_client@)), entry, internal)
}

/// The step that follows reading `entry` at `index` in the search for `internal`: its
/// external port where it maps the socket, otherwise a request for the next index.
pub open spec fn entry_step(entry: PortMappingEntry, internal: SocketAddressV4, index: nat) -> ScanStep {
    match entry_port(entry, internal) {
        Some(port) => ScanStep::Found(port),
        None => ScanStep::Request((index + 1) as u32),
    }
}

/// Where a search for `internal` that asks for the entries from index `i` on ends, against
/// a gateway that holds `entries` and answers each request with the entry at that index,
/// or with "no such entry" past the last: at the external port of the first entry from
/// `i` on that maps the socket, or with nothing found.
pub open spec fn scan_from(entries: Seq<PortMappingEntry>, internal: SocketAddressV4, i: nat) -> ScanStep
    decreases entries.len() - i,
{
    if i >= entries.len() {
        ScanStep::NotFound
    } else {
        match entry_port(entries[i as int], internal) {
            Some(port) => ScanStep::Found(port),
            None => scan_from(entries, internal, i + 1),
        }
    }
}

/// The search for a port mapping entry of the gateway that maps a given local socket.
pub struct MappingScan {
    /// The socket searched for.
    pub internal: SocketAddressV4,
    /// The index of the next entry to ask for.
    pub index: u32,
}

impl MappingScan {
    /// The search for a mapping of `internal`, which starts by asking for entry 0.
    pub fn new(internal: SocketAddressV4) -> (r: (MappingScan, ScanStep))
        ensures
            r.0.internal == internal,
            r.0.index == 0,
            r.1 == ScanStep::Request(0),
    {
        (MappingScan { internal, index: 0 }, ScanStep::Request(0))
    }

    /// Takes the gateway's answer to the last request. The end of the list or a failure
    /// ends the search with nothing found; an entry that maps the socket ends it with its
    /// external port; any other entry leads to asking for the next index.
    pub fn step(&mut self, answer: EntryAnswer) -> (r: ScanStep)
        requires
            answer is Entry ==> old(self).index < u32::MAX,
        ensures
            final(self).internal == old(self).internal,
            match answer {
                EntryAnswer::Entry(e) => final(self).index == old(self).index + 1 && r == entry_step(
                    e,
                    old(self).internal,
                    old(self).index as nat,
                ),
                _ => final(self).index == old(self).index && r == ScanStep::NotFound,
            },
    {
        match answer {
            EntryAnswer::Entry(entry) => {
                self.index = self.index + 1;
                match existing_mapping_port(&entry, self.internal) {
                    Some(port) => ScanStep::Found(port),
                    None => ScanStep::Request(self.index),
                }
            },
            EntryAnswer::NoSuchEntry => ScanStep::NotFound,
            EntryAnswer::Failed(_) => ScanStep::NotFound,
        }
    }
}

/// Each step of a search keeps where it ends: against a gateway that holds `entries` and
/// answers faithfully, the search from index `i` ends where the step after reading the
/// entry at `i` leads (its port, or the search from the next index), and past the last
/// entry it ends with nothing found, as a "no such entry" answer makes `step` end.
pub proof fn lemma_scan_step(entries: Seq<PortMappingEntry>, internal: SocketAddressV4, i: nat)
    requires
        entries.len() <= u32::MAX,
    ensures
        i >= entries.len() ==> scan_from(entries, internal, i) == ScanStep::NotFound,
        i < entries.len() ==> scan_from(entries, internal, i) == match entry_step(
            entries[i as int],
            internal,
            i,
        ) {
            ScanStep::Request(j) => scan_from(entries, internal, j as nat),
            other => other,
        },
{
}

/// A search against a gateway that already holds a mapping of the socket finds a mapping
/// of it: it ends at the external port of the first such entry, so no new mapping is asked
/// for. In particular, once a mapping of the socket was set up, a later search for it
/// finds one again.
pub proof fn lemma_scan_finds_existing_mapping(
    entries: Seq<PortMappingEntry>,
    internal: SocketAddressV4,
    i: nat,
    k: int,
)
    requires
        i <= k < entries.len(),
        entry_port(entries[k], internal) is Some,
    ensures
        exists|j: int|
            i <= j <= k && (forall|m: int| i <= m < j ==> entry_port(entries[m], internal) is None)
                && scan_from(entries, internal, i) == ScanStep::Found(
                entry_port(entries[j], internal)->Some_0,
            ),
    decreases k - i,
{
    if entry_port(entries[i as int], internal) is Some {
        assert(i <= i as int <= k && (forall|m: int| i <= m < i ==> entry_port(entries[m], internal) is None)
            && scan_from(entries, internal, i) == ScanStep::Found(
            entry_port(entries[i as int], internal)->Some_0,
        ));
    } else {
        lemma_scan_finds_existing_mapping(entries, internal, i + 1, k);
        let j = choose|j: int|
            i + 1 <= j <= k && (forall|m: int| i + 1 <= m < j ==> entry_port(entries[m], internal) is None)
                && scan_from(entries, internal, i + 1) == ScanStep::Found(
                entry_port(entries[j], internal)->Some_0,
            );
        assert(forall|m: int| i <= m < j ==> entry_port(entries[m], internal) is None);
    }
}

/// The description that new port mappings carry.
pub fn mapping_description() -> (r: &'static str)
    ensures
        r@ == "UIP"@,
{
    "UIP"
}

/// The external address where an existing mapping to `external_port` was found: the
/// gateway's external IP with that port, or the error of the IP request.
pub fn external_address_from_existing(
    external_ip: Result<Ipv4Address, String>,
    external_port: u16,
) -> (r: Result<SocketAddressV4, AddressDiscoveryError>)
    ensures
        match external_ip {
            Ok(ip) => r == Ok::<SocketAddressV4, AddressDiscoveryError>(
                SocketAddressV4 { ip, port: external_port },
            ),
            Err(e) => r matches Err(AddressDiscoveryError::IgdError(s)) && s@
                == "Unable to determine the external IP address: "@ + e@,
        },
{
    match external_ip {
        Ok(ip) => Ok(SocketAddressV4 { ip, port: external_port }),
        Err(e) => Err(AddressDiscoveryError::external_ip_failed(e.as_str())),
    }
}

/// The external address where a new mapping was asked for: the address the gateway
/// mapped, or the error of the request.
pub fn external_address_from_new_mapping(mapped: Result<SocketAddressV4, String>) -> (r: Result<
    SocketAddressV4,
    AddressDiscoveryError,
>)
    ensures
        match mapped {
            Ok(a) => r == Ok::<SocketAddressV4, AddressDiscoveryError>(a),
            Err(e) => r matches Err(AddressDiscoveryError::IgdError(s)) && s@
                == "Error while setting up port mapping: "@ + e@,
        },
{
    match mapped {
        Ok(a) => Ok(a),
        Err(e) => Err(AddressDiscoveryError::port_mapping_failed(e.as_str())),
    }
}

} // verus!
