//! Network addresses: IP socket addresses, interface names, the local addresses
//! that sockets bind to, and which of an interface's addresses the daemon uses.
use vstd::prelude::*;
use vstd::string::StringSliceAdditionalSpecFns;

verus! {

/// An IPv4 address, as its big-endian 32-bit number.
#[derive(Clone, Copy, Debug, PartialEq, Eq, Hash, Structural)]
pub struct Ipv4Address(pub u32);

/// Where a scan of a dotted decimal IPv4 address stands: the octets read so far and the
/// digits of the octet being read.
pub struct DottedScan {
    pub octets: Seq<u8>,
    pub value: int,
    pub digits: int,
}

/// The scan after byte `c`: a digit extends the current octet (at most three digits, no
/// leading zero, at most 255); a dot ends a non-empty octet (at most three of them);
/// anything else fails.
pub open spec fn dotted_step(st: Option<DottedScan>, c: u8) -> Option<DottedScan> {
    match st {
        None => None,
        Some(st) => if 48 <= c <= 57 {
            let value = st.value * 10 + (c - 48);
            if st.digits >= 3 || (st.digits >= 1 && st.value == 0) || value > 255 {
                None
            } else {
                Some(DottedScan { value, digits: st.digits + 1, ..st })
            }
        } else if c == 46 {
            if st.digits == 0 || st.octets.len() >= 3 {
                None
            } else {
                Some(DottedScan { octets: st.octets.push(st.value as u8), value: 0, digits: 0 })
            }
        } else {
            None
        },
    }
}

/// The scan of the bytes `s`.
pub open spec fn dotted_scan(s: Seq<u8>) -> Option<DottedScan>
    decreases s.len(),
{
    if s.len() == 0 {
        Some(DottedScan { octets: Seq::empty(), value: 0, digits: 0 })
    } else {
        dotted_step(dotted_scan(s.drop_last()), s.last())
    }
}

/// The IPv4 address that the bytes `s` denote in dotted decimal notation (four decimal
/// octets of one to three digits, without leading zeros, separated by dots), as its
/// big-endian number.
pub open spec fn dotted_ipv4(s: Seq<u8>) -> Option<u32> {
    match dotted_scan(s) {
        Some(st) => if st.digits > 0 && st.octets.len() == 3 {
            Some(
                (st.octets[0] as int * 16777216 + st.octets[1] as int * 65536 + st.octets[2] as int
                    * 256 + st.value) as u32,
            )
        } else {
            None
        },
        None => None,
    }
}

impl Ipv4Address {
    /// Reads an IPv4 address in dotted decimal notation (see `dotted_ipv4`).
    pub fn parse_dotted(s: &str) -> (r: Option<Ipv4Address>)
        ensures
            r == match dotted_ipv4(s.spec_bytes()) {
                Some(a) => Some(Ipv4Address(a)),
                None => None::<Ipv4Address>,
            },
    {
        let bytes = s.as_bytes();
        let mut octets: [u32; 3] = [0, 0, 0];
        let mut count: usize = 0;
        let mut value: u32 = 0;
        let mut digits: u32 = 0;
        for i in 0..bytes.len()
            invariant
                bytes@ == s.spec_bytes(),
                dotted_scan(bytes@.take(i as int)) matches Some(st) && st.octets.len() == count
                    && count <= 3 && st.value == value && st.digits == digits && value <= 255
                    && digits <= 3 && forall|k: int| 0 <= k < count ==> octets@[k] == st.octets[k],
        {
            let c = bytes[i];
            proof {
                assert(bytes@.take(i + 1).drop_last() =~= bytes@.take(i as int));
            }
            if 48 <= c && c <= 57 {
                let next = value * 10 + (c - 48) as u32;
                if digits >= 3 || (digits >= 1 && value == 0) || next > 255 {
                    proof {
                        lemma_dotted_fails_after(bytes@, i as int + 1);
                    }
                    return None;
                }
                value = next;
                digits = digits + 1;
            } else if c == 46 {
                if digits == 0 || count >= 3 {
                    proof {
                        lemma_dotted_fails_after(bytes@, i as int + 1);
                    }
                    return None;
                }
                octets[count] = value;
                count = count + 1;
                value = 0;
                digits = 0;
            } else {
                proof {
                    lemma_dotted_fails_after(bytes@, i as int + 1);
                }
                return None;
            }
        }
        assert(bytes@.take(bytes@.len() as int) =~= bytes@);
        if digits > 0 && count == 3 {
            Some(Ipv4Address(octets[0] * 16777216 + octets[1] * 65536 + octets[2] * 256 + value))
        } else {
            None
        }
    }
}

proof fn lemma_dotted_fails_after(s: Seq<u8>, n: int)
    requires
        0 <= n <= s.len(),
        dotted_scan(s.take(n)) is None,
    ensures
        dotted_scan(s) is None,
        dotted_ipv4(s) is None,
    decreases s.len() - n,
{
    if n < s.len() {
        assert(s.take(n + 1).drop_last() =~= s.take(n));
        lemma_dotted_fails_after(s, n + 1);
    } else {
        assert(s.take(n) =~= s);
    }
}

/// An IPv6 address, as its big-endian 128-bit number.
#[derive(Clone, Copy, Debug, PartialEq, Eq, Hash, Structural)]
pub struct Ipv6Address(pub u128);

/// An IPv4 address and a port.
#[derive(Clone, Copy, Debug, PartialEq, Eq, Hash, Structural)]
pub struct SocketAddressV4 {
    pub ip: Ipv4Address,
    pub port: u16,
}

/// An IPv6 address, a port, the flow label and the scope id.
#[derive(Clone, Copy, Debug, PartialEq, Eq, Hash, Structural)]
pub struct SocketAddressV6 {
    pub ip: Ipv6Address,
    pub port: u16,
    pub flowinfo: u32,
    pub scope_id: u32,
}

/// An IPv4 or an IPv6 socket address.
#[derive(Clone, Copy, Debug, PartialEq, Eq, Hash, Structural)]
pub enum SocketAddress {
    V4(SocketAddressV4),
    V6(SocketAddressV6),
}

impl SocketAddress {
    /// Whether this is an IPv4 address.
    pub fn is_ipv4(&self) -> (r: bool)
        ensures
            r == (*self is V4),
    {
        match self {
            SocketAddress::V4(_) => true,
            SocketAddress::V6(_) => false,
        }
    }

    /// The port.
    pub fn port(&self) -> (p: u16)
        ensures
            p == match *self {
                SocketAddress::V4(a) => a.port,
                SocketAddress::V6(a) => a.port,
            },
    {
        match self {
            SocketAddress::V4(a) => a.port,
            SocketAddress::V6(a) => a.port,
        }
    }
}

/// The `i`-th 16-bit segment of an IPv6 address, `i` from 0 to 7, most significant first.
pub open spec fn segment(a: u128, i: u32) -> u16 {
    ((a >> ((112 - 16 * i) as u32)) & 0xffff) as u16
}

fn segment_exec(a: u128, i: u32) -> (s: u16)
    requires
        i < 8,
    ensures
        s == segment(a, i),
{
    ((a >> (112 - 16 * i)) & 0xffff) as u16
}

/// Whether an address in `2001::/23` is nonetheless globally reachable.
pub open spec fn ipv6_ietf_global_exception(a: u128) -> bool {
    ||| a == 0x2001_0001_0000_0000_0000_0000_0000_0001u128
    ||| a == 0x2001_0001_0000_0000_0000_0000_0000_0002u128
    ||| segment(a, 1) == 3
    ||| (segment(a, 1) == 4 && segment(a, 2) == 0x112)
    ||| (0x20 <= segment(a, 1) <= 0x3f)
}

/// Whether an IPv6 address is globally reachable: it is in none of the
/// special-purpose blocks that are not (unspecified, loopback, IPv4-mapped,
/// the local-use IPv4-IPv6 prefix 64:ff9b:1::/48, discard-only, the IETF protocol assignments save their
/// global exceptions, 6to4, documentation, segment routing, unique local, and
/// link-local unicast).
pub open spec fn ipv6_is_global(a: u128) -> bool {
    !({
        ||| a == 0
        ||| a == 1
        ||| (segment(a, 0) == 0 && segment(a, 1) == 0 && segment(a, 2) == 0 && segment(a, 3) == 0
            && segment(a, 4) == 0 && segment(a, 5) == 0xffff)
        ||| (segment(a, 0) == 0x64 && segment(a, 1) == 0xff9b && segment(a, 2) == 1)
        ||| (segment(a, 0) == 0x100 && segment(a, 1) == 0 && segment(a, 2) == 0 && segment(a, 3)
            == 0)
        ||| (segment(a, 0) == 0x2001 && segment(a, 1) < 0x200 && !ipv6_ietf_global_exception(a))
        ||| segment(a, 0) == 0x2002
        ||| (segment(a, 0) == 0x2001 && segment(a, 1) == 0xdb8)
        ||| (segment(a, 0) == 0x3fff && segment(a, 1) <= 0x0fff)
        ||| segment(a, 0) == 0x5f00
        ||| (segment(a, 0) & 0xfe00) == 0xfc00
        ||| (segment(a, 0) & 0xffc0) == 0xfe80
    })
}

proof fn lemma_segments(a: u128)
    ensures
        segment(a, 0) == ((a >> 112u32) & 0xffff) as u16,
        segment(a, 1) == ((a >> 96u32) & 0xffff) as u16,
        segment(a, 2) == ((a >> 80u32) & 0xffff) as u16,
        segment(a, 3) == ((a >> 64u32) & 0xffff) as u16,
        segment(a, 4) == ((a >> 48u32) & 0xffff) as u16,
        segment(a, 5) == ((a >> 32u32) & 0xffff) as u16,
{
}

/// The special-purpose blocks, each given by the leading bits of the address, hold no
/// globally reachable address: unique local `fc00::/7`, link-local `fe80::/10`, the
/// unspecified and loopback addresses, IPv4-mapped `::ffff:0:0/96`, documentation
/// `2001:db8::/32` and `3fff::/20`, 6to4 `2002::/16`, segment routing `5f00::/16`,
/// discard-only `100::/64` and the local-use IPv4-IPv6 prefix `64:ff9b:1::/48`.
pub proof fn lemma_special_blocks_not_global(a: u128)
    ensures
        (a >> 121u32) == 0x7e ==> !ipv6_is_global(a),
        (a >> 118u32) == 0x3fa ==> !ipv6_is_global(a),
        a == 0 ==> !ipv6_is_global(a),
        a == 1 ==> !ipv6_is_global(a),
        (a >> 32u32) == 0xffff ==> !ipv6_is_global(a),
        (a >> 96u32) == 0x2001_0db8 ==> !ipv6_is_global(a),
        (a >> 108u32) == 0x3fff0 ==> !ipv6_is_global(a),
        (a >> 112u32) == 0x2002 ==> !ipv6_is_global(a),
        (a >> 112u32) == 0x5f00 ==> !ipv6_is_global(a),
        (a >> 64u32) == 0x0100_0000_0000_0000 ==> !ipv6_is_global(a),
        (a >> 80u32) == 0x0064_ff9b_0001 ==> !ipv6_is_global(a),
{
    lemma_segments(a);
    let s0 = ((a >> 112u32) & 0xffff) as u16;
    let s1 = ((a >> 96u32) & 0xffff) as u16;
    let s2 = ((a >> 80u32) & 0xffff) as u16;
    let s3 = ((a >> 64u32) & 0xffff) as u16;
    let s4 = ((a >> 48u32) & 0xffff) as u16;
    let s5 = ((a >> 32u32) & 0xffff) as u16;
    assert((a >> 121u32) == 0x7e ==> (s0 & 0xfe00) == 0xfc00) by (bit_vector)
        requires
            s0 == ((a >> 112u32) & 0xffff) as u16,
    ;
    assert((a >> 118u32) == 0x3fa ==> (s0 & 0xffc0) == 0xfe80) by (bit_vector)
        requires
            s0 == ((a >> 112u32) & 0xffff) as u16,
    ;
    assert((a >> 32u32) == 0xffff ==> s0 == 0 && s1 == 0 && s2 == 0 && s3 == 0 && s4 == 0 && s5
        == 0xffff) by (bit_vector)
        requires
            s0 == ((a >> 112u32) & 0xffff) as u16,
            s1 == ((a >> 96u32) & 0xffff) as u16,
            s2 == ((a >> 80u32) & 0xffff) as u16,
            s3 == ((a >> 64u32) & 0xffff) as u16,
            s4 == ((a >> 48u32) & 0xffff) as u16,
            s5 == ((a >> 32u32) & 0xffff) as u16,
    ;
    assert((a >> 96u32) == 0x2001_0db8 ==> s0 == 0x2001 && s1 == 0xdb8) by (bit_vector)
        requires
            s0 == ((a >> 112u32) & 0xffff) as u16,
            s1 == ((a >> 96u32) & 0xffff) as u16,
    ;
    assert((a >> 108u32) == 0x3fff0 ==> s0 == 0x3fff && s1 <= 0x0fff) by (bit_vector)
        requires
            s0 == ((a >> 112u32) & 0xffff) as u16,
            s1 == ((a >> 96u32) & 0xffff) as u16,
    ;
    assert((a >> 112u32) == 0x2002 ==> s0 == 0x2002) by (bit_vector)
        requires
            s0 == ((a >> 112u32) & 0xffff) as u16,
    ;
    assert((a >> 112u32) == 0x5f00 ==> s0 == 0x5f00) by (bit_vector)
        requires
            s0 == ((a >> 112u32) & 0xffff) as u16,
    ;
    assert((a >> 64u32) == 0x0100_0000_0000_0000 ==> s0 == 0x100 && s1 == 0 && s2 == 0 && s3
        == 0) by (bit_vector)
        requires
            s0 == ((a >> 112u32) & 0xffff) as u16,
            s1 == ((a >> 96u32) & 0xffff) as u16,
            s2 == ((a >> 80u32) & 0xffff) as u16,
            s3 == ((a >> 64u32) & 0xffff) as u16,
    ;
    assert((a >> 80u32) == 0x0064_ff9b_0001 ==> s0 == 0x64 && s1 == 0xff9b && s2 == 1) by (bit_vector)
        requires
            s0 == ((a >> 112u32) & 0xffff) as u16,
            s1 == ((a >> 96u32) & 0xffff) as u16,
            s2 == ((a >> 80u32) & 0xffff) as u16,
    ;
}

/// The global unicast range `2000::/3` is globally reachable, save for its special-purpose
/// blocks under `2001::/16`, `2002::/16` and `3fff::/16`.
pub proof fn lemma_global_unicast_is_global(a: u128)
    ensures
        (a >> 125u32) == 1 && (a >> 112u32) != 0x2001 && (a >> 112u32) != 0x2002 && (a >> 112u32)
            != 0x3fff ==> ipv6_is_global(a),
{
    lemma_segments(a);
    let s0 = ((a >> 112u32) & 0xffff) as u16;
    assert((a >> 125u32) == 1 ==> 0x2000 <= s0 <= 0x3fff && s0 == (a >> 112u32) && a != 0 && a
        != 1) by (bit_vector)
        requires
            s0 == ((a >> 112u32) & 0xffff) as u16,
    ;
    assert(0x2000 <= s0 <= 0x3fff ==> (s0 & 0xfe00) != 0xfc00 && (s0 & 0xffc0) != 0xfe80)
        by (bit_vector);
}

impl Ipv6Address {
    /// Whether the address is globally reachable (see `ipv6_is_global`).
    pub fn is_global(&self) -> (r: bool)
        ensures
            r == ipv6_is_global(self.0),
    {
        let a = self.0;
        let s0 = segment_exec(a, 0);
        let s1 = segment_exec(a, 1);
        let s2 = segment_exec(a, 2);
        let s3 = segment_exec(a, 3);
        let s4 = segment_exec(a, 4);
        let s5 = segment_exec(a, 5);
        let exception = a == 0x2001_0001_0000_0000_0000_0000_0000_0001u128 || a
            == 0x2001_0001_0000_0000_0000_0000_0000_0002u128 || s1 == 3 || (s1 == 4 && s2 == 0x112)
            || (0x20 <= s1 && s1 <= 0x3f);
        let special = a == 0 || a == 1 || (s0 == 0 && s1 == 0 && s2 == 0 && s3 == 0 && s4 == 0
            && s5 == 0xffff) || (s0 == 0x64 && s1 == 0xff9b && s2 == 1) || (s0 == 0x100 && s1 == 0
            && s2 == 0 && s3 == 0) || (s0 == 0x2001 && s1 < 0x200 && !exception) || s0 == 0x2002
            || (s0 == 0x2001 && s1 == 0xdb8) || (s0 == 0x3fff && s1 <= 0x0fff) || s0 == 0x5f00 || (s0
            & 0xfe00) == 0xfc00 || (s0 & 0xffc0) == 0xfe80;
        !special
    }
}

/// The number of bytes of an interface name.
pub const INTERFACE_NAME_SIZE: usize = 16;

/// The name of a network interface, cut or padded with zero bytes to 16 bytes.
#[derive(Clone, Copy, Debug, Hash, PartialOrd, Ord)]
pub struct InterfaceName([u8; 16]);

impl View for InterfaceName {
    type V = Seq<u8>;

    closed spec fn view(&self) -> Seq<u8> {
        self.0@
    }
}

/// The 16 bytes of the interface name made from `name`: its first 16 bytes, then zeros.
pub open spec fn interface_name_bytes(name: Seq<u8>) -> Seq<u8> {
    Seq::new(16, |i: int| if i < name.len() { name[i] } else { 0u8 })
}

/// The text that `String::from_utf8_lossy` makes of `bytes`: their UTF-8 decoding, with each
/// invalid sequence replaced by U+FFFD.
pub uninterp spec fn utf8_lossy_text(bytes: Seq<u8>) -> Seq<char>;

/// `String::from_utf8_lossy`, as an owned `String`: the text of `bytes`, which is their
/// decoding where they are valid UTF-8.
#[verifier::external_body]
fn utf8_lossy(bytes: &[u8]) -> (r: String)
    ensures
        r@ == utf8_lossy_text(bytes@),
        vstd::utf8::valid_utf8(bytes@) ==> r@ == vstd::utf8::decode_utf8(bytes@),
{
    String::from_utf8_lossy(bytes).into_owned()
}

impl InterfaceName {
    /// The name as text: its 16 bytes read as UTF-8, invalid sequences replaced by U+FFFD
    /// (the zero bytes of the padding stay as NUL characters).
    pub fn to_text(&self) -> (r: String)
        ensures
            r@ == utf8_lossy_text(self@),
            vstd::utf8::valid_utf8(self@) ==> r@ == vstd::utf8::decode_utf8(self@),
    {
        utf8_lossy(self.0.as_slice())
    }

    /// The name made of the first 16 bytes of `slice`, padded with zeros where it is shorter.
    pub fn copy_from_slice(slice: &[u8]) -> (r: InterfaceName)
        ensures
            r@ == interface_name_bytes(slice@),
    {
        let mut name = [0u8; 16];
        let max = if slice.len() < INTERFACE_NAME_SIZE {
            slice.len()
        } else {
            INTERFACE_NAME_SIZE
        };
        for i in 0..max
            invariant
                max <= 16,
                max <= slice@.len(),
                forall|j: int| 0 <= j < i ==> name@[j] == slice@[j],
                forall|j: int| max <= j < 16 ==> name@[j] == 0,
        {
            name[i] = slice[i];
        }
        assert(name@ =~= interface_name_bytes(slice@));
        InterfaceName(name)
    }

    /// The name's 16 bytes.
    pub fn as_bytes(&self) -> (r: &[u8])
        ensures
            r@ == self@,
    {
        self.0.as_slice()
    }
}

impl PartialEq for InterfaceName {
    fn eq(&self, other: &InterfaceName) -> (r: bool) {
        let mut i: usize = 0;
        while i < 16
            invariant
                i <= 16,
                self@.len() == 16,
                other@.len() == 16,
                forall|j: int| 0 <= j < i ==> self@[j] == other@[j],
            decreases 16 - i,
        {
            if self.0[i] != other.0[i] {
                return false;
            }
            i = i + 1;
        }
        assert(self@ =~= other@);
        true
    }
}

impl Eq for InterfaceName {
}

impl vstd::std_specs::cmp::PartialEqSpecImpl for InterfaceName {
    open spec fn obeys_eq_spec() -> bool {
        true
    }

    open spec fn eq_spec(&self, other: &InterfaceName) -> bool {
        self@ == other@
    }
}

impl Default for InterfaceName {
    /// The all-zero name.
    fn default() -> (r: InterfaceName)
        ensures
            r@ == Seq::new(16, |i: int| 0u8),
    {
        let r = InterfaceName([0u8; 16]);
        assert(r@ =~= Seq::new(16, |i: int| 0u8));
        r
    }
}

/// An address of the local host that a socket can bind to, with its interface.
#[derive(Clone, Copy, Debug)]
pub struct LocalAddress {
    pub interface: InterfaceName,
    pub address: SocketAddressV6,
}

impl LocalAddress {
    /// The local address `address` on the interface named `interface`.
    pub fn new(interface: &[u8], address: SocketAddressV6) -> (r: LocalAddress)
        ensures
            r.interface@ == interface_name_bytes(interface@),
            r.address == address,
    {
        LocalAddress { interface: InterfaceName::copy_from_slice(interface), address }
    }
}

/// What the daemon reads of a network interface of the host.
pub struct InterfaceInfo {
    /// The interface's name.
    pub name: Vec<u8>,
    /// Whether it is a loopback interface.
    pub is_loopback: bool,
    /// Whether it is running.
    pub is_running: bool,
    /// Its addresses, in the order the host lists them; `None` where an entry has none.
    pub addresses: Vec<Option<SocketAddress>>,
}

/// Whether an interface's addresses are used: it is running and no loopback.
pub open spec fn interface_used(i: InterfaceInfo) -> bool {
    !i.is_loopback && i.is_running
}

/// Whether an address entry is used: a globally reachable IPv6 address.
pub open spec fn address_used(a: Option<SocketAddress>) -> bool {
    a matches Some(SocketAddress::V6(v6)) && ipv6_is_global(v6.ip.0)
}

/// The local addresses made of the used entries of `addresses` on the interface `name`,
/// in order.
pub open spec fn interface_local_addresses(name: Seq<u8>, addresses: Seq<Option<SocketAddress>>) -> Seq<
    (Seq<u8>, SocketAddressV6),
>
    decreases addresses.len(),
{
    if addresses.len() == 0 {
        Seq::empty()
    } else {
        let rest = interface_local_addresses(name, addresses.drop_last());
        if address_used(addresses.last()) {
            rest.push((interface_name_bytes(name), addresses.last()->Some_0->V6_0))
        } else {
            rest
        }
    }
}

/// The local addresses of the used interfaces, interface by interface, each as its
/// interface name's 16 bytes and its socket address.
pub open spec fn selected_local_addresses(interfaces: Seq<InterfaceInfo>) -> Seq<
    (Seq<u8>, SocketAddressV6),
>
    decreases interfaces.len(),
{
    if interfaces.len() == 0 {
        Seq::empty()
    } else {
        let rest = selected_local_addresses(interfaces.drop_last());
        let last = interfaces.last();
        if interface_used(last) {
            rest + interface_local_addresses(last.name@, last.addresses@)
        } else {
            rest
        }
    }
}

/// The view of a local address as its interface name's bytes and its socket address.
pub open spec fn local_address_view(a: LocalAddress) -> (Seq<u8>, SocketAddressV6) {
    (a.interface@, a.address)
}

/// The local addresses that the daemon binds to, out of the host's interfaces:
/// the globally reachable IPv6 addresses of the running interfaces that are no
/// loopback, in the order of the interfaces and of their addresses.
pub fn discover_addresses(interfaces: &Vec<InterfaceInfo>) -> (r: Vec<LocalAddress>)
    ensures
        r@.map_values(|a: LocalAddress| local_address_view(a)) == selected_local_addresses(
            interfaces@,
        ),
{
    let mut r: Vec<LocalAddress> = Vec::new();
    for k in 0..interfaces.len()
        invariant
            r@.map_values(|a: LocalAddress| local_address_view(a)) == selected_local_addresses(
                interfaces@.take(k as int),
            ),
    {
        let interface = &interfaces[k];
        proof {
            assert(interfaces@.take(k + 1).drop_last() =~= interfaces@.take(k as int));
        }
        if !interface.is_loopback && interface.is_running {
            let ghost before = r@.map_values(|a: LocalAddress| local_address_view(a));
            for j in 0..interface.addresses.len()
                invariant
                    interface == &interfaces@[k as int],
                    r@.map_values(|a: LocalAddress| local_address_view(a)) == before
                        + interface_local_addresses(
                        interface.name@,
                        interface.addresses@.take(j as int),
                    ),
            {
                proof {
                    assert(interface.addresses@.take(j + 1).drop_last() =~= interface.addresses@.take(
                        j as int,
                    ));
                }
                if let Some(SocketAddress::V6(v6)) = interface.addresses[j] {
                    if v6.ip.is_global() {
                        let ghost prev = r@;
                        r.push(LocalAddress::new(interface.name.as_slice(), v6));
                        assert(r@.map_values(|a: LocalAddress| local_address_view(a)) =~= prev.map_values(
                            |a: LocalAddress| local_address_view(a),
                        ).push(local_address_view(r@.last())));
                    }
                }
            }
            assert(interface.addresses@.take(interface.addresses@.len() as int)
                =~= interface.addresses@);
        }
    }
    assert(interfaces@.take(interfaces@.len() as int) =~= interfaces@);
    r
}

} // verus!
