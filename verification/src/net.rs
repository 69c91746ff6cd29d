//! Plain network values: addresses, endpoints and the descriptions of which
//! traffic may flow outside and inside the tunnel.

use vstd::prelude::*;
use vstd::string::StringExecFns;

verus! {

/// An IPv4 or IPv6 address, held as the number its bytes spell in network
/// order.
#[derive(Clone, Copy, Debug, PartialEq, Eq, Structural)]
pub enum IpAddress {
    V4(u32),
    V6(u128),
}

impl IpAddress {
    /// The IPv4 address `a.b.c.d`.
    pub fn v4(a: u8, b: u8, c: u8, d: u8) -> (r: IpAddress)
        ensures
            r == IpAddress::V4(ipv4_bits(a, b, c, d)),
    {
        let high: u32 = a as u32 * 0x100_0000 + b as u32 * 0x1_0000;
        let low: u32 = c as u32 * 0x100 + d as u32;
        IpAddress::V4(high + low)
    }

    pub open spec fn spec_is_ipv4(&self) -> bool {
        *self is V4
    }

    pub open spec fn spec_is_ipv6(&self) -> bool {
        *self is V6
    }

    #[verifier::when_used_as_spec(spec_is_ipv4)]
    pub fn is_ipv4(&self) -> (r: bool)
        ensures
            r == (*self is V4),
    {
        match self {
            IpAddress::V4(_) => true,
            IpAddress::V6(_) => false,
        }
    }

    #[verifier::when_used_as_spec(spec_is_ipv6)]
    pub fn is_ipv6(&self) -> (r: bool)
        ensures
            r == (*self is V6),
    {
        match self {
            IpAddress::V4(_) => false,
            IpAddress::V6(_) => true,
        }
    }

    /// The text of the address.
    pub open spec fn text(self) -> Seq<char> {
        match self {
            IpAddress::V4(bits) => ipv4_text(bits),
            IpAddress::V6(bits) => ipv6_text(bits),
        }
    }

    /// The text of the address: `a.b.c.d` for an IPv4 address, and what the
    /// standard library writes for an IPv6 address.
    pub fn describe(&self) -> (r: String)
        ensures
            r@ == self.text(),
    {
        match self {
            IpAddress::V4(bits) => {
                let bits: u32 = *bits;
                let mut text = decimal((bits / 0x100_0000) as u64);
                text.append(".");
                text.append(decimal(((bits / 0x1_0000) % 0x100) as u64).as_str());
                text.append(".");
                text.append(decimal(((bits / 0x100) % 0x100) as u64).as_str());
                text.append(".");
                text.append(decimal((bits % 0x100) as u64).as_str());
                text
            },
            IpAddress::V6(bits) => ipv6_to_string(*bits),
        }
    }
}

/// The number that the four bytes of `a.b.c.d` spell in network order.
pub open spec fn ipv4_bits(a: u8, b: u8, c: u8, d: u8) -> u32 {
    (a as int * 0x100_0000 + b as int * 0x1_0000 + c as int * 0x100 + d as int) as u32
}

/// An address together with a port.
#[derive(Clone, Copy, Debug, PartialEq, Eq, Structural)]
pub struct SocketAddress {
    pub ip: IpAddress,
    pub port: u16,
}

#[derive(Clone, Copy, Debug, PartialEq, Eq, Structural)]
pub enum TransportProtocol {
    Udp,
    Tcp,
}

/// A remote host and the transport protocol spoken with it.
#[derive(Clone, Copy, Debug, PartialEq, Eq, Structural)]
pub struct Endpoint {
    pub address: SocketAddress,
    pub protocol: TransportProtocol,
}

impl Endpoint {
    pub fn new(ip: IpAddress, port: u16, protocol: TransportProtocol) -> (r: Endpoint)
        ensures
            r == (Endpoint { address: SocketAddress { ip, port }, protocol }),
    {
        Endpoint { address: SocketAddress { ip, port }, protocol }
    }

    pub fn from_socket_address(
        address: SocketAddress,
        protocol: TransportProtocol,
    ) -> (r: Endpoint)
        ensures
            r == (Endpoint { address, protocol }),
    {
        Endpoint { address, protocol }
    }

    /// The text of the endpoint.
    pub open spec fn text(self) -> Seq<char> {
        self.address.text() + "/"@ + self.protocol.text()
    }

    /// The text of the endpoint: `address/protocol`.
    pub fn describe(&self) -> (r: String)
        ensures
            r@ == self.text(),
    {
        let mut text = self.address.describe();
        text.append("/");
        text.append(self.protocol.describe());
        text
    }
}

/// Which local clients may reach an allowed endpoint outside the tunnel.
#[derive(Clone, Copy, Debug, PartialEq, Eq, Structural)]
pub enum AllowedClients {
    /// Only processes owned by the superuser.
    Root,
    /// Any process.
    All,
}

impl AllowedClients {
    pub fn allow_all(&self) -> (r: bool)
        ensures
            r == (*self is All),
    {
        match self {
            AllowedClients::All => true,
            AllowedClients::Root => false,
        }
    }
}

/// The single remote endpoint that certain clients may reach outside the
/// tunnel.
#[derive(Clone, Copy, Debug, PartialEq, Eq, Structural)]
pub struct AllowedEndpoint {
    pub endpoint: Endpoint,
    pub clients: AllowedClients,
}

/// How much traffic may flow inside the tunnel.
#[derive(Clone, Copy, Debug, PartialEq, Eq, Structural)]
pub enum AllowedTunnelTraffic {
    /// No traffic at all.
    Nothing,
    /// Everything.
    All,
    /// Traffic to one endpoint only.
    One(Endpoint),
    /// Traffic to two endpoints only.
    Two(Endpoint, Endpoint),
}

impl AllowedTunnelTraffic {
    /// Whether traffic to `endpoint` is let through.
    pub open spec fn admits(self, endpoint: Endpoint) -> bool {
        match self {
            AllowedTunnelTraffic::Nothing => false,
            AllowedTunnelTraffic::All => true,
            AllowedTunnelTraffic::One(a) => endpoint == a,
            AllowedTunnelTraffic::Two(a, b) => endpoint == a || endpoint == b,
        }
    }

    /// Whether `self` lets through everything that `other` lets through.
    pub open spec fn at_least(self, other: AllowedTunnelTraffic) -> bool {
        forall|endpoint: Endpoint| #[trigger] other.admits(endpoint) ==> self.admits(endpoint)
    }

    pub fn all(&self) -> (r: bool)
        ensures
            r == (*self is All),
    {
        match self {
            AllowedTunnelTraffic::All => true,
            _ => false,
        }
    }

    /// The text of the allowed traffic.
    pub open spec fn text(self) -> Seq<char> {
        match self {
            AllowedTunnelTraffic::Nothing => "None"@,
            AllowedTunnelTraffic::All => "All"@,
            AllowedTunnelTraffic::One(endpoint) => endpoint.text(),
            AllowedTunnelTraffic::Two(first, second) => first.text() + ", "@ + second.text(),
        }
    }

    /// The text of the allowed traffic: `None`, `All`, or the endpoints
    /// that may be reached.
    pub fn describe(&self) -> (r: String)
        ensures
            r@ == self.text(),
    {
        match self {
            AllowedTunnelTraffic::Nothing => String::from_str("None"),
            AllowedTunnelTraffic::All => String::from_str("All"),
            AllowedTunnelTraffic::One(endpoint) => endpoint.describe(),
            AllowedTunnelTraffic::Two(first, second) => {
                let mut text = first.describe();
                text.append(", ");
                text.append(second.describe().as_str());
                text
            },
        }
    }
}

/// Which IP versions the host can currently reach the network with.
#[derive(Clone, Copy, Debug, PartialEq, Eq, Structural)]
pub enum IpAvailability {
    Ipv4,
    Ipv6,
    Ipv4AndIpv6,
}

/// What is known about the host's connection to the network.
#[derive(Clone, Copy, Debug, PartialEq, Eq, Structural)]
pub enum Connectivity {
    /// The host is online, over the given IP versions.
    Online(IpAvailability),
    /// The host is known to be offline.
    Offline,
    /// Nothing is known yet.
    Unknown,
}

impl Connectivity {
    pub open spec fn spec_availability(&self) -> Option<IpAvailability> {
        match *self {
            Connectivity::Online(availability) => Some(availability),
            _ => None,
        }
    }

    pub open spec fn spec_is_offline(&self) -> bool {
        *self is Offline
    }

    /// The IP versions available, when the host is known to be online.
    #[verifier::when_used_as_spec(spec_availability)]
    pub fn availability(&self) -> (r: Option<IpAvailability>)
        ensures
            r == self.spec_availability(),
    {
        match self {
            Connectivity::Online(availability) => Some(*availability),
            _ => None,
        }
    }

    /// Whether the host is known to be offline.
    #[verifier::when_used_as_spec(spec_is_offline)]
    pub fn is_offline(&self) -> (r: bool)
        ensures
            r == (*self is Offline),
    {
        match self {
            Connectivity::Offline => true,
            _ => false,
        }
    }
}

/// The mask that keeps the first `prefix` bits of an IPv4 address.
pub open spec fn ipv4_mask(prefix: u8) -> u32 {
    if prefix == 0 {
        0
    } else {
        u32::MAX << ((32 - prefix) as u32)
    }
}

/// The mask that keeps the first `prefix` bits of an IPv6 address.
pub open spec fn ipv6_mask(prefix: u8) -> u128 {
    if prefix == 0 {
        0
    } else {
        u128::MAX << ((128 - prefix) as u128)
    }
}

/// Whether `address` lies in the IPv4 network of `network` and `prefix`,
/// by `ipnetwork::Ipv4Network::contains` on the network that
/// `ipnetwork::Ipv4Network::new` makes of them: whether the two agree in the
/// first `prefix` bits.
#[verifier::external_body]
fn ipv4_network_contains(network: u32, prefix: u8, address: u32) -> (r: bool)
    requires
        prefix <= 32,
    ensures
        r == (address & ipv4_mask(prefix) == network & ipv4_mask(prefix)),
{
    match ipnetwork::Ipv4Network::new(network.into(), prefix) {
        Ok(net) => net.contains(address.into()),
        Err(_) => false,
    }
}

/// Whether `address` lies in the IPv6 network of `network` and `prefix`,
/// by `ipnetwork::Ipv6Network::contains` on the network that
/// `ipnetwork::Ipv6Network::new` makes of them: whether the two agree in the
/// first `prefix` bits.
#[verifier::external_body]
fn ipv6_network_contains(network: u128, prefix: u8, address: u128) -> (r: bool)
    requires
        prefix <= 128,
    ensures
        r == (address & ipv6_mask(prefix) == network & ipv6_mask(prefix)),
{
    match ipnetwork::Ipv6Network::new(network.into(), prefix) {
        Ok(net) => net.contains(address.into()),
        Err(_) => false,
    }
}

/// A network: an address and the number of its leading bits that every
/// address of the network shares.
#[derive(Clone, Copy, Debug, PartialEq, Eq)]
pub struct IpNetwork {
    ip: IpAddress,
    prefix: u8,
}

impl IpNetwork {
    #[verifier::type_invariant]
    spec fn well_formed(self) -> bool {
        self.prefix <= max_prefix(self.ip)
    }

    /// The address that the network was made of.
    pub closed spec fn spec_ip(&self) -> IpAddress {
        self.ip
    }

    /// The length of the prefix that the network was made of.
    pub closed spec fn spec_prefix(&self) -> u8 {
        self.prefix
    }

    /// Whether `address` lies in the network: it is of the same IP version
    /// and agrees with the network's address in the first `prefix` bits.
    pub open spec fn spec_contains(&self, address: IpAddress) -> bool {
        match (self.spec_ip(), address) {
            (IpAddress::V4(network), IpAddress::V4(address)) => address & ipv4_mask(
                self.spec_prefix(),
            ) == network & ipv4_mask(self.spec_prefix()),
            (IpAddress::V6(network), IpAddress::V6(address)) => address & ipv6_mask(
                self.spec_prefix(),
            ) == network & ipv6_mask(self.spec_prefix()),
            _ => false,
        }
    }

    /// The network of `ip` and `prefix`; `None` where the prefix is longer
    /// than an address of that IP version.
    pub fn new(ip: IpAddress, prefix: u8) -> (r: Option<IpNetwork>)
        ensures
            r is Some <==> prefix <= max_prefix(ip),
            r matches Some(network) ==> network.spec_ip() == ip && network.spec_prefix()
                == prefix,
    {
        let valid = match ip {
            IpAddress::V4(_) => prefix <= 32,
            IpAddress::V6(_) => prefix <= 128,
        };
        if valid {
            Some(IpNetwork { ip, prefix })
        } else {
            None
        }
    }

    #[verifier::when_used_as_spec(spec_ip)]
    pub fn ip(&self) -> (r: IpAddress)
        ensures
            r == self.spec_ip(),
    {
        self.ip
    }

    #[verifier::when_used_as_spec(spec_prefix)]
    pub fn prefix(&self) -> (r: u8)
        ensures
            r == self.spec_prefix(),
            r <= max_prefix(self.spec_ip()),
    {
        proof {
            use_type_invariant(self);
        }
        self.prefix
    }

    /// Whether `address` lies in the network.
    #[verifier::when_used_as_spec(spec_contains)]
    pub fn contains(&self, address: IpAddress) -> (r: bool)
        ensures
            r == self.spec_contains(address),
    {
        proof {
            use_type_invariant(self);
        }
        match (self.ip, address) {
            (IpAddress::V4(network), IpAddress::V4(address)) => ipv4_network_contains(
                network,
                self.prefix,
                address,
            ),
            (IpAddress::V6(network), IpAddress::V6(address)) => ipv6_network_contains(
                network,
                self.prefix,
                address,
            ),
            _ => false,
        }
    }
}

/// The number of bits of an address of the IP version of `ip`.
pub open spec fn max_prefix(ip: IpAddress) -> u8 {
    match ip {
        IpAddress::V4(_) => 32,
        IpAddress::V6(_) => 128,
    }
}

/// The networks that count as local: the private IPv4 networks
/// `10.0.0.0/8`, `172.16.0.0/12` and `192.168.0.0/16`, the link-local
/// networks `169.254.0.0/16` and `fe80::/10`, and the unique local network
/// `fc00::/7`.
pub open spec fn allowed_lan_nets() -> Seq<(IpAddress, u8)> {
    seq![
        (IpAddress::V4(0x0a00_0000), 8u8),
        (IpAddress::V4(0xac10_0000), 12u8),
        (IpAddress::V4(0xc0a8_0000), 16u8),
        (IpAddress::V4(0xa9fe_0000), 16u8),
        (IpAddress::V6(0xfe80_0000_0000_0000_0000_0000_0000_0000), 10u8),
        (IpAddress::V6(0xfc00_0000_0000_0000_0000_0000_0000_0000), 7u8),
    ]
}

/// The loopback networks `127.0.0.0/8` and `::1/128`.
pub open spec fn loopback_nets() -> Seq<(IpAddress, u8)> {
    seq![(IpAddress::V4(0x7f00_0000), 8u8), (IpAddress::V6(1), 128u8)]
}

/// Whether the two describe the same networks, one by one.
pub open spec fn same_networks(networks: Seq<IpNetwork>, described: Seq<(IpAddress, u8)>) -> bool {
    &&& networks.len() == described.len()
    &&& forall|i: int|
        0 <= i < networks.len() ==> (#[trigger] networks[i]).spec_ip() == described[i].0
            && networks[i].spec_prefix() == described[i].1
}

/// One network of a list that is written down in this file.
fn network(ip: IpAddress, prefix: u8) -> (r: IpNetwork)
    requires
        prefix <= max_prefix(ip),
    ensures
        r.spec_ip() == ip,
        r.spec_prefix() == prefix,
{
    IpNetwork { ip, prefix }
}

/// The networks that count as local.
pub fn get_allowed_lan_nets() -> (r: Vec<IpNetwork>)
    ensures
        same_networks(r@, allowed_lan_nets()),
{
    let mut networks: Vec<IpNetwork> = Vec::new();
    networks.push(network(IpAddress::V4(0x0a00_0000), 8));
    networks.push(network(IpAddress::V4(0xac10_0000), 12));
    networks.push(network(IpAddress::V4(0xc0a8_0000), 16));
    networks.push(network(IpAddress::V4(0xa9fe_0000), 16));
    networks.push(network(IpAddress::V6(0xfe80_0000_0000_0000_0000_0000_0000_0000), 10));
    networks.push(network(IpAddress::V6(0xfc00_0000_0000_0000_0000_0000_0000_0000), 7));
    networks
}

/// The loopback networks.
pub fn get_loopback_nets() -> (r: Vec<IpNetwork>)
    ensures
        same_networks(r@, loopback_nets()),
{
    let mut networks: Vec<IpNetwork> = Vec::new();
    networks.push(network(IpAddress::V4(0x7f00_0000), 8));
    networks.push(network(IpAddress::V6(1), 128));
    networks
}

/// Whether one of `networks` holds `address`.
pub open spec fn any_contains(networks: Seq<IpNetwork>, address: IpAddress) -> bool {
    exists|i: int| 0 <= i < networks.len() && (#[trigger] networks[i]).spec_contains(address)
}

/// Whether one of `networks` holds `address`.
pub fn contained_in_any(networks: &Vec<IpNetwork>, address: IpAddress) -> (r: bool)
    ensures
        r == any_contains(networks@, address),
{
    let mut i: usize = 0;
    while i < networks.len()
        invariant
            i <= networks.len(),
            forall|j: int| 0 <= j < i ==> !(#[trigger] networks@[j]).spec_contains(address),
        decreases networks.len() - i,
    {
        if networks[i].contains(address) {
            return true;
        }
        i += 1;
    }
    false
}

/// The character of a decimal digit.
pub open spec fn digit_char(digit: nat) -> char {
    if digit == 0 {
        '0'
    } else if digit == 1 {
        '1'
    } else if digit == 2 {
        '2'
    } else if digit == 3 {
        '3'
    } else if digit == 4 {
        '4'
    } else if digit == 5 {
        '5'
    } else if digit == 6 {
        '6'
    } else if digit == 7 {
        '7'
    } else if digit == 8 {
        '8'
    } else {
        '9'
    }
}

/// The decimal numeral of `n`, without leading zeros.
pub open spec fn decimal_text(n: nat) -> Seq<char>
    decreases n,
{
    if n < 10 {
        seq![digit_char(n)]
    } else {
        decimal_text(n / 10).push(digit_char(n % 10))
    }
}

/// The text of a decimal digit.
fn digit_str(digit: u64) -> (r: &'static str)
    requires
        digit < 10,
    ensures
        r@ == seq![digit_char(digit as nat)],
{
    proof {
        reveal_strlit("0");
        reveal_strlit("1");
        reveal_strlit("2");
        reveal_strlit("3");
        reveal_strlit("4");
        reveal_strlit("5");
        reveal_strlit("6");
        reveal_strlit("7");
        reveal_strlit("8");
        reveal_strlit("9");
    }
    let text = if digit == 0 {
        "0"
    } else if digit == 1 {
        "1"
    } else if digit == 2 {
        "2"
    } else if digit == 3 {
        "3"
    } else if digit == 4 {
        "4"
    } else if digit == 5 {
        "5"
    } else if digit == 6 {
        "6"
    } else if digit == 7 {
        "7"
    } else if digit == 8 {
        "8"
    } else {
        "9"
    };
    assert(text@ =~= seq![digit_char(digit as nat)]);
    text
}

/// The decimal numeral of `n`, without leading zeros.
pub fn decimal(n: u64) -> (r: String)
    ensures
        r@ == decimal_text(n as nat),
    decreases n,
{
    if n < 10 {
        String::from_str(digit_str(n))
    } else {
        let mut text = decimal(n / 10);
        text.append(digit_str(n % 10));
        assert(text@ =~= decimal_text((n / 10) as nat).push(digit_char((n % 10) as nat)));
        text
    }
}

/// What the standard library writes for the IPv6 address whose bytes spell
/// `bits` in network order.
pub uninterp spec fn ipv6_text(bits: u128) -> Seq<char>;

/// The text of the IPv6 address whose bytes spell `bits`: the address is
/// made with `ipnetwork::Ipv6Network::new` and read back with
/// `ipnetwork::Ipv6Network::ip`, and written as the standard library writes
/// such an address, which depends on the address alone.
#[verifier::external_body]
fn ipv6_to_string(bits: u128) -> (r: String)
    ensures
        r@ == ipv6_text(bits),
{
    match ipnetwork::Ipv6Network::new(bits.into(), 128) {
        Ok(net) => net.ip().to_string(),
        Err(_) => String::new(),
    }
}

/// The text `a.b.c.d` of the IPv4 address whose bytes spell `bits`.
pub open spec fn ipv4_text(bits: u32) -> Seq<char> {
    decimal_text((bits / 0x100_0000) as nat) + "."@ + decimal_text(
        ((bits / 0x1_0000) % 0x100) as nat,
    ) + "."@ + decimal_text(((bits / 0x100) % 0x100) as nat) + "."@ + decimal_text(
        (bits % 0x100) as nat,
    )
}

impl SocketAddress {
    /// The text of the address.
    pub open spec fn text(self) -> Seq<char> {
        match self.ip {
            IpAddress::V4(_) => self.ip.text() + ":"@ + decimal_text(self.port as nat),
            IpAddress::V6(_) => "["@ + self.ip.text() + "]:"@ + decimal_text(self.port as nat),
        }
    }

    /// The text of the address: `ip:port`, with the address in square
    /// brackets where it is an IPv6 address.
    pub fn describe(&self) -> (r: String)
        ensures
            r@ == self.text(),
    {
        match self.ip {
            IpAddress::V4(_) => {
                let mut text = self.ip.describe();
                text.append(":");
                text.append(decimal(self.port as u64).as_str());
                text
            },
            IpAddress::V6(_) => {
                let mut text = String::from_str("[");
                text.append(self.ip.describe().as_str());
                text.append("]:");
                text.append(decimal(self.port as u64).as_str());
                text
            },
        }
    }
}

impl TransportProtocol {
    /// The text of the protocol.
    pub open spec fn text(self) -> Seq<char> {
        match self {
            TransportProtocol::Udp => "UDP"@,
            TransportProtocol::Tcp => "TCP"@,
        }
    }

    /// The text of the protocol: `UDP` or `TCP`.
    pub fn describe(&self) -> (r: &'static str)
        ensures
            r@ == self.text(),
    {
        match self {
            TransportProtocol::Udp => "UDP",
            TransportProtocol::Tcp => "TCP",
        }
    }
}

impl AllowedEndpoint {
    /// The text of the allowed endpoint.
    pub open spec fn text(self) -> Seq<char> {
        self.endpoint.text()
    }

    /// The text of the allowed endpoint, which is that of its endpoint.
    pub fn describe(&self) -> (r: String)
        ensures
            r@ == self.text(),
    {
        self.endpoint.describe()
    }
}

/// The texts of the addresses, separated by commas.
pub open spec fn addresses_text(addresses: Seq<IpAddress>) -> Seq<char>
    decreases addresses.len(),
{
    if addresses.len() == 0 {
        Seq::empty()
    } else if addresses.len() == 1 {
        addresses[0].text()
    } else {
        addresses_text(addresses.drop_last()) + ","@ + addresses.last().text()
    }
}

/// The texts of the addresses, separated by commas.
pub fn describe_addresses(addresses: &Vec<IpAddress>) -> (r: String)
    ensures
        r@ == addresses_text(addresses@),
{
    let mut text = String::new();
    let mut i: usize = 0;
    while i < addresses.len()
        invariant
            i <= addresses.len(),
            text@ == addresses_text(addresses@.take(i as int)),
        decreases addresses.len() - i,
    {
        proof {
            let next = addresses@.take(i + 1);
            assert(next.drop_last() == addresses@.take(i as int));
            assert(next.last() == addresses@[i as int]);
        }
        if i > 0 {
            text.append(",");
            text.append(addresses[i].describe().as_str());
        } else {
            text.append(addresses[i].describe().as_str());
            assert(text@ == addresses@[0].text());
        }
        i += 1;
    }
    assert(addresses@.take(addresses.len() as int) == addresses@);
    text
}

} // verus!
