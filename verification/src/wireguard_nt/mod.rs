//! The configuration that the WireGuard kernel driver takes and gives: its
//! interface, peer and allowed-IP records, what is written for them and
//! what is read from them.

pub mod bytes;
pub mod deserialize;
pub mod round_trip;
pub mod serialize;

pub use self::deserialize::deserialize_config;
pub use self::serialize::serialize_config;

use crate::boringtun::Stats;
use crate::net::{IpAddress, SocketAddress};
use crate::tcpip::IoError;
use crate::tunnel::WireguardError;
use vstd::prelude::*;
use vstd::std_specs::cmp::PartialEqSpecImpl;
use vstd::string::StringExecFns;

verus! {


/// The address family of IPv4.
pub const AF_INET: u16 = 2;

/// The address family of IPv6.
pub const AF_INET6: u16 = 23;

/// The interface record holds a public key.
pub const WG_INTERFACE_HAS_PUBLIC_KEY: u32 = 0b0000_0001;

/// The interface record holds a private key.
pub const WG_INTERFACE_HAS_PRIVATE_KEY: u32 = 0b0000_0010;

/// The interface record holds a port to listen on.
pub const WG_INTERFACE_HAS_LISTEN_PORT: u32 = 0b0000_0100;

/// The peers that follow take the place of all the peers before.
pub const WG_INTERFACE_REPLACE_PEERS: u32 = 0b0000_1000;

/// The peer record holds a public key.
pub const WG_PEER_HAS_PUBLIC_KEY: u32 = 0b0000_0001;

/// The peer record holds a pre-shared key.
pub const WG_PEER_HAS_PRESHARED_KEY: u32 = 0b0000_0010;

/// The peer record holds a keep-alive interval.
pub const WG_PEER_HAS_PERSISTENT_KEEPALIVE: u32 = 0b0000_0100;

/// The peer record holds an endpoint.
pub const WG_PEER_HAS_ENDPOINT: u32 = 0b0000_1000;

/// The allowed IPs that follow take the place of all those before.
pub const WG_PEER_REPLACE_ALLOWED_IPS: u32 = 0b0010_0000;

/// The peer is to be removed.
pub const WG_PEER_REMOVE: u32 = 0b0100_0000;

/// The peer is to be updated only, not added.
pub const WG_PEER_UPDATE: u32 = 0b1000_0000;

/// The peer record says whether packets are all made the same size.
pub const WG_PEER_HAS_CONSTANT_PACKET_SIZE: u32 = 0b1_0000_0000;

/// The number of bytes of an interface record.
pub const WG_INTERFACE_SIZE: usize = 80;

/// The number of bytes of a peer record.
pub const WG_PEER_SIZE: usize = 136;

/// The number of bytes of an allowed-IP record.
pub const WG_ALLOWED_IP_SIZE: usize = 24;

/// The number of bytes of a socket address.
pub const SOCKADDR_INET_SIZE: usize = 28;

/// The system's error code for a buffer that was too small.
pub const ERROR_MORE_DATA: i32 = 234;

/// Errors of the WireGuard kernel driver and of what is handed to it.
#[derive(Clone, Copy, Debug, PartialEq, Eq, Structural)]
pub enum Error {
    /// Failed to load WireGuardNT
    LoadDll(IoError),
    /// Failed to create tunnel interface
    CreateTunnelDevice(IoError),
    /// Failed to obtain tunnel interface alias
    ObtainAlias(IoError),
    /// Failed to get WireGuard tunnel config for device
    GetWireGuardConfig(IoError),
    /// Failed to set WireGuard tunnel config on device
    SetWireGuardConfig(IoError),
    /// Error listening to tunnel IP interfaces
    IpInterfaces(IoError),
    /// Failed to set MTU and metric on tunnel device
    SetTunnelMtu(IoError),
    /// Failed to set the tunnel state to up
    EnableTunnel(IoError),
    /// Unknown address family
    UnknownAddressFamily(u16),
    /// Failure to set up logging
    InitLogging,
    /// Invalid allowed IP
    InvalidAllowedIpCidr,
    /// Allowed IP contains non-zero host bits
    InvalidAllowedIpBits,
    /// Failed to parse data returned by the driver
    InvalidConfigData,
    /// Failed to enable DAITA on the tunnel device
    EnableTunnelDaita(IoError),
    /// Failed to initialize the DAITA machinist
    InitializeMachinist,
}

/// The bits of an IPv4 address below a prefix of `cidr` bits.
pub open spec fn ipv4_host_mask(cidr: u8) -> u32 {
    if cidr >= 32 {
        0
    } else {
        u32::MAX >> (cidr as u32)
    }
}

/// The bits of an IPv6 address below a prefix of `cidr` bits.
pub open spec fn ipv6_host_mask(cidr: u8) -> u128 {
    if cidr >= 128 {
        0
    } else {
        u128::MAX >> (cidr as u128)
    }
}

/// The address of an allowed IP: sixteen bytes, of which an IPv4 address
/// takes the first four.
#[derive(Clone, Copy, Debug, PartialEq, Eq, Structural)]
pub struct WgIpAddr {
    /// The number that the sixteen bytes spell in network order.
    pub bits: u128,
}

impl WgIpAddr {
    /// The number that the first four bytes spell in network order.
    pub open spec fn spec_v4(&self) -> u32 {
        (self.bits >> 96) as u32
    }

    /// The number that the first four bytes spell in network order.
    #[verifier::when_used_as_spec(spec_v4)]
    pub fn v4(&self) -> (r: u32)
        ensures
            r == self.spec_v4(),
    {
        let bits: u128 = self.bits;
        assert(bits >> 96 <= 0xffff_ffff) by (bit_vector);
        (bits >> 96) as u32
    }

    /// The address that holds `address`.
    pub open spec fn of(address: IpAddress) -> WgIpAddr {
        match address {
            IpAddress::V4(bits) => WgIpAddr { bits: (bits as u128) << 96 },
            IpAddress::V6(bits) => WgIpAddr { bits },
        }
    }

    /// The address that holds `address`.
    pub fn from(address: IpAddress) -> (r: WgIpAddr)
        ensures
            r == WgIpAddr::of(address),
            address matches IpAddress::V4(bits) ==> r.spec_v4() == bits,
    {
        match address {
            IpAddress::V4(bits) => {
                let wide: u128 = bits as u128;
                assert(((wide << 96) >> 96) as u32 == bits) by (bit_vector)
                    requires
                        wide == bits as u128,
                ;
                WgIpAddr { bits: wide << 96 }
            },
            IpAddress::V6(bits) => WgIpAddr { bits },
        }
    }
}

/// A network that may be routed to a peer, as the driver takes it.
#[derive(Clone, Copy, Debug, Eq)]
pub struct WgAllowedIp {
    address: WgIpAddr,
    address_family: u16,
    cidr: u8,
}

/// The mathematical value of a [`WgAllowedIp`].
pub ghost struct WgAllowedIpView {
    pub address: WgIpAddr,
    pub address_family: u16,
    pub cidr: u8,
}

impl View for WgAllowedIp {
    type V = WgAllowedIpView;

    closed spec fn view(&self) -> WgAllowedIpView {
        WgAllowedIpView {
            address: self.address,
            address_family: self.address_family,
            cidr: self.cidr,
        }
    }
}

/// Why an address, an address family and a prefix make no allowed IP, if
/// they make none: the family is neither that of IPv4 nor that of IPv6; or
/// the prefix is longer than an address of the family; or the address has
/// a bit set below the prefix.
pub open spec fn allowed_ip_fault(address: WgIpAddr, address_family: u16, cidr: u8) -> Option<
    Error,
> {
    if address_family == AF_INET {
        if cidr > 32 {
            Some(Error::InvalidAllowedIpCidr)
        } else if ipv4_host_mask(cidr) & address.spec_v4() != 0 {
            Some(Error::InvalidAllowedIpBits)
        } else {
            None
        }
    } else if address_family == AF_INET6 {
        if cidr > 128 {
            Some(Error::InvalidAllowedIpCidr)
        } else if ipv6_host_mask(cidr) & address.bits != 0 {
            Some(Error::InvalidAllowedIpBits)
        } else {
            None
        }
    } else {
        Some(Error::UnknownAddressFamily(address_family))
    }
}

impl WgAllowedIp {
    #[verifier::type_invariant]
    spec fn well_formed(self) -> bool {
        allowed_ip_fault(self.address, self.address_family, self.cidr) is None
    }

    /// The allowed IP of the address, the address family and the prefix, or
    /// why they make none.
    pub fn new(address: WgIpAddr, address_family: u16, cidr: u8) -> (r: Result<
        WgAllowedIp,
        Error,
    >)
        ensures
            match r {
                Ok(allowed_ip) => {
                    &&& allowed_ip_fault(address, address_family, cidr) is None
                    &&& allowed_ip@ == (WgAllowedIpView { address, address_family, cidr })
                },
                Err(error) => allowed_ip_fault(address, address_family, cidr) == Some(error),
            },
    {
        match Self::validate(&address, address_family, cidr) {
            Ok(_) => Ok(WgAllowedIp { address, address_family, cidr }),
            Err(error) => Err(error),
        }
    }

    /// Checks that the address, the address family and the prefix make an
    /// allowed IP.
    pub fn validate(address: &WgIpAddr, address_family: u16, cidr: u8) -> (r: Result<(), Error>)
        ensures
            match r {
                Ok(_) => allowed_ip_fault(*address, address_family, cidr) is None,
                Err(error) => allowed_ip_fault(*address, address_family, cidr) == Some(error),
            },
    {
        if address_family == AF_INET {
            if cidr > 32 {
                return Err(Error::InvalidAllowedIpCidr);
            }
            let host_mask: u32 = if cidr >= 32 {
                0
            } else {
                u32::MAX >> (cidr as u32)
            };
            if host_mask & address.v4() != 0 {
                return Err(Error::InvalidAllowedIpBits);
            }
        } else if address_family == AF_INET6 {
            if cidr > 128 {
                return Err(Error::InvalidAllowedIpCidr);
            }
            let host_mask: u128 = if cidr >= 128 {
                0
            } else {
                u128::MAX >> (cidr as u128)
            };
            if host_mask & address.bits != 0 {
                return Err(Error::InvalidAllowedIpBits);
            }
        } else {
            return Err(Error::UnknownAddressFamily(address_family));
        }
        Ok(())
    }

    pub fn address(&self) -> (r: WgIpAddr)
        ensures
            r == self@.address,
    {
        self.address
    }

    pub fn address_family(&self) -> (r: u16)
        ensures
            r == self@.address_family,
    {
        self.address_family
    }

    pub fn cidr(&self) -> (r: u8)
        ensures
            r == self@.cidr,
    {
        self.cidr
    }
}

/// The address of a peer's endpoint, as the driver takes it.
#[allow(inconsistent_fields)]
#[derive(Clone, Copy, Debug, PartialEq, Eq, Structural)]
pub enum SockAddrInet {
    V4 { address: u32, port: u16 },
    V6 { address: u128, port: u16, flowinfo: u32, scope_id: u32 },
}

impl SockAddrInet {
    /// The socket address of `address`, without flow information and without
    /// a scope.
    pub open spec fn of(address: SocketAddress) -> SockAddrInet {
        match address.ip {
            IpAddress::V4(bits) => SockAddrInet::V4 { address: bits, port: address.port },
            IpAddress::V6(bits) => SockAddrInet::V6 {
                address: bits,
                port: address.port,
                flowinfo: 0,
                scope_id: 0,
            },
        }
    }

    /// The socket address of `address`, without flow information and without
    /// a scope.
    pub fn from(address: SocketAddress) -> (r: SockAddrInet)
        ensures
            r == SockAddrInet::of(address),
    {
        match address.ip {
            IpAddress::V4(bits) => SockAddrInet::V4 { address: bits, port: address.port },
            IpAddress::V6(bits) => SockAddrInet::V6 {
                address: bits,
                port: address.port,
                flowinfo: 0,
                scope_id: 0,
            },
        }
    }
}

/// The record of an interface, as the driver takes and gives it.
#[derive(Clone, Copy, Debug, PartialEq, Eq)]
pub struct WgInterface {
    pub flags: u32,
    pub listen_port: u16,
    pub private_key: [u8; 32],
    pub public_key: [u8; 32],
    pub peers_count: u32,
}

/// The record of a peer, as the driver takes and gives it.
#[derive(Clone, Copy, Debug, PartialEq, Eq)]
pub struct WgPeer {
    pub flags: u32,
    pub reserved: u32,
    pub public_key: [u8; 32],
    pub preshared_key: [u8; 32],
    pub persistent_keepalive: u16,
    pub endpoint: SockAddrInet,
    pub tx_bytes: u64,
    pub rx_bytes: u64,
    pub last_handshake: u64,
    pub allowed_ips_count: u32,
    pub constant_packet_size: u8,
}

impl WgAllowedIpView {
    /// Whether two allowed IPs are the same network as far as the family of
    /// the first one looks: the prefixes are equal, and so are the first
    /// four bytes of the addresses for IPv4, and all their bytes else.
    pub open spec fn same_network(self, other: WgAllowedIpView) -> bool {
        self.cidr == other.cidr && if self.address_family == AF_INET {
            self.address.spec_v4() == other.address.spec_v4()
        } else {
            self.address.bits == other.address.bits
        }
    }
}

/// The mathematical value of a [`WgInterface`].
pub ghost struct WgInterfaceView {
    pub flags: u32,
    pub listen_port: u16,
    pub private_key: Seq<u8>,
    pub public_key: Seq<u8>,
    pub peers_count: u32,
}

impl View for WgInterface {
    type V = WgInterfaceView;

    open spec fn view(&self) -> WgInterfaceView {
        WgInterfaceView {
            flags: self.flags,
            listen_port: self.listen_port,
            private_key: self.private_key@,
            public_key: self.public_key@,
            peers_count: self.peers_count,
        }
    }
}

/// The mathematical value of a [`WgPeer`].
pub ghost struct WgPeerView {
    pub flags: u32,
    pub reserved: u32,
    pub public_key: Seq<u8>,
    pub preshared_key: Seq<u8>,
    pub persistent_keepalive: u16,
    pub endpoint: SockAddrInet,
    pub tx_bytes: u64,
    pub rx_bytes: u64,
    pub last_handshake: u64,
    pub allowed_ips_count: u32,
    pub constant_packet_size: u8,
}

impl View for WgPeer {
    type V = WgPeerView;

    open spec fn view(&self) -> WgPeerView {
        WgPeerView {
            flags: self.flags,
            reserved: self.reserved,
            public_key: self.public_key@,
            preshared_key: self.preshared_key@,
            persistent_keepalive: self.persistent_keepalive,
            endpoint: self.endpoint,
            tx_bytes: self.tx_bytes,
            rx_bytes: self.rx_bytes,
            last_handshake: self.last_handshake,
            allowed_ips_count: self.allowed_ips_count,
            constant_packet_size: self.constant_packet_size,
        }
    }
}

impl PartialEq for WgAllowedIp {
    fn eq(&self, other: &Self) -> (r: bool) {
        if self.cidr != other.cidr {
            return false;
        }
        if self.address_family == AF_INET {
            self.address.v4() == other.address.v4()
        } else {
            self.address.bits == other.address.bits
        }
    }
}

impl PartialEqSpecImpl for WgAllowedIp {
    open spec fn obeys_eq_spec() -> bool {
        true
    }

    open spec fn eq_spec(&self, other: &Self) -> bool {
        self@.same_network(other@)
    }
}

/// The error of the tunnel for a failure to start it: a device that could
/// not be created is told apart, since creating it may be tried again.
pub fn start_tunnel(error: Error) -> (r: WireguardError)
    ensures
        r == match error {
            Error::CreateTunnelDevice(error) => WireguardError::SetupTunnelDevice(error.code),
            _ => WireguardError::FatalStartWireguardError,
        },
{
    match error {
        Error::CreateTunnelDevice(error) => WireguardError::SetupTunnelDevice(error.code),
        _ => WireguardError::FatalStartWireguardError,
    }
}

/// What follows a call for the configuration of the device.
#[derive(Clone, Copy, Debug, PartialEq, Eq, Structural)]
pub enum GetConfigStep {
    /// The buffer holds the configuration.
    Done,
    /// Call again with a buffer of this size.
    Resize(usize),
    /// Give up.
    Fail(IoError),
}

/// What follows a call for the configuration of the device: `failure` is
/// the failure of the call, if it failed, and `config_size` is the size
/// that the driver asks for. A call fails for good unless the driver says
/// that there is more data than the buffer holds.
pub fn get_config(failure: Option<IoError>, config_size: u32) -> (r: GetConfigStep)
    ensures
        r == match failure {
            None => GetConfigStep::Done,
            Some(error) => if error.code == Some(ERROR_MORE_DATA) {
                GetConfigStep::Resize(config_size as usize)
            } else {
                GetConfigStep::Fail(error)
            },
        },
{
    match failure {
        None => GetConfigStep::Done,
        Some(error) => {
            let more = match error.code {
                Some(code) => code == ERROR_MORE_DATA,
                None => false,
            };
            if more {
                GetConfigStep::Resize(config_size as usize)
            } else {
                GetConfigStep::Fail(error)
            }
        },
    }
}

/// The traffic counters of every peer, by its public key, in the order of
/// the peers.
pub fn get_tunnel_stats(peers: &Vec<(WgPeer, Vec<WgAllowedIp>)>) -> (r: Vec<([u8; 32], Stats)>)
    ensures
        r@.len() == peers@.len(),
        forall|i: int|
            0 <= i < r@.len() ==> (#[trigger] r@[i]).0 == peers@[i].0.public_key && r@[i].1 == (
            Stats { tx_bytes: peers@[i].0.tx_bytes, rx_bytes: peers@[i].0.rx_bytes }),
{
    let mut stats: Vec<([u8; 32], Stats)> = Vec::new();
    let mut i: usize = 0;
    while i < peers.len()
        invariant
            i <= peers.len(),
            stats@.len() == i,
            forall|j: int|
                0 <= j < i ==> (#[trigger] stats@[j]).0 == peers@[j].0.public_key && stats@[j].1
                    == (Stats {
                    tx_bytes: peers@[j].0.tx_bytes,
                    rx_bytes: peers@[j].0.rx_bytes,
                }),
        decreases peers.len() - i,
    {
        let peer = &peers[i].0;
        stats.push(
            (peer.public_key, Stats { tx_bytes: peer.tx_bytes, rx_bytes: peer.rx_bytes }),
        );
        i += 1;
    }
    stats
}

/// How grave a message of the driver is, as the driver says it.
#[derive(Clone, Copy, Debug, PartialEq, Eq, Structural)]
pub enum LogLevel {
    Info,
    Warn,
    Error,
}

/// How grave a message is, as the log takes it.
#[derive(Clone, Copy, Debug, PartialEq, Eq, Structural)]
pub enum LoggingLevel {
    Verbose,
    Info,
    Warning,
    Error,
}

impl LogLevel {
    /// The level at which the log takes a message of this level.
    pub fn logging_level(self) -> (r: LoggingLevel)
        ensures
            r == match self {
                LogLevel::Info => LoggingLevel::Info,
                LogLevel::Warn => LoggingLevel::Warning,
                LogLevel::Error => LoggingLevel::Error,
            },
    {
        match self {
            LogLevel::Info => LoggingLevel::Info,
            LogLevel::Warn => LoggingLevel::Warning,
            LogLevel::Error => LoggingLevel::Error,
        }
    }
}

/// The one log context that messages of the driver go to, since the driver
/// names none with its messages.
#[derive(Clone, Copy, Debug, PartialEq, Eq, Structural)]
pub struct LogContext {
    pub current: Option<u64>,
}

impl LogContext {
    /// Makes `context` the one that messages go to.
    pub fn attach(&mut self, context: u64)
        ensures
            final(self).current == Some(context),
    {
        self.current = Some(context);
    }

    /// Lets go of `context`, and says whether the driver is to be told to
    /// stop logging: it is where `context` was the one that messages went
    /// to, and another context stays untouched.
    pub fn detach(&mut self, context: u64) -> (stop: bool)
        ensures
            stop == (old(self).current == Some(context)),
            final(self).current == if stop {
                None
            }

     else {
                old(self).current
            },
    {
        match self.current {
            Some(current) => {
                if current == context {
                    self.current = None;
                    true
                } else {
                    false
                }
            },
            None => false,
        }
    }

    /// The context that a message goes to and the line that is written for
    /// it: the message followed by a line break. `None` where there is no
    /// message or no context.
    pub fn logging_callback(&self, message: Option<&str>) -> (r: Option<(u64, String)>)
        ensures
            match (message, self.current) {
                (Some(message), Some(context)) => r matches Some((to, line)) && to == context
                    && line@ == message@ + "\r\n"@,
                _ => r is None,
            },
    {
        let message = match message {
            Some(message) => message,
            None => {
                return None;
            },
        };
        match self.current {
            Some(context) => {
                let mut line = String::from_str(message);
                line.append("\r\n");
                Some((context, line))
            },
            None => None,
        }
    }
}

} // verus!
