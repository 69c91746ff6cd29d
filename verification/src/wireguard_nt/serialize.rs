//! What is written for a configuration: the bytes of its records, one
//! after the other.

use super::bytes::{
    be128, be16, be32, push_all, push_key, push_reversed, push_zeros, zero_key, zeros,
};
use super::{
    allowed_ip_fault, Error, SockAddrInet, WgAllowedIp, WgAllowedIpView, WgInterface,
    WgIpAddr, WgPeer, AF_INET, AF_INET6, WG_INTERFACE_HAS_PRIVATE_KEY,
    WG_INTERFACE_REPLACE_PEERS, WG_PEER_HAS_CONSTANT_PACKET_SIZE, WG_PEER_HAS_ENDPOINT,
    WG_PEER_HAS_PRESHARED_KEY, WG_PEER_HAS_PUBLIC_KEY,
};
use crate::net::{IpAddress, IpNetwork};
use crate::wireguard_config::{Config, PeerConfig};
use vstd::bytes::{
    spec_u16_to_le_bytes, spec_u32_to_le_bytes, spec_u64_to_le_bytes, u128_to_le_bytes,
    u16_to_le_bytes, u32_to_le_bytes, u64_to_le_bytes,
};
use vstd::prelude::*;

verus! {


impl WgAllowedIp {
    /// Adds the bytes of the record to the end of `buffer`.
    pub fn encode(&self, buffer: &mut Vec<u8>)
        ensures
            final(buffer)@ == old(buffer)@ + self@.bytes(),
    {
        push_reversed(buffer, &u128_to_le_bytes(self.address().bits));
        push_all(buffer, &u16_to_le_bytes(self.address_family()));
        buffer.push(self.cidr());
        push_zeros(buffer, 5);
        assert(buffer@ =~= old(buffer)@ + self@.bytes());
    }
}

impl SockAddrInet {
    /// The 28 bytes of the address: the family, the port in network order,
    /// then for IPv4 the address and zeros, and for IPv6 the flow
    /// information, the address and the scope.
    pub open spec fn bytes(self) -> Seq<u8> {
        match self {
            SockAddrInet::V4 { address, port } => spec_u16_to_le_bytes(AF_INET) + be16(port)
                + be32(address) + zeros(20),
            SockAddrInet::V6 { address, port, flowinfo, scope_id } => spec_u16_to_le_bytes(
                AF_INET6,
            ) + be16(port) + spec_u32_to_le_bytes(flowinfo) + be128(address)
                + spec_u32_to_le_bytes(scope_id),
        }
    }

    /// Adds the bytes of the address to the end of `buffer`.
    pub fn encode(&self, buffer: &mut Vec<u8>)
        ensures
            final(buffer)@ == old(buffer)@ + self.bytes(),
    {
        match self {
            SockAddrInet::V4 { address, port } => {
                push_all(buffer, &u16_to_le_bytes(AF_INET));
                push_reversed(buffer, &u16_to_le_bytes(*port));
                push_reversed(buffer, &u32_to_le_bytes(*address));
                push_zeros(buffer, 20);
            },
            SockAddrInet::V6 { address, port, flowinfo, scope_id } => {
                push_all(buffer, &u16_to_le_bytes(AF_INET6));
                push_reversed(buffer, &u16_to_le_bytes(*port));
                push_all(buffer, &u32_to_le_bytes(*flowinfo));
                push_reversed(buffer, &u128_to_le_bytes(*address));
                push_all(buffer, &u32_to_le_bytes(*scope_id));
            },
        }
        assert(buffer@ =~= old(buffer)@ + self.bytes());
    }
}

impl WgInterface {
    /// The 80 bytes of the record.
    pub open spec fn bytes(self) -> Seq<u8> {
        spec_u32_to_le_bytes(self.flags) + spec_u16_to_le_bytes(self.listen_port)
            + self.private_key@ + self.public_key@ + zeros(2) + spec_u32_to_le_bytes(
            self.peers_count,
        ) + zeros(4)
    }

    /// Adds the bytes of the record to the end of `buffer`.
    pub fn encode(&self, buffer: &mut Vec<u8>)
        ensures
            final(buffer)@ == old(buffer)@ + self.bytes(),
    {
        push_all(buffer, &u32_to_le_bytes(self.flags));
        push_all(buffer, &u16_to_le_bytes(self.listen_port));
        push_key(buffer, &self.private_key);
        push_key(buffer, &self.public_key);
        push_zeros(buffer, 2);
        push_all(buffer, &u32_to_le_bytes(self.peers_count));
        push_zeros(buffer, 4);
        assert(buffer@ =~= old(buffer)@ + self.bytes());
    }
}

impl WgPeer {
    /// The 136 bytes of the record.
    pub open spec fn bytes(self) -> Seq<u8> {
        spec_u32_to_le_bytes(self.flags) + spec_u32_to_le_bytes(self.reserved)
            + self.public_key@ + self.preshared_key@ + spec_u16_to_le_bytes(
            self.persistent_keepalive,
        ) + zeros(2) + self.endpoint.bytes() + spec_u64_to_le_bytes(self.tx_bytes)
            + spec_u64_to_le_bytes(self.rx_bytes) + spec_u64_to_le_bytes(self.last_handshake)
            + spec_u32_to_le_bytes(self.allowed_ips_count) + seq![self.constant_packet_size]
            + zeros(3)
    }

    /// Adds the bytes of the record to the end of `buffer`.
    pub fn encode(&self, buffer: &mut Vec<u8>)
        ensures
            final(buffer)@ == old(buffer)@ + self.bytes(),
    {
        push_all(buffer, &u32_to_le_bytes(self.flags));
        push_all(buffer, &u32_to_le_bytes(self.reserved));
        push_key(buffer, &self.public_key);
        push_key(buffer, &self.preshared_key);
        push_all(buffer, &u16_to_le_bytes(self.persistent_keepalive));
        push_zeros(buffer, 2);
        self.endpoint.encode(buffer);
        push_all(buffer, &u64_to_le_bytes(self.tx_bytes));
        push_all(buffer, &u64_to_le_bytes(self.rx_bytes));
        push_all(buffer, &u64_to_le_bytes(self.last_handshake));
        push_all(buffer, &u32_to_le_bytes(self.allowed_ips_count));
        buffer.push(self.constant_packet_size);
        push_zeros(buffer, 3);
        assert(buffer@ =~= old(buffer)@ + self.bytes());
    }
}

impl WgAllowedIpView {
    /// The 24 bytes of the record.
    pub open spec fn bytes(self) -> Seq<u8> {
        be128(self.address.bits) + spec_u16_to_le_bytes(self.address_family) + seq![self.cidr]
            + zeros(5)
    }
}

/// The address family of `address`.
pub open spec fn family_of(address: IpAddress) -> u16 {
    match address {
        IpAddress::V4(_) => AF_INET,
        IpAddress::V6(_) => AF_INET6,
    }
}

/// Why `network` makes no allowed IP, if it makes none: its address has a
/// bit set below its prefix.
pub open spec fn network_fault(network: IpNetwork) -> Option<Error> {
    allowed_ip_fault(
        WgIpAddr::of(network.spec_ip()),
        family_of(network.spec_ip()),
        network.spec_prefix(),
    )
}

/// The bytes of the allowed-IP record of `network`.
pub open spec fn network_bytes(network: IpNetwork) -> Seq<u8> {
    be128(WgIpAddr::of(network.spec_ip()).bits) + spec_u16_to_le_bytes(
        family_of(network.spec_ip()),
    ) + seq![network.spec_prefix()] + zeros(5)
}

/// The bytes of the allowed-IP records of `networks`, one after the other.
pub open spec fn networks_bytes(networks: Seq<IpNetwork>) -> Seq<u8>
    decreases networks.len(),
{
    if networks.len() == 0 {
        Seq::empty()
    } else {
        networks_bytes(networks.drop_last()) + network_bytes(networks.last())
    }
}

/// Why the first of `networks` that makes no allowed IP makes none.
pub open spec fn networks_fault(networks: Seq<IpNetwork>) -> Option<Error>
    decreases networks.len(),
{
    if networks.len() == 0 {
        None
    } else {
        match networks_fault(networks.drop_last()) {
            Some(error) => Some(error),
            None => network_fault(networks.last()),
        }
    }
}

/// The flags of the peer record of `peer`: it holds a public key, an
/// endpoint and the packet size setting, and a pre-shared key where the
/// peer has one.
pub open spec fn peer_flags(peer: PeerConfig) -> u32 {
    if peer.psk is Some {
        WG_PEER_HAS_PUBLIC_KEY | WG_PEER_HAS_ENDPOINT | WG_PEER_HAS_CONSTANT_PACKET_SIZE
            | WG_PEER_HAS_PRESHARED_KEY
    } else {
        WG_PEER_HAS_PUBLIC_KEY | WG_PEER_HAS_ENDPOINT | WG_PEER_HAS_CONSTANT_PACKET_SIZE
    }
}

/// The bytes of a key that may be absent: zeros stand for no key.
pub open spec fn key_or_zeros(key: Option<[u8; 32]>) -> Seq<u8> {
    match key {
        Some(key) => key@,
        None => zeros(32),
    }
}

/// The bytes of the peer record of `peer`, without its allowed IPs.
pub open spec fn peer_record_bytes(peer: PeerConfig) -> Seq<u8> {
    spec_u32_to_le_bytes(peer_flags(peer)) + spec_u32_to_le_bytes(0) + peer.public_key@
        + key_or_zeros(peer.psk) + spec_u16_to_le_bytes(0) + zeros(2) + SockAddrInet::of(
        peer.endpoint,
    ).bytes() + spec_u64_to_le_bytes(0) + spec_u64_to_le_bytes(0) + spec_u64_to_le_bytes(0)
        + spec_u32_to_le_bytes(peer.allowed_ips@.len() as u32) + seq![
        if peer.constant_packet_size {
            1u8
        } else {
            0u8
        },
    ] + zeros(3)
}

/// The bytes of `peer`: its record, then the records of its allowed IPs.
pub open spec fn peer_bytes(peer: PeerConfig) -> Seq<u8> {
    peer_record_bytes(peer) + networks_bytes(peer.allowed_ips@)
}

/// The bytes of the interface record of `config`: it holds the private key
/// of the tunnel and says that the peers that follow take the place of all
/// the peers before.
pub open spec fn interface_record_bytes(config: Config) -> Seq<u8> {
    spec_u32_to_le_bytes(WG_INTERFACE_HAS_PRIVATE_KEY | WG_INTERFACE_REPLACE_PEERS)
        + spec_u16_to_le_bytes(0) + config.tunnel.private_key@ + zeros(32) + zeros(2)
        + spec_u32_to_le_bytes(config.spec_peers().len() as u32) + zeros(4)
}

/// The bytes that the driver takes for `config`: the interface record, then
/// every peer, the exit peer first where there is one.
pub open spec fn config_bytes(config: Config) -> Seq<u8> {
    match config.exit_peer {
        Some(exit_peer) => interface_record_bytes(config) + peer_bytes(exit_peer) + peer_bytes(
            config.entry_peer,
        ),
        None => interface_record_bytes(config) + peer_bytes(config.entry_peer),
    }
}

/// Why the first allowed IP of `config` that makes no record makes none.
pub open spec fn config_fault(config: Config) -> Option<Error> {
    match config.exit_peer {
        Some(exit_peer) => match networks_fault(exit_peer.allowed_ips@) {
            Some(error) => Some(error),
            None => networks_fault(config.entry_peer.allowed_ips@),
        },
        None => networks_fault(config.entry_peer.allowed_ips@),
    }
}

/// Adds the bytes of `peer` to the end of `buffer`: its record, then the
/// records of its allowed IPs, as far as they make records.
#[verifier::rlimit(40)]
fn serialize_peer(peer: &PeerConfig, buffer: &mut Vec<u8>) -> (r: Result<(), Error>)
    requires
        peer.allowed_ips@.len() <= u32::MAX,
    ensures
        match r {
            Ok(_) => {
                &&& networks_fault(peer.allowed_ips@) is None
                &&& final(buffer)@ == old(buffer)@ + peer_bytes(*peer)
            },
            Err(error) => networks_fault(peer.allowed_ips@) == Some(error),
        },
{
    let mut flags: u32 = WG_PEER_HAS_PUBLIC_KEY | WG_PEER_HAS_ENDPOINT
        | WG_PEER_HAS_CONSTANT_PACKET_SIZE;
    if peer.psk.is_some() {
        flags = flags | WG_PEER_HAS_PRESHARED_KEY;
    }
    let constant_packet_size: u8 = if peer.constant_packet_size {
        1
    } else {
        0
    };
    let wg_peer = WgPeer {
        flags,
        reserved: 0,
        public_key: peer.public_key,
        preshared_key: match peer.psk {
            Some(psk) => psk,
            None => zero_key(),
        },
        persistent_keepalive: 0,
        endpoint: SockAddrInet::from(peer.endpoint),
        tx_bytes: 0,
        rx_bytes: 0,
        last_handshake: 0,
        allowed_ips_count: peer.allowed_ips.len() as u32,
        constant_packet_size,
    };
    wg_peer.encode(buffer);
    assert(wg_peer.bytes() =~= peer_record_bytes(*peer));
    let ghost record = buffer@;
    let mut i: usize = 0;
    while i < peer.allowed_ips.len()
        invariant
            i <= peer.allowed_ips.len(),
            networks_fault(peer.allowed_ips@.take(i as int)) is None,
            buffer@ == record + networks_bytes(peer.allowed_ips@.take(i as int)),
        decreases peer.allowed_ips.len() - i,
    {
        let allowed_ip = &peer.allowed_ips[i];
        let address_family = match allowed_ip.ip() {
            IpAddress::V4(_) => AF_INET,
            IpAddress::V6(_) => AF_INET6,
        };
        let address = WgIpAddr::from(allowed_ip.ip());
        proof {
            let next = peer.allowed_ips@.take(i + 1);
            assert(next.drop_last() == peer.allowed_ips@.take(i as int));
            assert(next.last() == peer.allowed_ips@[i as int]);
        }
        match WgAllowedIp::new(address, address_family, allowed_ip.prefix()) {
            Ok(wg_allowed_ip) => {
                wg_allowed_ip.encode(buffer);
                assert(wg_allowed_ip@.bytes() == network_bytes(peer.allowed_ips@[i as int]));
                assert(buffer@ == record + networks_bytes(peer.allowed_ips@.take(i + 1)));
            },
            Err(error) => {
                proof {
                    networks_fault_stays(peer.allowed_ips@, i + 1);
                }
                return Err(error);
            },
        }
        i += 1;
    }
    assert(peer.allowed_ips@.take(peer.allowed_ips.len() as int) == peer.allowed_ips@);
    assert(buffer@ == old(buffer)@ + peer_bytes(*peer));
    Ok(())
}

/// A fault among the first `n` networks is the fault of all of them.
proof fn networks_fault_stays(networks: Seq<IpNetwork>, n: int)
    requires
        0 <= n <= networks.len(),
        networks_fault(networks.take(n)) is Some,
    ensures
        networks_fault(networks) == networks_fault(networks.take(n)),
    decreases networks.len() - n,
{
    if n < networks.len() {
        let longer = networks.take(n + 1);
        assert(longer.drop_last() == networks.take(n));
        networks_fault_stays(networks, n + 1);
    } else {
        assert(networks.take(n) == networks);
    }
}

/// The bytes that the driver takes for `config`, or why an allowed IP of
/// `config` makes no record.
pub fn serialize_config(config: &Config) -> (r: Result<Vec<u8>, Error>)
    requires
        config.entry_peer.allowed_ips@.len() <= u32::MAX,
        config.exit_peer matches Some(exit_peer) ==> exit_peer.allowed_ips@.len() <= u32::MAX,
    ensures
        match r {
            Ok(bytes) => config_fault(*config) is None && bytes@ == config_bytes(*config),
            Err(error) => config_fault(*config) == Some(error),
        },
{
    let mut buffer: Vec<u8> = Vec::new();
    let peers_count: u32 = if config.exit_peer.is_some() {
        2
    } else {
        1
    };
    let header = WgInterface {
        flags: WG_INTERFACE_HAS_PRIVATE_KEY | WG_INTERFACE_REPLACE_PEERS,
        listen_port: 0,
        private_key: config.tunnel.private_key,
        public_key: zero_key(),
        peers_count,
    };
    header.encode(&mut buffer);
    assert(buffer@ == interface_record_bytes(*config));
    match &config.exit_peer {
        Some(exit_peer) => {
            match serialize_peer(exit_peer, &mut buffer) {
                Ok(_) => {},
                Err(error) => {
                    return Err(error);
                },
            }
        },
        None => {},
    }
    match serialize_peer(&config.entry_peer, &mut buffer) {
        Ok(_) => {},
        Err(error) => {
            return Err(error);
        },
    }
    Ok(buffer)
}

/// The bytes of the peers of `config`, the exit peer first where there is
/// one.
pub open spec fn peers_bytes(config: Config) -> Seq<u8> {
    match config.exit_peer {
        Some(exit_peer) => peer_bytes(exit_peer) + peer_bytes(config.entry_peer),
        None => peer_bytes(config.entry_peer),
    }
}

} // verus!
