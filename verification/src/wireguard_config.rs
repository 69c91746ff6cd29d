//! The configuration of a WireGuard tunnel, as the tunnel backends take it.

use crate::net::{IpAddress, IpNetwork, SocketAddress};
use vstd::prelude::*;

verus! {

/// The length of a WireGuard key in bytes.
pub const WIREGUARD_KEY_LENGTH: usize = 32;

/// A peer of a WireGuard tunnel.
#[derive(Debug, PartialEq, Eq)]
pub struct PeerConfig {
    /// Public key corresponding to the private key in use by the peer.
    pub public_key: [u8; 32],
    /// Addresses that may be routed to the peer. Use `0.0.0.0/0` to route
    /// everything.
    pub allowed_ips: Vec<IpNetwork>,
    /// IP address of the WireGuard server.
    pub endpoint: SocketAddress,
    /// Preshared key (PSK).
    pub psk: Option<[u8; 32]>,
    /// Whether the packets to the peer are all made the same size.
    pub constant_packet_size: bool,
}

/// The local end of a WireGuard tunnel.
#[derive(Debug, PartialEq, Eq)]
pub struct TunnelConfig {
    pub private_key: [u8; 32],
    /// Local IP addresses associated with the tunnel interface.
    pub addresses: Vec<IpAddress>,
}

/// Config required to set up a single WireGuard tunnel.
#[derive(Debug, PartialEq, Eq)]
pub struct Config {
    /// Contains tunnel endpoint specific config.
    pub tunnel: TunnelConfig,
    /// Entry peer.
    pub entry_peer: PeerConfig,
    /// Multihop exit peer.
    pub exit_peer: Option<PeerConfig>,
    /// IPv4 gateway, as the number its bytes spell.
    pub ipv4_gateway: u32,
    /// IPv6 gateway.
    pub ipv6_gateway: Option<u128>,
    /// Maximum transmission unit for the tunnel.
    pub mtu: u16,
    /// Firewall mark.
    pub fwmark: Option<u32>,
}

impl Config {
    pub open spec fn spec_is_multihop(&self) -> bool {
        self.exit_peer is Some
    }

    /// The peers of the tunnel: the exit peer first where there is one,
    /// then the entry peer.
    pub open spec fn spec_peers(&self) -> Seq<PeerConfig> {
        match self.exit_peer {
            Some(exit_peer) => seq![exit_peer, self.entry_peer],
            None => seq![self.entry_peer],
        }
    }

    /// Whether the tunnel goes through two peers.
    #[verifier::when_used_as_spec(spec_is_multihop)]
    pub fn is_multihop(&self) -> (r: bool)
        ensures
            r == self.spec_is_multihop(),
    {
        self.exit_peer.is_some()
    }

    /// The peers of the tunnel: the exit peer first where there is one,
    /// then the entry peer.
    pub fn peers(&self) -> (r: Vec<&PeerConfig>)
        ensures
            r@.len() == self.spec_peers().len(),
            forall|i: int| 0 <= i < r@.len() ==> *(#[trigger] r@[i]) == self.spec_peers()[i],
    {
        let mut peers: Vec<&PeerConfig> = Vec::new();
        match &self.exit_peer {
            Some(exit_peer) => {
                peers.push(exit_peer);
            },
            None => {},
        }
        peers.push(&self.entry_peer);
        peers
    }

    /// Whether the tunnel interface has an IPv6 address.
    pub fn has_ipv6(&self) -> (r: bool)
        ensures
            r == any_ipv6(self.tunnel.addresses@),
    {
        let mut i: usize = 0;
        while i < self.tunnel.addresses.len()
            invariant
                i <= self.tunnel.addresses.len(),
                forall|j: int| 0 <= j < i ==> !(#[trigger] self.tunnel.addresses@[j] is V6),
            decreases self.tunnel.addresses.len() - i,
        {
            if self.tunnel.addresses[i].is_ipv6() {
                return true;
            }
            i += 1;
        }
        false
    }
}

/// Whether one of `addresses` is an IPv6 address.
pub open spec fn any_ipv6(addresses: Seq<IpAddress>) -> bool {
    exists|i: int| 0 <= i < addresses.len() && #[trigger] addresses[i] is V6
}

} // verus!
