//! What the userspace WireGuard backend is told: the commands that
//! configure its devices, the layout of those devices, and what the
//! outcomes of preparing the tunnel device lead to. The devices themselves
//! belong to the caller.

use crate::net::{IpAddress, IpNetwork, SocketAddress};
use crate::wireguard_config::{Config, PeerConfig};
use vstd::prelude::*;

verus! {

/// The number of packets that the channel between the two devices of a
/// multihop tunnel holds.
pub const PACKET_CHANNEL_CAPACITY: usize = 100;

/// The number of times that the tunnel device is opened before the
/// duplication of its descriptor is given up.
pub const MAX_PREPARE_TUN_ATTEMPTS: usize = 4;

/// A network that may be routed to a peer: an address and the length of
/// its prefix.
#[derive(Clone, Copy, Debug, PartialEq, Eq, Structural)]
pub struct AllowedIp {
    pub addr: IpAddress,
    pub cidr: u8,
}

/// What a device is told about one peer.
#[derive(Debug, PartialEq, Eq)]
pub struct SetPeer {
    pub public_key: [u8; 32],
    pub endpoint: SocketAddress,
    pub allowed_ips: Vec<AllowedIp>,
    pub preshared_key: Option<[u8; 32]>,
}

/// The command that configures a device.
#[derive(Debug, PartialEq, Eq)]
pub struct SetCommand {
    pub private_key: [u8; 32],
    pub listen_port: u16,
    pub replace_peers: bool,
    pub fwmark: Option<u32>,
    pub peers: Vec<SetPeer>,
}

/// What a device is told about `network`.
pub open spec fn allowed_ip_of(network: IpNetwork) -> AllowedIp {
    AllowedIp { addr: network.spec_ip(), cidr: network.spec_prefix() }
}

/// Whether `command` tells a device about `peer`: its key, its endpoint,
/// its pre-shared key and the networks routed to it, in their order.
pub open spec fn describes_peer(command: SetPeer, peer: PeerConfig) -> bool {
    &&& command.public_key == peer.public_key
    &&& command.endpoint == peer.endpoint
    &&& command.preshared_key == peer.psk
    &&& command.allowed_ips@ == peer.allowed_ips@.map_values(
        |network: IpNetwork| allowed_ip_of(network),
    )
}

/// Whether `command` configures a device for the tunnel of `config` with
/// `peers`: the private key of the tunnel, any port to listen on, the
/// firewall mark, and the peers in place of all the peers before.
pub open spec fn configures(command: SetCommand, config: Config, peers: Seq<PeerConfig>) -> bool {
    &&& command.private_key == config.tunnel.private_key
    &&& command.listen_port == 0
    &&& command.replace_peers
    &&& command.fwmark == config.fwmark
    &&& command.peers@.len() == peers.len()
    &&& forall|i: int|
        0 <= i < peers.len() ==> describes_peer(#[trigger] command.peers@[i], peers[i])
}

/// What a device is told about `peer`.
pub fn set_peer(peer: &PeerConfig) -> (r: SetPeer)
    ensures
        describes_peer(r, *peer),
{
    let mut allowed_ips: Vec<AllowedIp> = Vec::new();
    let mut i: usize = 0;
    while i < peer.allowed_ips.len()
        invariant
            i <= peer.allowed_ips.len(),
            allowed_ips@ == peer.allowed_ips@.take(i as int).map_values(
                |network: IpNetwork| allowed_ip_of(network),
            ),
        decreases peer.allowed_ips.len() - i,
    {
        let network = &peer.allowed_ips[i];
        allowed_ips.push(AllowedIp { addr: network.ip(), cidr: network.prefix() });
        assert(peer.allowed_ips@.take(i + 1) == peer.allowed_ips@.take(i as int).push(
            peer.allowed_ips@[i as int],
        ));
        i += 1;
    }
    assert(peer.allowed_ips@.take(peer.allowed_ips.len() as int) == peer.allowed_ips@);
    SetPeer {
        public_key: peer.public_key,
        endpoint: peer.endpoint,
        allowed_ips,
        preshared_key: peer.psk,
    }
}

/// The command that configures the device of a tunnel with all the peers of
/// `config`.
pub fn set_boringtun_config(config: &Config) -> (r: SetCommand)
    ensures
        configures(r, *config, config.spec_peers()),
{
    let mut peers: Vec<SetPeer> = Vec::new();
    match &config.exit_peer {
        Some(exit_peer) => {
            peers.push(set_peer(exit_peer));
        },
        None => {},
    }
    peers.push(set_peer(&config.entry_peer));
    SetCommand {
        private_key: config.tunnel.private_key,
        listen_port: 0,
        replace_peers: true,
        fwmark: config.fwmark,
        peers,
    }
}

/// The command that configures the entry device of a multihop tunnel, with
/// the entry peer of `config`.
pub fn set_boringtun_entry_config(config: &Config) -> (r: SetCommand)
    ensures
        configures(r, *config, seq![config.entry_peer]),
{
    let mut peers: Vec<SetPeer> = Vec::new();
    peers.push(set_peer(&config.entry_peer));
    SetCommand {
        private_key: config.tunnel.private_key,
        listen_port: 0,
        replace_peers: true,
        fwmark: config.fwmark,
        peers,
    }
}

/// The command that configures the exit device of a multihop tunnel, with
/// the exit peer of `config`, which must have one.
pub fn set_boringtun_exit_config(config: &Config) -> (r: SetCommand)
    requires
        config.exit_peer is Some,
    ensures
        configures(r, *config, seq![config.exit_peer->Some_0]),
{
    let mut peers: Vec<SetPeer> = Vec::new();
    match &config.exit_peer {
        Some(exit_peer) => {
            peers.push(set_peer(exit_peer));
        },
        None => {},
    }
    SetCommand {
        private_key: config.tunnel.private_key,
        listen_port: 0,
        replace_peers: true,
        fwmark: config.fwmark,
        peers,
    }
}

/// The first IPv4 address among `addresses`.
pub open spec fn first_ipv4(addresses: Seq<IpAddress>) -> Option<u32>
    decreases addresses.len(),
{
    if addresses.len() == 0 {
        None
    } else {
        match addresses[0] {
            IpAddress::V4(bits) => Some(bits),
            IpAddress::V6(_) => first_ipv4(addresses.skip(1)),
        }
    }
}

/// The first IPv6 address among `addresses`.
pub open spec fn first_ipv6(addresses: Seq<IpAddress>) -> Option<u128>
    decreases addresses.len(),
{
    if addresses.len() == 0 {
        None
    } else {
        match addresses[0] {
            IpAddress::V6(bits) => Some(bits),
            IpAddress::V4(_) => first_ipv6(addresses.skip(1)),
        }
    }
}

/// The first IPv4 address among `addresses`.
pub fn find_ipv4(addresses: &Vec<IpAddress>) -> (r: Option<u32>)
    ensures
        r == first_ipv4(addresses@),
{
    let mut i: usize = 0;
    assert(addresses@.skip(0) == addresses@);
    while i < addresses.len()
        invariant
            i <= addresses.len(),
            first_ipv4(addresses@) == first_ipv4(addresses@.skip(i as int)),
        decreases addresses.len() - i,
    {
        proof {
            assert(addresses@.skip(i as int).skip(1) == addresses@.skip(i + 1));
        }
        match addresses[i] {
            IpAddress::V4(bits) => {
                return Some(bits);
            },
            IpAddress::V6(_) => {},
        }
        i += 1;
    }
    None
}

/// The first IPv6 address among `addresses`.
pub fn find_ipv6(addresses: &Vec<IpAddress>) -> (r: Option<u128>)
    ensures
        r == first_ipv6(addresses@),
{
    let mut i: usize = 0;
    assert(addresses@.skip(0) == addresses@);
    while i < addresses.len()
        invariant
            i <= addresses.len(),
            first_ipv6(addresses@) == first_ipv6(addresses@.skip(i as int)),
        decreases addresses.len() - i,
    {
        proof {
            assert(addresses@.skip(i as int).skip(1) == addresses@.skip(i + 1));
        }
        match addresses[i] {
            IpAddress::V6(bits) => {
                return Some(bits);
            },
            IpAddress::V4(_) => {},
        }
        i += 1;
    }
    None
}

/// The devices that a tunnel is made of.
#[derive(Clone, Copy, Debug, PartialEq, Eq, Structural)]
pub enum Devices {
    /// One device between the network and the tunnel interface.
    Singlehop,
    /// An entry device towards the network and an exit device towards the
    /// tunnel interface, joined by a channel of packets that come from the
    /// given addresses.
    Multihop { source_v4: u32, source_v6: u128 },
}

/// The devices that the tunnel of `config` is made of. The packets between
/// the two devices of a multihop tunnel come from the first IPv4 and the
/// first IPv6 address of the tunnel, or from the unspecified address where
/// the tunnel has none.
pub fn create_devices(config: &Config) -> (r: Devices)
    ensures
        r == if config.exit_peer is Some {
            Devices::Multihop {
                source_v4: match first_ipv4(config.tunnel.addresses@) {
                    Some(bits) => bits,
                    None => 0,
                },
                source_v6: match first_ipv6(config.tunnel.addresses@) {
                    Some(bits) => bits,
                    None => 0,
                },
            }
        } else {
            Devices::Singlehop
        },
{
    if config.exit_peer.is_some() {
        let source_v4 = match find_ipv4(&config.tunnel.addresses) {
            Some(bits) => bits,
            None => 0,
        };
        let source_v6 = match find_ipv6(&config.tunnel.addresses) {
            Some(bits) => bits,
            None => 0,
        };
        Devices::Multihop { source_v4, source_v6 }
    } else {
        Devices::Singlehop
    }
}

/// Whether a change from `old` to `new` needs the devices to be made anew:
/// it does where one of the two is a multihop tunnel and the other is not.
pub fn set_config(old: &Config, new: &Config) -> (r: bool)
    ensures
        r == (old.spec_is_multihop() != new.spec_is_multihop()),
{
    old.is_multihop() != new.is_multihop()
}

/// The traffic counters of a peer.
#[derive(Clone, Copy, Debug, PartialEq, Eq, Structural)]
pub struct Stats {
    pub tx_bytes: u64,
    pub rx_bytes: u64,
}

/// The traffic counters of a peer, from what a device reports of it:
/// nothing counts as zero.
pub fn get_tunnel_stats(tx_bytes: Option<u64>, rx_bytes: Option<u64>) -> (r: Stats)
    ensures
        r.tx_bytes == match tx_bytes {
            Some(bytes) => bytes,
            None => 0,
        },
        r.rx_bytes == match rx_bytes {
            Some(bytes) => bytes,
            None => 0,
        },
{
    Stats {
        tx_bytes: match tx_bytes {
            Some(bytes) => bytes,
            None => 0,
        },
        rx_bytes: match rx_bytes {
            Some(bytes) => bytes,
            None => 0,
        },
    }
}

/// How the duplication of the tunnel device's descriptor went.
#[derive(Clone, Copy, Debug, PartialEq, Eq, Structural)]
pub enum Duplication {
    /// The descriptor was duplicated.
    Duplicated(i32),
    /// The descriptor was no longer good; the code is the system's.
    BadDescriptor(i32),
    /// The duplication failed otherwise; the code is the system's.
    Failed(i32),
}

/// What follows an attempt to prepare the tunnel device.
#[derive(Clone, Copy, Debug, PartialEq, Eq, Structural)]
pub enum Preparation {
    /// The device is ready, with its duplicated descriptor.
    Ready(i32),
    /// Open the device again.
    OpenAgain,
    /// Give up, with the system's code of the last failure.
    GiveUp(i32),
}

/// What follows attempt number `attempt`, counted from 1, to prepare the
/// tunnel device: a descriptor that was no longer good has the device
/// opened again, until `MAX_PREPARE_TUN_ATTEMPTS` attempts have been made;
/// every other failure is final.
pub fn get_tunnel_for_userspace(attempt: usize, outcome: Duplication) -> (r: Preparation)
    ensures
        r == match outcome {
            Duplication::Duplicated(descriptor) => Preparation::Ready(descriptor),
            Duplication::BadDescriptor(code) => if attempt < MAX_PREPARE_TUN_ATTEMPTS {
                Preparation::OpenAgain
            } else {
                Preparation::GiveUp(code)
            },
            Duplication::Failed(code) => Preparation::GiveUp(code),
        },
{
    match outcome {
        Duplication::Duplicated(descriptor) => Preparation::Ready(descriptor),
        Duplication::BadDescriptor(code) => {
            if attempt < MAX_PREPARE_TUN_ATTEMPTS {
                Preparation::OpenAgain
            } else {
                Preparation::GiveUp(code)
            }
        },
        Duplication::Failed(code) => Preparation::GiveUp(code),
    }
}

} // verus!
