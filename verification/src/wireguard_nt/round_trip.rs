//! What is written for a configuration is read back as the records of that
//! configuration.

use super::bytes::{be128, be16, be32, numbers_are_read_back, zeros};
use super::deserialize::{parse_allowed_ips, parse_config, parse_peers};
use super::serialize::{
    config_bytes, config_fault, family_of, interface_record_bytes, key_or_zeros,
    network_bytes, networks_bytes, networks_fault, peer_bytes, peer_flags,
    peer_record_bytes, peers_bytes,
};
use super::{
    allowed_ip_fault, SockAddrInet, WgAllowedIpView, WgInterfaceView, WgIpAddr, WgPeerView,
    AF_INET, AF_INET6, SOCKADDR_INET_SIZE, WG_ALLOWED_IP_SIZE, WG_INTERFACE_HAS_PRIVATE_KEY,
    WG_INTERFACE_REPLACE_PEERS, WG_INTERFACE_SIZE, WG_PEER_SIZE,
};
use crate::net::IpNetwork;
use crate::wireguard_config::{Config, PeerConfig};
use vstd::bytes::{spec_u16_to_le_bytes, spec_u32_to_le_bytes, spec_u64_to_le_bytes};
use vstd::prelude::*;

verus! {


/// The record of the interface of `config`.
pub open spec fn interface_record(config: Config) -> WgInterfaceView {
    WgInterfaceView {
        flags: WG_INTERFACE_HAS_PRIVATE_KEY | WG_INTERFACE_REPLACE_PEERS,
        listen_port: 0,
        private_key: config.tunnel.private_key@,
        public_key: zeros(32),
        peers_count: config.spec_peers().len() as u32,
    }
}

/// The record of `peer`.
pub open spec fn peer_record(peer: PeerConfig) -> WgPeerView {
    WgPeerView {
        flags: peer_flags(peer),
        reserved: 0,
        public_key: peer.public_key@,
        preshared_key: key_or_zeros(peer.psk),
        persistent_keepalive: 0,
        endpoint: SockAddrInet::of(peer.endpoint),
        tx_bytes: 0,
        rx_bytes: 0,
        last_handshake: 0,
        allowed_ips_count: peer.allowed_ips@.len() as u32,
        constant_packet_size: if peer.constant_packet_size {
            1
        } else {
            0
        },
    }
}

/// The record of the allowed IP of `network`.
pub open spec fn network_record(network: IpNetwork) -> WgAllowedIpView {
    WgAllowedIpView {
        address: WgIpAddr::of(network.spec_ip()),
        address_family: family_of(network.spec_ip()),
        cidr: network.spec_prefix(),
    }
}

/// The records of the allowed IPs of `networks`.
pub open spec fn network_records(networks: Seq<IpNetwork>) -> Seq<WgAllowedIpView> {
    networks.map_values(|network: IpNetwork| network_record(network))
}

/// The records of `peer` and of its allowed IPs.
pub open spec fn peer_records(peer: PeerConfig) -> (WgPeerView, Seq<WgAllowedIpView>) {
    (peer_record(peer), network_records(peer.allowed_ips@))
}

/// The records of the peers of `config`, each with those of its allowed
/// IPs, the exit peer first where there is one.
pub open spec fn config_records(config: Config) -> Seq<(WgPeerView, Seq<WgAllowedIpView>)> {
    config.spec_peers().map_values(|peer: PeerConfig| peer_records(peer))
}

/// The address of an endpoint is read back from its bytes.
#[verifier::rlimit(40)]
proof fn endpoint_is_read_back(endpoint: SockAddrInet)
    ensures
        endpoint.bytes().len() == SOCKADDR_INET_SIZE,
        SockAddrInet::parse(endpoint.bytes()) == Some(endpoint),
{
    numbers_are_read_back();
    let bytes = endpoint.bytes();
    match endpoint {
        SockAddrInet::V4 { address, port } => {
            assert(bytes.subrange(0, 2) =~= spec_u16_to_le_bytes(AF_INET));
            assert(bytes.subrange(2, 4) =~= be16(port));
            assert(bytes.subrange(4, 8) =~= be32(address));
        },
        SockAddrInet::V6 { address, port, flowinfo, scope_id } => {
            assert(bytes.subrange(0, 2) =~= spec_u16_to_le_bytes(AF_INET6));
            assert(bytes.subrange(2, 4) =~= be16(port));
            assert(bytes.subrange(4, 8) =~= spec_u32_to_le_bytes(flowinfo));
            assert(bytes.subrange(8, 24) =~= be128(address));
            assert(bytes.subrange(24, 28) =~= spec_u32_to_le_bytes(scope_id));
        },
    }
}

/// The record of an allowed IP is read back from its bytes.
proof fn allowed_ip_is_read_back(record: WgAllowedIpView)
    requires
        allowed_ip_fault(record.address, record.address_family, record.cidr) is None,
    ensures
        record.bytes().len() == WG_ALLOWED_IP_SIZE,
        WgAllowedIpView::parse(record.bytes()) == Some(record),
{
    numbers_are_read_back();
    let bytes = record.bytes();
    assert(bytes.subrange(0, 16) =~= be128(record.address.bits));
    assert(bytes.subrange(16, 18) =~= spec_u16_to_le_bytes(record.address_family));
    assert(bytes[18] == record.cidr);
}

/// The record of a peer is read back from its bytes.
#[verifier::rlimit(40)]
proof fn peer_is_read_back(peer: PeerConfig)
    ensures
        peer_record_bytes(peer).len() == WG_PEER_SIZE,
        WgPeerView::parse(peer_record_bytes(peer)) == Some(peer_record(peer)),
{
    numbers_are_read_back();
    let endpoint = SockAddrInet::of(peer.endpoint);
    endpoint_is_read_back(endpoint);
    let bytes = peer_record_bytes(peer);
    assert(peer.public_key@.len() == 32);
    assert(key_or_zeros(peer.psk).len() == 32);
    assert(bytes.subrange(0, 4) =~= spec_u32_to_le_bytes(peer_flags(peer)));
    assert(bytes.subrange(4, 8) =~= spec_u32_to_le_bytes(0));
    assert(bytes.subrange(8, 40) =~= peer.public_key@);
    assert(bytes.subrange(40, 72) =~= key_or_zeros(peer.psk));
    assert(bytes.subrange(72, 74) =~= spec_u16_to_le_bytes(0));
    assert(bytes.subrange(76, 104) =~= endpoint.bytes());
    assert(bytes.subrange(104, 112) =~= spec_u64_to_le_bytes(0));
    assert(bytes.subrange(112, 120) =~= spec_u64_to_le_bytes(0));
    assert(bytes.subrange(120, 128) =~= spec_u64_to_le_bytes(0));
    assert(bytes.subrange(128, 132) =~= spec_u32_to_le_bytes(peer.allowed_ips@.len() as u32));
}

/// The record of the interface is read back from its bytes.
#[verifier::rlimit(40)]
proof fn interface_is_read_back(config: Config)
    ensures
        interface_record_bytes(config).len() == WG_INTERFACE_SIZE,
        WgInterfaceView::parse(interface_record_bytes(config)) == interface_record(config),
{
    numbers_are_read_back();
    let bytes = interface_record_bytes(config);
    assert(config.tunnel.private_key@.len() == 32);
    assert(bytes.subrange(0, 4) =~= spec_u32_to_le_bytes(
        WG_INTERFACE_HAS_PRIVATE_KEY | WG_INTERFACE_REPLACE_PEERS,
    ));
    assert(bytes.subrange(4, 6) =~= spec_u16_to_le_bytes(0));
    assert(bytes.subrange(6, 38) =~= config.tunnel.private_key@);
    assert(bytes.subrange(38, 70) =~= zeros(32));
    assert(bytes.subrange(72, 76) =~= spec_u32_to_le_bytes(config.spec_peers().len() as u32));
}

/// Reading one allowed IP more reads what was read before and then the
/// next record.
#[verifier::rlimit(40)]
proof fn one_more_allowed_ip(bytes: Seq<u8>, count: nat)
    ensures
        parse_allowed_ips(bytes, count + 1) == match parse_allowed_ips(bytes, count) {
            None => None,
            Some((records, rest)) => if rest.len() < WG_ALLOWED_IP_SIZE {
                None
            } else {
                match WgAllowedIpView::parse(rest.take(WG_ALLOWED_IP_SIZE as int)) {
                    None => None,
                    Some(record) => Some(
                        (records.push(record), rest.skip(WG_ALLOWED_IP_SIZE as int)),
                    ),
                }
            },
        },
    decreases count,
{
    reveal(parse_allowed_ips);
    if count == 0 {
        if bytes.len() >= WG_ALLOWED_IP_SIZE {
            if let Some(first) = WgAllowedIpView::parse(bytes.take(WG_ALLOWED_IP_SIZE as int)) {
                assert(parse_allowed_ips(bytes.skip(WG_ALLOWED_IP_SIZE as int), 0) == Some(
                    (Seq::<WgAllowedIpView>::empty(), bytes.skip(WG_ALLOWED_IP_SIZE as int)),
                ));
                assert(seq![first] + Seq::<WgAllowedIpView>::empty()
                    =~= Seq::<WgAllowedIpView>::empty().push(first));
            }
        }
    } else {
        if bytes.len() >= WG_ALLOWED_IP_SIZE {
            if let Some(first) = WgAllowedIpView::parse(bytes.take(WG_ALLOWED_IP_SIZE as int)) {
                let tail = bytes.skip(WG_ALLOWED_IP_SIZE as int);
                one_more_allowed_ip(tail, (count - 1) as nat);
                assert(parse_allowed_ips(bytes, count + 1) == match parse_allowed_ips(
                    tail,
                    count,
                ) {
                    None => None,
                    Some((more, rest)) => Some((seq![first] + more, rest)),
                });
                if let Some((more, rest)) = parse_allowed_ips(tail, (count - 1) as nat) {
                    if rest.len() >= WG_ALLOWED_IP_SIZE {
                        if let Some(record) = WgAllowedIpView::parse(
                            rest.take(WG_ALLOWED_IP_SIZE as int),
                        ) {
                            assert(seq![first] + more.push(record) =~= (seq![first] + more).push(
                                record,
                            ));
                        }
                    }
                }
            }
        }
    }
}

/// The records of allowed IPs are read back from their bytes, and what
/// follows the bytes is left over.
#[verifier::rlimit(40)]
proof fn allowed_ips_are_read_back(networks: Seq<IpNetwork>, rest: Seq<u8>)
    requires
        networks_fault(networks) is None,
    ensures
        parse_allowed_ips(networks_bytes(networks) + rest, networks.len()) == Some(
            (network_records(networks), rest),
        ),
    decreases networks.len(),
{
    reveal(parse_allowed_ips);
    if networks.len() == 0 {
        assert(networks_bytes(networks) + rest =~= rest);
        assert(network_records(networks) =~= Seq::<WgAllowedIpView>::empty());
    } else {
        let init = networks.drop_last();
        let last = networks.last();
        let record = network_record(last);
        let after = network_bytes(last) + rest;
        allowed_ips_are_read_back(init, after);
        allowed_ip_is_read_back(record);
        assert(record.bytes() == network_bytes(last));
        assert(networks_bytes(networks) + rest =~= networks_bytes(init) + after);
        one_more_allowed_ip(networks_bytes(init) + after, init.len());
        assert(after.take(WG_ALLOWED_IP_SIZE as int) =~= network_bytes(last));
        assert(after.skip(WG_ALLOWED_IP_SIZE as int) =~= rest);
        assert(network_records(networks) =~= network_records(init).push(record));
    }
}

/// The records of a peer and of its allowed IPs are read back from their
/// bytes, before the peers that follow.
#[verifier::rlimit(40)]
proof fn peer_section_is_read_back(peer: PeerConfig, rest: Seq<u8>, count: nat)
    requires
        networks_fault(peer.allowed_ips@) is None,
        peer.allowed_ips@.len() <= u32::MAX,
    ensures
        parse_peers(peer_bytes(peer) + rest, count + 1) == match parse_peers(rest, count) {
            None => None,
            Some((more, tail)) => Some((seq![peer_records(peer)] + more, tail)),
        },
{
    reveal(parse_peers);
    let bytes = peer_bytes(peer) + rest;
    peer_is_read_back(peer);
    allowed_ips_are_read_back(peer.allowed_ips@, rest);
    assert(bytes.take(WG_PEER_SIZE as int) =~= peer_record_bytes(peer));
    assert(bytes.skip(WG_PEER_SIZE as int) =~= networks_bytes(peer.allowed_ips@) + rest);
    assert(peer_record(peer).allowed_ips_count as nat == peer.allowed_ips@.len());
}

/// The records of the last peer and of its allowed IPs are read back from
/// their bytes, and nothing is left over.
proof fn last_peer_is_read_back(peer: PeerConfig)
    requires
        networks_fault(peer.allowed_ips@) is None,
        peer.allowed_ips@.len() <= u32::MAX,
    ensures
        parse_peers(peer_bytes(peer), 1) == Some((seq![peer_records(peer)], Seq::<u8>::empty())),
{
    reveal(parse_peers);
    let empty = Seq::<u8>::empty();
    let none = Seq::<(WgPeerView, Seq<WgAllowedIpView>)>::empty();
    assert(parse_peers(empty, 0) == Some((none, empty)));
    peer_section_is_read_back(peer, empty, 0);
    assert(peer_bytes(peer) + empty =~= peer_bytes(peer));
    assert(seq![peer_records(peer)] + none =~= seq![peer_records(peer)]);
}

/// The records of two peers and of their allowed IPs are read back from
/// their bytes, and nothing is left over.
proof fn both_peers_are_read_back(first: PeerConfig, last: PeerConfig)
    requires
        networks_fault(first.allowed_ips@) is None,
        networks_fault(last.allowed_ips@) is None,
        first.allowed_ips@.len() <= u32::MAX,
        last.allowed_ips@.len() <= u32::MAX,
    ensures
        parse_peers(peer_bytes(first) + peer_bytes(last), 2) == Some(
            (seq![peer_records(first), peer_records(last)], Seq::<u8>::empty()),
        ),
{
    last_peer_is_read_back(last);
    peer_section_is_read_back(first, peer_bytes(last), 1);
    assert(seq![peer_records(first)] + seq![peer_records(last)] =~= seq![
        peer_records(first),
        peer_records(last),
    ]);
}

/// An interface record followed by the peers that it announces, and by
/// nothing else, is read as that record and those peers.
proof fn interface_and_peers_are_read(
    header: Seq<u8>,
    peers: Seq<u8>,
    records: Seq<(WgPeerView, Seq<WgAllowedIpView>)>,
)
    requires
        header.len() == WG_INTERFACE_SIZE,
        parse_peers(peers, WgInterfaceView::parse(header).peers_count as nat) == Some(
            (records, Seq::<u8>::empty()),
        ),
    ensures
        parse_config(header + peers) == Some((WgInterfaceView::parse(header), records)),
{
    reveal(parse_config);
    let bytes = header + peers;
    assert(bytes.take(WG_INTERFACE_SIZE as int) =~= header);
    assert(bytes.skip(WG_INTERFACE_SIZE as int) =~= peers);
}

/// The bytes of a configuration are those of its interface record followed
/// by those of its peers.
proof fn config_bytes_are_interface_and_peers(config: Config)
    ensures
        config_bytes(config) == interface_record_bytes(config) + peers_bytes(config),
{
    assert(config_bytes(config) =~= interface_record_bytes(config) + peers_bytes(config));
}

/// The records of the peers of a configuration, one by one.
proof fn config_records_are_those_of_its_peers(config: Config)
    ensures
        config_records(config) == match config.exit_peer {
            Some(exit_peer) => seq![peer_records(exit_peer), peer_records(config.entry_peer)],
            None => seq![peer_records(config.entry_peer)],
        },
{
    match config.exit_peer {
        Some(exit_peer) => {
            assert(config_records(config) =~= seq![
                peer_records(exit_peer),
                peer_records(config.entry_peer),
            ]);
        },
        None => {
            assert(config_records(config) =~= seq![peer_records(config.entry_peer)]);
        },
    }
}

/// The peers of a configuration are read back from their bytes, and
/// nothing is left over.
proof fn peers_are_read_back(config: Config)
    requires
        config_fault(config) is None,
        config.entry_peer.allowed_ips@.len() <= u32::MAX,
        config.exit_peer matches Some(exit_peer) ==> exit_peer.allowed_ips@.len() <= u32::MAX,
    ensures
        parse_peers(peers_bytes(config), config.spec_peers().len()) == Some(
            (config_records(config), Seq::<u8>::empty()),
        ),
{
    config_records_are_those_of_its_peers(config);
    match config.exit_peer {
        Some(exit_peer) => {
            both_peers_are_read_back(exit_peer, config.entry_peer);
        },
        None => {
            last_peer_is_read_back(config.entry_peer);
        },
    }
}

/// The bytes that are written for a configuration are read back as the
/// records of that configuration: its interface record, and the records of
/// its peers with those of their allowed IPs.
pub proof fn written_config_is_read_back(config: Config)
    requires
        config_fault(config) is None,
        config.entry_peer.allowed_ips@.len() <= u32::MAX,
        config.exit_peer matches Some(exit_peer) ==> exit_peer.allowed_ips@.len() <= u32::MAX,
    ensures
        parse_config(config_bytes(config)) == Some(
            (interface_record(config), config_records(config)),
        ),
{
    interface_is_read_back(config);
    peers_are_read_back(config);
    config_bytes_are_interface_and_peers(config);
    interface_and_peers_are_read(
        interface_record_bytes(config),
        peers_bytes(config),
        config_records(config),
    );
}

} // verus!
