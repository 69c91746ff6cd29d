use talpid_core::net::{IpAddress, IpNetwork, SocketAddress};
use talpid_core::tcpip::{IoError, IoErrorKind};
use talpid_core::tunnel::WireguardError;
use talpid_core::wireguard_config::{Config, PeerConfig, TunnelConfig};
use talpid_core::wireguard_nt::{
    deserialize_config, get_config, get_tunnel_stats, serialize_config, start_tunnel, Error,
    GetConfigStep, LogContext, LogLevel, LoggingLevel, SockAddrInet, WgAllowedIp, WgInterface,
    WgIpAddr, WgPeer, AF_INET, AF_INET6, ERROR_MORE_DATA, WG_ALLOWED_IP_SIZE,
    WG_INTERFACE_HAS_PRIVATE_KEY, WG_INTERFACE_REPLACE_PEERS, WG_INTERFACE_SIZE,
    WG_PEER_HAS_CONSTANT_PACKET_SIZE, WG_PEER_HAS_ENDPOINT, WG_PEER_HAS_PRESHARED_KEY,
    WG_PEER_HAS_PUBLIC_KEY, WG_PEER_SIZE,
};

const WIREGUARD_KEY_LENGTH: usize = 32;

/// The address that `text` spells as `a.b.c.d`.
fn v4(text: &str) -> WgIpAddr {
    let parts: Vec<u8> = text.split('.').map(|part| part.parse().unwrap()).collect();
    assert_eq!(parts.len(), 4);
    WgIpAddr::from(IpAddress::v4(parts[0], parts[1], parts[2], parts[3]))
}

/// The address that `text` spells in groups of hexadecimal digits, with at
/// most one `::` for a run of zero groups.
fn v6(text: &str) -> WgIpAddr {
    let groups = |part: &str| -> Vec<u16> {
        part.split(':')
            .filter(|group| !group.is_empty())
            .map(|group| u16::from_str_radix(group, 16).unwrap())
            .collect()
    };
    let (head, tail) = match text.split_once("::") {
        Some((head, tail)) => (groups(head), groups(tail)),
        None => (groups(text), Vec::new()),
    };
    let mut all = head;
    while all.len() + tail.len() < 8 {
        all.push(0);
    }
    all.extend(tail);
    assert_eq!(all.len(), 8);
    let bits = all.iter().fold(0u128, |bits, group| (bits << 16) | u128::from(*group));
    WgIpAddr::from(IpAddress::V6(bits))
}

fn private_key() -> [u8; WIREGUARD_KEY_LENGTH] {
    let mut key = [0u8; WIREGUARD_KEY_LENGTH];
    for (i, byte) in key.iter_mut().enumerate() {
        *byte = 0x40 + i as u8;
    }
    key
}

fn public_key() -> [u8; WIREGUARD_KEY_LENGTH] {
    let mut key = [0u8; WIREGUARD_KEY_LENGTH];
    for (i, byte) in key.iter_mut().enumerate() {
        *byte = 0xa0 + i as u8;
    }
    key
}

fn wg_config() -> Config {
    Config {
        tunnel: TunnelConfig { private_key: private_key(), addresses: vec![] },
        entry_peer: PeerConfig {
            public_key: public_key(),
            allowed_ips: vec![IpNetwork::new(IpAddress::v4(1, 3, 3, 0), 24).unwrap()],
            endpoint: SocketAddress { ip: IpAddress::v4(1, 2, 3, 4), port: 1234 },
            psk: None,
            constant_packet_size: false,
        },
        exit_peer: None,
        ipv4_gateway: 0,
        ipv6_gateway: None,
        mtu: 0,
        fwmark: None,
    }
}

fn wg_struct_interface() -> WgInterface {
    WgInterface {
        flags: WG_INTERFACE_HAS_PRIVATE_KEY | WG_INTERFACE_REPLACE_PEERS,
        listen_port: 0,
        private_key: private_key(),
        public_key: [0; WIREGUARD_KEY_LENGTH],
        peers_count: 1,
    }
}

fn wg_struct_p0() -> WgPeer {
    WgPeer {
        flags: WG_PEER_HAS_PUBLIC_KEY | WG_PEER_HAS_ENDPOINT | WG_PEER_HAS_CONSTANT_PACKET_SIZE,
        reserved: 0,
        public_key: public_key(),
        preshared_key: [0; WIREGUARD_KEY_LENGTH],
        persistent_keepalive: 0,
        endpoint: SockAddrInet::from(SocketAddress { ip: IpAddress::v4(1, 2, 3, 4), port: 1234 }),
        tx_bytes: 0,
        rx_bytes: 0,
        last_handshake: 0,
        allowed_ips_count: 1,
        constant_packet_size: 0,
    }
}

fn wg_struct_p0_allowed_ip_0() -> WgAllowedIp {
    WgAllowedIp::new(v4("1.3.3.0"), AF_INET, 24).unwrap()
}

/// The bytes of the configuration above, written down byte by byte.
fn wg_struct_config_bytes() -> Vec<u8> {
    let mut bytes = Vec::new();
    // interface
    bytes.extend_from_slice(&[0x0a, 0, 0, 0]);
    bytes.extend_from_slice(&[0, 0]);
    bytes.extend_from_slice(&private_key());
    bytes.extend_from_slice(&[0; 32]);
    bytes.extend_from_slice(&[0, 0]);
    bytes.extend_from_slice(&[1, 0, 0, 0]);
    bytes.extend_from_slice(&[0; 4]);
    // peer
    bytes.extend_from_slice(&[0x09, 0x01, 0, 0]);
    bytes.extend_from_slice(&[0; 4]);
    bytes.extend_from_slice(&public_key());
    bytes.extend_from_slice(&[0; 32]);
    bytes.extend_from_slice(&[0, 0]);
    bytes.extend_from_slice(&[0, 0]);
    bytes.extend_from_slice(&[2, 0]);
    bytes.extend_from_slice(&[0x04, 0xd2]);
    bytes.extend_from_slice(&[1, 2, 3, 4]);
    bytes.extend_from_slice(&[0; 20]);
    bytes.extend_from_slice(&[0; 24]);
    bytes.extend_from_slice(&[1, 0, 0, 0]);
    bytes.push(0);
    bytes.extend_from_slice(&[0; 3]);
    // allowed IP
    bytes.extend_from_slice(&[1, 3, 3, 0]);
    bytes.extend_from_slice(&[0; 12]);
    bytes.extend_from_slice(&[2, 0]);
    bytes.push(24);
    bytes.extend_from_slice(&[0; 5]);
    bytes
}

#[test]
fn test_config_serialization() {
    let serialized_data = serialize_config(&wg_config()).unwrap();
    assert_eq!(
        WG_INTERFACE_SIZE + WG_PEER_SIZE + WG_ALLOWED_IP_SIZE,
        serialized_data.len()
    );
    assert_eq!(240, serialized_data.len());
    assert_eq!(wg_struct_config_bytes(), serialized_data);
}

#[test]
fn test_config_deserialization() {
    let config_buffer = wg_struct_config_bytes();
    let (iface, peers) = deserialize_config(&config_buffer).unwrap();
    assert_eq!(iface, wg_struct_interface());
    assert_eq!(peers.len(), 1);
    let (peer, allowed_ips) = &peers[0];
    assert_eq!(peer, &wg_struct_p0());
    assert_eq!(allowed_ips.len(), 1);
    assert_eq!(allowed_ips[0], wg_struct_p0_allowed_ip_0());
}

#[test]
fn test_wg_allowed_ip_v4() {
    // Valid: /32 prefix
    let address_family = AF_INET;
    let address = v4("127.0.0.1");
    let cidr = 32;
    WgAllowedIp::new(address, address_family, cidr).unwrap();

    // Invalid host bits
    let cidr = 24;
    let address = v4("0.0.0.1");
    assert!(WgAllowedIp::new(address, address_family, cidr).is_err());

    // Valid host bits
    let cidr = 24;
    let address = v4("255.255.255.0");
    WgAllowedIp::new(address, address_family, cidr).unwrap();

    // 0.0.0.0/0
    let cidr = 0;
    let address = v4("0.0.0.0");
    WgAllowedIp::new(address, address_family, cidr).unwrap();

    // Invalid CIDR
    let cidr = 33;
    assert!(WgAllowedIp::new(address, address_family, cidr).is_err());
}

#[test]
fn test_wg_allowed_ip_v6() {
    // Valid: /128 prefix
    let address_family = AF_INET6;
    let address = v6("::1");
    let cidr = 128;
    WgAllowedIp::new(address, address_family, cidr).unwrap();

    // Invalid host bits
    let cidr = 127;
    assert!(WgAllowedIp::new(address, address_family, cidr).is_err());

    // Valid host bits
    let address = v6("ffff:ffff:ffff:ffff:ffff:ffff:ffff:fffe");
    WgAllowedIp::new(address, address_family, cidr).unwrap();

    // ::/0
    let cidr = 0;
    let address = v6("::");
    WgAllowedIp::new(address, address_family, cidr).unwrap();

    // Invalid CIDR
    let cidr = 129;
    assert!(WgAllowedIp::new(address, address_family, cidr).is_err());
}

#[test]
fn allowed_ip_errors_name_the_fault() {
    assert_eq!(
        WgAllowedIp::new(v4("10.0.0.0"), AF_INET, 33),
        Err(Error::InvalidAllowedIpCidr)
    );
    assert_eq!(
        WgAllowedIp::new(v4("10.0.0.1"), AF_INET, 8),
        Err(Error::InvalidAllowedIpBits)
    );
    assert_eq!(WgAllowedIp::new(v6("::"), AF_INET6, 129), Err(Error::InvalidAllowedIpCidr));
    assert_eq!(
        WgAllowedIp::new(v6("fe80::1"), AF_INET6, 64),
        Err(Error::InvalidAllowedIpBits)
    );
    assert_eq!(
        WgAllowedIp::new(v4("10.0.0.0"), 7, 8),
        Err(Error::UnknownAddressFamily(7))
    );
    assert_eq!(WgAllowedIp::validate(&v4("10.0.0.0"), AF_INET, 8), Ok(()));
}

#[test]
fn allowed_ips_of_ipv4_compare_by_their_first_four_bytes() {
    let from_driver = WgIpAddr { bits: (0x0a00_0000u128 << 96) | 0xdead_beef };
    let a = WgAllowedIp::new(from_driver, AF_INET, 8).unwrap();
    let b = WgAllowedIp::new(v4("10.0.0.0"), AF_INET, 8).unwrap();
    assert_eq!(a, b);
    assert_ne!(a, WgAllowedIp::new(v4("10.0.0.0"), AF_INET, 9).unwrap());
    assert_ne!(a, WgAllowedIp::new(v4("11.0.0.0"), AF_INET, 8).unwrap());
    let c = WgAllowedIp::new(v6("fe80::"), AF_INET6, 10).unwrap();
    assert_eq!(c, c);
    assert_ne!(c, WgAllowedIp::new(v6("fc00::"), AF_INET6, 10).unwrap());
}

#[test]
fn multihop_config_is_written_exit_peer_first_and_read_back() {
    let mut config = wg_config();
    config.entry_peer.psk = Some([7; 32]);
    config.entry_peer.constant_packet_size = true;
    config.entry_peer.allowed_ips = vec![
        IpNetwork::new(IpAddress::v4(10, 0, 0, 0), 8).unwrap(),
        IpNetwork::new(IpAddress::V6(0xfe80u128 << 112), 10).unwrap(),
    ];
    config.exit_peer = Some(PeerConfig {
        public_key: [9; 32],
        allowed_ips: vec![IpNetwork::new(IpAddress::v4(0, 0, 0, 0), 0).unwrap()],
        endpoint: SocketAddress { ip: IpAddress::V6(1), port: 51820 },
        psk: None,
        constant_packet_size: false,
    });

    let bytes = serialize_config(&config).unwrap();
    assert_eq!(bytes.len(), 80 + (136 + 24) + (136 + 2 * 24));
    let (interface, peers) = deserialize_config(&bytes).unwrap();
    assert_eq!(interface.peers_count, 2);
    assert_eq!(interface.private_key, private_key());
    assert_eq!(peers.len(), 2);

    let (exit, exit_ips) = &peers[0];
    assert_eq!(exit.public_key, [9; 32]);
    assert_eq!(
        exit.endpoint,
        SockAddrInet::V6 { address: 1, port: 51820, flowinfo: 0, scope_id: 0 }
    );
    assert_eq!(exit.flags, 0x109);
    assert_eq!(exit_ips, &vec![WgAllowedIp::new(v4("0.0.0.0"), AF_INET, 0).unwrap()]);

    let (entry, entry_ips) = &peers[1];
    assert_eq!(entry.public_key, public_key());
    assert_eq!(entry.preshared_key, [7; 32]);
    assert_eq!(
        entry.flags,
        WG_PEER_HAS_PUBLIC_KEY
            | WG_PEER_HAS_ENDPOINT
            | WG_PEER_HAS_CONSTANT_PACKET_SIZE
            | WG_PEER_HAS_PRESHARED_KEY
    );
    assert_eq!(entry.constant_packet_size, 1);
    assert_eq!(entry.endpoint, SockAddrInet::V4 { address: 0x0102_0304, port: 1234 });
    assert_eq!(
        entry_ips,
        &vec![
            WgAllowedIp::new(v4("10.0.0.0"), AF_INET, 8).unwrap(),
            WgAllowedIp::new(v6("fe80::"), AF_INET6, 10).unwrap(),
        ]
    );
    assert_eq!(entry_ips[1].address(), v6("fe80::"));
    assert_eq!(entry_ips[1].address_family(), AF_INET6);
    assert_eq!(entry_ips[1].cidr(), 10);
}

#[test]
fn serialization_rejects_allowed_ip_with_host_bits() {
    let mut config = wg_config();
    config.entry_peer.allowed_ips = vec![
        IpNetwork::new(IpAddress::v4(10, 0, 0, 0), 8).unwrap(),
        IpNetwork::new(IpAddress::v4(10, 0, 0, 1), 8).unwrap(),
    ];
    assert_eq!(serialize_config(&config), Err(Error::InvalidAllowedIpBits));
}

#[test]
fn deserialization_rejects_what_is_no_configuration() {
    let good = wg_struct_config_bytes();
    assert!(deserialize_config(&good).is_ok());

    // too short for an interface record
    assert_eq!(deserialize_config(&good[..79]), Err(Error::InvalidConfigData));
    // too short for the peer that the interface record announces
    assert_eq!(deserialize_config(&good[..100]), Err(Error::InvalidConfigData));
    // too short for the allowed IP that the peer record announces
    assert_eq!(deserialize_config(&good[..230]), Err(Error::InvalidConfigData));
    // bytes after the end
    let mut longer = good.clone();
    longer.push(0);
    assert_eq!(deserialize_config(&longer), Err(Error::InvalidConfigData));
    // an endpoint of unknown family
    let mut bad_endpoint = good.clone();
    bad_endpoint[80 + 76] = 0;
    assert_eq!(deserialize_config(&bad_endpoint), Err(Error::InvalidConfigData));
    // an allowed IP with bits below its prefix
    let mut bad_allowed_ip = good.clone();
    bad_allowed_ip[80 + 136 + 3] = 1;
    assert_eq!(deserialize_config(&bad_allowed_ip), Err(Error::InvalidConfigData));
    // an interface without peers
    let mut no_peers = good[..80].to_vec();
    no_peers[72] = 0;
    let (interface, peers) = deserialize_config(&no_peers).unwrap();
    assert_eq!(interface.peers_count, 0);
    assert!(peers.is_empty());
}

#[test]
fn deserialization_reads_counters_and_ignores_padding() {
    let mut bytes = wg_struct_config_bytes();
    // padding of the interface record
    bytes[70] = 0xff;
    bytes[79] = 0xff;
    // tx, rx and the last handshake of the peer
    bytes[80 + 104] = 1;
    bytes[80 + 113] = 1;
    bytes[80 + 122] = 1;
    // keep-alive
    bytes[80 + 72] = 25;
    let (interface, peers) = deserialize_config(&bytes).unwrap();
    assert_eq!(interface, wg_struct_interface());
    assert_eq!(peers[0].0.tx_bytes, 1);
    assert_eq!(peers[0].0.rx_bytes, 256);
    assert_eq!(peers[0].0.last_handshake, 65536);
    assert_eq!(peers[0].0.persistent_keepalive, 25);

    let stats = get_tunnel_stats(&peers);
    assert_eq!(stats.len(), 1);
    assert_eq!(stats[0].0, public_key());
    assert_eq!(stats[0].1.tx_bytes, 1);
    assert_eq!(stats[0].1.rx_bytes, 256);
}

#[test]
fn start_failure_tells_device_errors_apart() {
    let io = IoError { kind: IoErrorKind::Other, code: Some(5) };
    assert_eq!(
        start_tunnel(Error::CreateTunnelDevice(io)),
        WireguardError::SetupTunnelDevice(Some(5))
    );
    assert_eq!(start_tunnel(Error::ObtainAlias(io)), WireguardError::FatalStartWireguardError);
    assert_eq!(
        start_tunnel(Error::InvalidAllowedIpCidr),
        WireguardError::FatalStartWireguardError
    );
}

#[test]
fn get_config_grows_the_buffer_while_there_is_more_data() {
    let more = IoError { kind: IoErrorKind::Other, code: Some(ERROR_MORE_DATA) };
    let denied = IoError { kind: IoErrorKind::Other, code: Some(5) };
    assert_eq!(get_config(Some(more), 240), GetConfigStep::Resize(240));
    assert_eq!(get_config(Some(denied), 240), GetConfigStep::Fail(denied));
    assert_eq!(get_config(None, 240), GetConfigStep::Done);
}

#[test]
fn log_context_goes_to_the_last_logger_only() {
    let mut context = LogContext { current: None };
    assert_eq!(context.logging_callback(Some("hello")), None);
    context.attach(1);
    context.attach(2);
    assert_eq!(
        context.logging_callback(Some("hello")),
        Some((2, String::from("hello\r\n")))
    );
    assert_eq!(context.logging_callback(None), None);
    assert!(!context.detach(1));
    assert_eq!(context.current, Some(2));
    assert!(context.detach(2));
    assert_eq!(context.current, None);
    assert_eq!(LogLevel::Info.logging_level(), LoggingLevel::Info);
    assert_eq!(LogLevel::Warn.logging_level(), LoggingLevel::Warning);
    assert_eq!(LogLevel::Error.logging_level(), LoggingLevel::Error);
}
