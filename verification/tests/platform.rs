use talpid_core::access_method::{
    AccessMethod, ApiConnectionMode, BuiltInAccessMethod, Provision, ProxyConfig, ProxyKind,
    SwiftAccessMethodResolver,
};
use talpid_core::boringtun::{
    create_devices, find_ipv4, find_ipv6, get_tunnel_for_userspace, get_tunnel_stats,
    set_boringtun_config, set_boringtun_entry_config, set_boringtun_exit_config, set_config,
    AllowedIp, Devices, Duplication, Preparation, SetPeer, Stats, MAX_PREPARE_TUN_ATTEMPTS,
};
use talpid_core::net::{
    AllowedClients, AllowedEndpoint, Endpoint, IpAddress, IpNetwork, SocketAddress,
    TransportProtocol,
};
use talpid_core::nsis::{
    catch_and_log_unwind, create_privileged_directory, get_system_local_appdata,
    get_system_version, path_length, BufferAnswer, Status, MAX_PATH_SIZE,
};
use talpid_core::tcpip::{
    config_interface, delete_failed, flush_dns_cache, hex, open_failed, servers_of_version,
    set_dns, set_dns_inner, string_from_guid, DnsMonitor, Error, Guid, InterfaceConfig, IoError,
    IoErrorKind,
};
use talpid_core::window::{
    message_action, next, power_broadcast_event, window_procedure, ListenerStep, MessageAction,
    PowerManagementEvent, ProcedureAction, Received, REQUEST_THREAD_SHUTDOWN, WM_DESTROY,
    WM_POWERBROADCAST,
};
use talpid_core::wireguard_config::{Config, PeerConfig, TunnelConfig};

#[test]
fn power_events_come_from_their_codes() {
    assert_eq!(
        PowerManagementEvent::try_from_winevent(0x12),
        Some(PowerManagementEvent::ResumeAutomatic)
    );
    assert_eq!(
        PowerManagementEvent::try_from_winevent(0x7),
        Some(PowerManagementEvent::ResumeSuspend)
    );
    assert_eq!(PowerManagementEvent::try_from_winevent(0x4), Some(PowerManagementEvent::Suspend));
    assert_eq!(PowerManagementEvent::try_from_winevent(0), None);
    assert_eq!(PowerManagementEvent::try_from_winevent(0x8013), None);
    // Only the low 32 bits count.
    assert_eq!(
        PowerManagementEvent::try_from_winevent(0x1_0000_0004),
        Some(PowerManagementEvent::Suspend)
    );
    assert_eq!(
        power_broadcast_event(WM_POWERBROADCAST, 0x4),
        Some(PowerManagementEvent::Suspend)
    );
    assert_eq!(power_broadcast_event(WM_POWERBROADCAST, 0x5), None);
    assert_eq!(power_broadcast_event(WM_DESTROY, 0x4), None);
}

#[test]
fn window_thread_and_procedure() {
    assert_eq!(message_action(-1, 5, 0), MessageAction::Retry);
    assert_eq!(message_action(0, 5, 0), MessageAction::Quit);
    assert_eq!(message_action(1, 0, REQUEST_THREAD_SHUTDOWN), MessageAction::DestroyWindow);
    assert_eq!(message_action(1, 0, WM_POWERBROADCAST), MessageAction::Skip);
    assert_eq!(message_action(1, 5, REQUEST_THREAD_SHUTDOWN), MessageAction::Dispatch);
    assert_eq!(REQUEST_THREAD_SHUTDOWN, 0x401);

    assert_eq!(window_procedure(WM_DESTROY, 99), ProcedureAction::PostQuit);
    assert_eq!(window_procedure(WM_POWERBROADCAST, 99), ProcedureAction::Callback);
    assert_eq!(window_procedure(WM_POWERBROADCAST, 0), ProcedureAction::Default);

    assert_eq!(
        next(Received::Event(PowerManagementEvent::Suspend)),
        ListenerStep::Yield(Some(PowerManagementEvent::Suspend))
    );
    assert_eq!(next(Received::Closed), ListenerStep::Yield(None));
    assert_eq!(next(Received::Lagged(3)), ListenerStep::WaitAgain);
}

#[test]
fn installer_paths_end_in_a_zero() {
    assert_eq!(path_length(&vec![]), None);
    assert_eq!(path_length(&vec![0]), Some(0));
    assert_eq!(path_length(&vec![67, 58, 92, 0, 88, 0]), Some(3));
    assert_eq!(path_length(&vec![67, 58, 92]), None);
    let mut long = vec![65u16; MAX_PATH_SIZE];
    long.push(0);
    assert_eq!(path_length(&long), Some(MAX_PATH_SIZE));
    let mut too_long = vec![65u16; MAX_PATH_SIZE + 1];
    too_long.push(0);
    assert_eq!(path_length(&too_long), None);

    assert_eq!(create_privileged_directory(None, true), Status::InvalidArguments);
    assert_eq!(create_privileged_directory(Some(3), true), Status::Success);
    assert_eq!(create_privileged_directory(Some(3), false), Status::OsError);
    assert_eq!(catch_and_log_unwind(Some(Status::OsError)), Status::OsError);
    assert_eq!(catch_and_log_unwind(None), Status::Panic);
}

#[test]
fn installer_buffers() {
    let invalid = BufferAnswer { status: Status::InvalidArguments, buffer_size: None, copy: false };
    assert_eq!(get_system_local_appdata(None, Some(10), true), invalid);
    assert_eq!(
        get_system_local_appdata(Some(100), None, true),
        BufferAnswer { status: Status::OsError, buffer_size: None, copy: false }
    );
    assert_eq!(
        get_system_local_appdata(Some(9), Some(10), true),
        BufferAnswer { status: Status::InsufficientBufferSize, buffer_size: Some(10), copy: false }
    );
    assert_eq!(
        get_system_local_appdata(Some(10), Some(10), false),
        BufferAnswer { status: Status::InsufficientBufferSize, buffer_size: Some(10), copy: false }
    );
    assert_eq!(
        get_system_local_appdata(Some(10), Some(10), true),
        BufferAnswer { status: Status::Success, buffer_size: Some(10), copy: true }
    );

    assert_eq!(get_system_version(None, 10, true), invalid);
    assert_eq!(
        get_system_version(Some(9), 10, true),
        BufferAnswer { status: Status::InsufficientBufferSize, buffer_size: None, copy: false }
    );
    assert_eq!(
        get_system_version(Some(10), 10, false),
        BufferAnswer { status: Status::InsufficientBufferSize, buffer_size: None, copy: false }
    );
    assert_eq!(
        get_system_version(Some(64), 10, true),
        BufferAnswer { status: Status::Success, buffer_size: Some(10), copy: true }
    );
}

fn guid() -> Guid {
    Guid {
        data1: 0x514a_3988,
        data2: 0x9716,
        data3: 0x43d5,
        data4: [0x8b, 0x05, 0x31, 0xda, 0x25, 0xa0, 0x44, 0xa9],
    }
}

#[test]
fn guid_text() {
    assert_eq!(string_from_guid(&guid()), "{514A3988-9716-43D5-8B05-31DA25A044A9}");
    assert_eq!(
        string_from_guid(&Guid { data1: 1, data2: 2, data3: 3, data4: [0; 8] }),
        "{00000001-0002-0003-0000-000000000000}"
    );
    assert_eq!(hex(0xabc, 2), "BC");
    assert_eq!(hex(0, 0), "");
    assert_eq!(hex(15, 4), "000F");
}

#[test]
fn dns_servers_go_to_the_service_of_their_version() {
    let v4a = IpAddress::v4(10, 64, 0, 1);
    let v4b = IpAddress::v4(1, 1, 1, 1);
    let v6 = IpAddress::V6(1);
    let servers = vec![v4a, v6, v4b];
    assert_eq!(servers_of_version(&servers, false), vec![v4a, v4b]);
    assert_eq!(servers_of_version(&servers, true), vec![v6]);

    let (tcpip, tcpip6) = set_dns_inner(&guid(), &servers);
    assert_eq!(
        tcpip,
        InterfaceConfig {
            path: String::from(
                "SYSTEM\\CurrentControlSet\\Services\\Tcpip\\Parameters\\Interfaces\\\
                 {514A3988-9716-43D5-8B05-31DA25A044A9}"
            ),
            name_server: Some(String::from("10.64.0.1,1.1.1.1")),
        }
    );
    assert_eq!(
        tcpip6,
        InterfaceConfig {
            path: String::from(
                "SYSTEM\\CurrentControlSet\\Services\\Tcpip6\\Parameters\\Interfaces\\\
                 {514A3988-9716-43D5-8B05-31DA25A044A9}"
            ),
            name_server: Some(String::from("::1")),
        }
    );

    let (tcpip, tcpip6) = set_dns_inner(&guid(), &vec![v4a]);
    assert_eq!(tcpip.name_server, Some(String::from("10.64.0.1")));
    assert_eq!(tcpip6.name_server, None);
    assert_eq!(config_interface("{g}", "Tcpip", &vec![]).name_server, None);
    assert_eq!(
        config_interface("{g}", "Tcpip", &vec![]).path,
        "SYSTEM\\CurrentControlSet\\Services\\Tcpip\\Parameters\\Interfaces\\{g}"
    );
}

#[test]
fn registry_failures() {
    let not_found = IoError { kind: IoErrorKind::NotFound, code: Some(2) };
    let denied = IoError { kind: IoErrorKind::Other, code: Some(5) };
    let remove = config_interface("{g}", "Tcpip", &vec![]);
    let write = config_interface("{g}", "Tcpip", &vec![IpAddress::v4(1, 1, 1, 1)]);
    assert_eq!(open_failed(&remove, not_found), Ok(()));
    assert_eq!(open_failed(&remove, denied), Err(denied));
    assert_eq!(open_failed(&write, not_found), Err(not_found));
    assert_eq!(delete_failed(not_found), Ok(()));
    assert_eq!(delete_failed(denied), Err(denied));

    assert_eq!(set_dns(Ok(()), Ok(())), Ok(()));
    assert_eq!(set_dns(Err(denied), Ok(())), Err(Error::SetResolvers(denied)));
    assert_eq!(set_dns(Ok(()), Err(not_found)), Err(Error::SetResolvers(not_found)));
    assert_eq!(set_dns(Err(denied), Err(not_found)), Err(Error::SetResolvers(not_found)));
    assert_eq!(flush_dns_cache(None), Ok(()));
    assert_eq!(flush_dns_cache(Some(87)), Err(Error::FlushResolverCache(87)));
}

#[test]
fn dns_monitor_remembers_the_interface() {
    let mut monitor = DnsMonitor::new().unwrap();
    assert_eq!(monitor, DnsMonitor { current_guid: None, should_flush: true });
    assert_eq!(monitor.reset(), None);

    let failure = Error::SetResolvers(IoError { kind: IoErrorKind::Other, code: None });
    assert_eq!(monitor.set(guid(), Err(failure)), Err(failure));
    assert_eq!(monitor.current_guid, None);

    assert_eq!(monitor.set(guid(), Ok(())), Ok(true));
    assert_eq!(monitor.current_guid, Some(guid()));
    assert_eq!(monitor.reset(), Some((guid(), true)));
    assert_eq!(monitor.current_guid, None);

    monitor.disable_flushing();
    assert_eq!(monitor.set(guid(), Ok(())), Ok(false));
    assert_eq!(monitor.reset(), Some((guid(), false)));

    assert_eq!(DnsMonitor::reset_outcome(Ok(()), None), Ok(()));
    assert_eq!(DnsMonitor::reset_outcome(Ok(()), Some(Ok(()))), Ok(()));
    assert_eq!(DnsMonitor::reset_outcome(Err(failure), Some(Ok(()))), Err(failure));
    assert_eq!(
        DnsMonitor::reset_outcome(Ok(()), Some(Err(Error::FlushResolverCache(1)))),
        Err(Error::FlushResolverCache(1))
    );
    assert_eq!(
        DnsMonitor::reset_outcome(Err(failure), Some(Err(Error::FlushResolverCache(1)))),
        Err(failure)
    );
}

fn peer(key: u8, psk: Option<[u8; 32]>) -> PeerConfig {
    PeerConfig {
        public_key: [key; 32],
        allowed_ips: vec![
            IpNetwork::new(IpAddress::v4(0, 0, 0, 0), 0).unwrap(),
            IpNetwork::new(IpAddress::V6(0), 0).unwrap(),
        ],
        endpoint: SocketAddress { ip: IpAddress::v4(185, 213, 154, 68), port: 51820 },
        psk,
        constant_packet_size: false,
    }
}

fn config(exit: bool) -> Config {
    Config {
        tunnel: TunnelConfig {
            private_key: [1; 32],
            addresses: vec![IpAddress::V6(7), IpAddress::v4(10, 64, 0, 2), IpAddress::V6(8)],
        },
        entry_peer: peer(2, Some([4; 32])),
        exit_peer: if exit { Some(peer(3, None)) } else { None },
        ipv4_gateway: 0x0a40_0001,
        ipv6_gateway: None,
        mtu: 1380,
        fwmark: Some(0x6d6f6c65),
    }
}

fn set_peer_of(key: u8, psk: Option<[u8; 32]>) -> SetPeer {
    SetPeer {
        public_key: [key; 32],
        endpoint: SocketAddress { ip: IpAddress::v4(185, 213, 154, 68), port: 51820 },
        allowed_ips: vec![
            AllowedIp { addr: IpAddress::v4(0, 0, 0, 0), cidr: 0 },
            AllowedIp { addr: IpAddress::V6(0), cidr: 0 },
        ],
        preshared_key: psk,
    }
}

#[test]
fn userspace_devices_are_told_their_peers() {
    let single = set_boringtun_config(&config(false));
    assert_eq!(single.private_key, [1; 32]);
    assert_eq!(single.listen_port, 0);
    assert!(single.replace_peers);
    assert_eq!(single.fwmark, Some(0x6d6f6c65));
    assert_eq!(single.peers, vec![set_peer_of(2, Some([4; 32]))]);

    let both = set_boringtun_config(&config(true));
    assert_eq!(both.peers, vec![set_peer_of(3, None), set_peer_of(2, Some([4; 32]))]);
    assert_eq!(config(true).peers().len(), 2);
    assert_eq!(config(true).peers()[0].public_key, [3; 32]);

    let entry = set_boringtun_entry_config(&config(true));
    assert_eq!(entry.peers, vec![set_peer_of(2, Some([4; 32]))]);
    let exit = set_boringtun_exit_config(&config(true));
    assert_eq!(exit.peers, vec![set_peer_of(3, None)]);
    assert_eq!(exit.private_key, [1; 32]);
}

#[test]
fn userspace_device_layout() {
    assert_eq!(create_devices(&config(false)), Devices::Singlehop);
    assert_eq!(
        create_devices(&config(true)),
        Devices::Multihop { source_v4: 0x0a40_0002, source_v6: 7 }
    );
    let mut bare = config(true);
    bare.tunnel.addresses.clear();
    assert_eq!(create_devices(&bare), Devices::Multihop { source_v4: 0, source_v6: 0 });
    assert_eq!(find_ipv4(&vec![IpAddress::V6(1)]), None);
    assert_eq!(find_ipv6(&vec![IpAddress::V6(1), IpAddress::V6(2)]), Some(1));

    assert!(set_config(&config(false), &config(true)));
    assert!(set_config(&config(true), &config(false)));
    assert!(!set_config(&config(true), &config(true)));
    assert!(!set_config(&config(false), &config(false)));
    assert!(config(true).is_multihop());
    assert!(config(true).has_ipv6());
    assert!(!bare.has_ipv6());

    assert_eq!(get_tunnel_stats(Some(5), None), Stats { tx_bytes: 5, rx_bytes: 0 });
    assert_eq!(get_tunnel_stats(None, Some(9)), Stats { tx_bytes: 0, rx_bytes: 9 });
}

#[test]
fn tunnel_device_is_opened_again_for_a_bad_descriptor() {
    assert_eq!(MAX_PREPARE_TUN_ATTEMPTS, 4);
    assert_eq!(get_tunnel_for_userspace(1, Duplication::Duplicated(7)), Preparation::Ready(7));
    for attempt in 1..4 {
        assert_eq!(
            get_tunnel_for_userspace(attempt, Duplication::BadDescriptor(9)),
            Preparation::OpenAgain
        );
    }
    assert_eq!(
        get_tunnel_for_userspace(4, Duplication::BadDescriptor(9)),
        Preparation::GiveUp(9)
    );
    assert_eq!(get_tunnel_for_userspace(1, Duplication::Failed(24)), Preparation::GiveUp(24));
}

#[test]
fn access_methods_resolve_to_endpoint_and_mode() {
    let api = SocketAddress { ip: IpAddress::v4(45, 83, 223, 196), port: 443 };
    let resolver = SwiftAccessMethodResolver::new(api, String::from("frakta.eu"));
    let proxy = ProxyConfig {
        kind: ProxyKind::Shadowsocks,
        endpoint: Endpoint::new(IpAddress::v4(1, 2, 3, 4), 443, TransportProtocol::Tcp),
    };
    let direct = AccessMethod::BuiltIn(BuiltInAccessMethod::Direct);
    let bridge = AccessMethod::BuiltIn(BuiltInAccessMethod::Bridge);
    let edp = AccessMethod::BuiltIn(BuiltInAccessMethod::EncryptedDnsProxy);
    let custom = AccessMethod::Custom(proxy);

    assert_eq!(SwiftAccessMethodResolver::provision(&direct), Provision::Nothing);
    assert_eq!(SwiftAccessMethodResolver::provision(&bridge), Provision::Bridge);
    assert_eq!(SwiftAccessMethodResolver::provision(&edp), Provision::EncryptedDnsProxy);
    assert_eq!(SwiftAccessMethodResolver::provision(&custom), Provision::Nothing);

    let through_api = AllowedEndpoint {
        endpoint: Endpoint { address: api, protocol: TransportProtocol::Tcp },
        clients: AllowedClients::All,
    };
    let through_proxy = AllowedEndpoint { endpoint: proxy.endpoint, clients: AllowedClients::All };
    assert_eq!(
        resolver.resolve_access_method_setting(&direct, None),
        Some((through_api, ApiConnectionMode::Direct))
    );
    assert_eq!(
        resolver.resolve_access_method_setting(&direct, Some(proxy)),
        Some((through_api, ApiConnectionMode::Direct))
    );
    assert_eq!(resolver.resolve_access_method_setting(&bridge, None), None);
    assert_eq!(resolver.resolve_access_method_setting(&edp, None), None);
    assert_eq!(
        resolver.resolve_access_method_setting(&bridge, Some(proxy)),
        Some((through_proxy, ApiConnectionMode::Proxied(proxy)))
    );
    assert_eq!(
        resolver.resolve_access_method_setting(&custom, None),
        Some((through_proxy, ApiConnectionMode::Proxied(proxy)))
    );
    assert_eq!(SwiftAccessMethodResolver::default_connection_mode(api), through_api);
    assert_eq!(ApiConnectionMode::Direct.get_endpoint(), None);
    assert_eq!(ApiConnectionMode::Proxied(proxy).get_endpoint(), Some(proxy.endpoint));
}
