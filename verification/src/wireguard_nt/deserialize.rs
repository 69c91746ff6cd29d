//! What is read from the bytes that the driver gives: the records of a
//! configuration, one after the other.

use super::bytes::{
    from_be128, from_be16, from_be32, read_be128, read_be16, read_be32, read_key, read_u16,
    read_u32, read_u64,
};
use super::{
    allowed_ip_fault, Error, SockAddrInet, WgAllowedIp, WgAllowedIpView, WgInterface,
    WgInterfaceView, WgIpAddr, WgPeer, WgPeerView, AF_INET, AF_INET6, SOCKADDR_INET_SIZE,
    WG_ALLOWED_IP_SIZE, WG_INTERFACE_SIZE, WG_PEER_SIZE,
};
use vstd::bytes::{spec_u16_from_le_bytes, spec_u32_from_le_bytes, spec_u64_from_le_bytes};
use vstd::prelude::*;

verus! {


impl WgAllowedIp {
    /// The allowed IP that the 24 bytes of `bytes` from `offset` on hold.
    fn decode(bytes: &[u8], offset: usize) -> (r: Option<WgAllowedIp>)
        requires
            offset + WG_ALLOWED_IP_SIZE <= bytes@.len(),
        ensures
            match r {
                Some(allowed_ip) => WgAllowedIpView::parse(
                    bytes@.subrange(offset as int, offset + WG_ALLOWED_IP_SIZE),
                ) == Some(allowed_ip@),
                None => WgAllowedIpView::parse(
                    bytes@.subrange(offset as int, offset + WG_ALLOWED_IP_SIZE),
                ) is None,
            },
    {
        let ghost record = bytes@.subrange(offset as int, offset + WG_ALLOWED_IP_SIZE);
        let length = bytes.len();
        proof {
            assert(record.subrange(0, 16) == bytes@.subrange(offset as int, offset + 16));
            assert(record.subrange(16, 18) == bytes@.subrange(offset + 16, offset + 18));
            assert(record[18] == bytes@[offset + 18]);
        }
        let address = WgIpAddr { bits: read_be128(bytes, offset) };
        let address_family = read_u16(bytes, offset + 16);
        let cidr = bytes[offset + 18];
        match WgAllowedIp::new(address, address_family, cidr) {
            Ok(allowed_ip) => Some(allowed_ip),
            Err(_) => None,
        }
    }
}

impl SockAddrInet {
    /// The address that 28 bytes hold; `None` where their family is
    /// neither that of IPv4 nor that of IPv6.
    pub open spec fn parse(bytes: Seq<u8>) -> Option<SockAddrInet> {
        let family = spec_u16_from_le_bytes(bytes.subrange(0, 2));
        if family == AF_INET {
            Some(
                SockAddrInet::V4 {
                    address: from_be32(bytes.subrange(4, 8)),
                    port: from_be16(bytes.subrange(2, 4)),
                },
            )
        } else if family == AF_INET6 {
            Some(
                SockAddrInet::V6 {
                    address: from_be128(bytes.subrange(8, 24)),
                    port: from_be16(bytes.subrange(2, 4)),
                    flowinfo: spec_u32_from_le_bytes(bytes.subrange(4, 8)),
                    scope_id: spec_u32_from_le_bytes(bytes.subrange(24, 28)),
                },
            )
        } else {
            None
        }
    }

    /// The address that the 28 bytes of `bytes` from `offset` on hold.
    fn decode(bytes: &[u8], offset: usize) -> (r: Option<SockAddrInet>)
        requires
            offset + SOCKADDR_INET_SIZE <= bytes@.len(),
        ensures
            r == SockAddrInet::parse(bytes@.subrange(offset as int, offset + SOCKADDR_INET_SIZE)),
    {
        let ghost record = bytes@.subrange(offset as int, offset + SOCKADDR_INET_SIZE);
        let length = bytes.len();
        proof {
            assert(record.subrange(0, 2) == bytes@.subrange(offset as int, offset + 2));
            assert(record.subrange(2, 4) == bytes@.subrange(offset + 2, offset + 4));
            assert(record.subrange(4, 8) == bytes@.subrange(offset + 4, offset + 8));
            assert(record.subrange(8, 24) == bytes@.subrange(offset + 8, offset + 24));
            assert(record.subrange(24, 28) == bytes@.subrange(offset + 24, offset + 28));
        }
        let family = read_u16(bytes, offset);
        if family == AF_INET {
            Some(
                SockAddrInet::V4 {
                    address: read_be32(bytes, offset + 4),
                    port: read_be16(bytes, offset + 2),
                },
            )
        } else if family == AF_INET6 {
            Some(
                SockAddrInet::V6 {
                    address: read_be128(bytes, offset + 8),
                    port: read_be16(bytes, offset + 2),
                    flowinfo: read_u32(bytes, offset + 4),
                    scope_id: read_u32(bytes, offset + 24),
                },
            )
        } else {
            None
        }
    }
}

impl WgInterface {
    /// The interface record that the first 80 bytes of `bytes` hold.
    fn decode(bytes: &[u8]) -> (r: WgInterface)
        requires
            WG_INTERFACE_SIZE <= bytes@.len(),
        ensures
            r@ == WgInterfaceView::parse(bytes@.take(WG_INTERFACE_SIZE as int)),
    {
        let ghost record = bytes@.take(WG_INTERFACE_SIZE as int);
        proof {
            assert(record.subrange(0, 4) == bytes@.subrange(0, 4));
            assert(record.subrange(4, 6) == bytes@.subrange(4, 6));
            assert(record.subrange(6, 38) == bytes@.subrange(6, 38));
            assert(record.subrange(38, 70) == bytes@.subrange(38, 70));
            assert(record.subrange(72, 76) == bytes@.subrange(72, 76));
        }
        WgInterface {
            flags: read_u32(bytes, 0),
            listen_port: read_u16(bytes, 4),
            private_key: read_key(bytes, 6),
            public_key: read_key(bytes, 38),
            peers_count: read_u32(bytes, 72),
        }
    }
}

impl WgPeer {
    /// The peer record that the 136 bytes of `bytes` from `offset` on hold.
    #[verifier::rlimit(40)]
    fn decode(bytes: &[u8], offset: usize) -> (r: Option<WgPeer>)
        requires
            offset + WG_PEER_SIZE <= bytes@.len(),
        ensures
            match r {
                Some(peer) => WgPeerView::parse(
                    bytes@.subrange(offset as int, offset + WG_PEER_SIZE),
                ) == Some(peer@),
                None => WgPeerView::parse(bytes@.subrange(offset as int, offset + WG_PEER_SIZE))
                    is None,
            },
    {
        let ghost record = bytes@.subrange(offset as int, offset + WG_PEER_SIZE);
        let length = bytes.len();
        proof {
            assert(record.subrange(0, 4) == bytes@.subrange(offset as int, offset + 4));
            assert(record.subrange(4, 8) == bytes@.subrange(offset + 4, offset + 8));
            assert(record.subrange(8, 40) == bytes@.subrange(offset + 8, offset + 40));
            assert(record.subrange(40, 72) == bytes@.subrange(offset + 40, offset + 72));
            assert(record.subrange(72, 74) == bytes@.subrange(offset + 72, offset + 74));
            assert(record.subrange(76, 104) == bytes@.subrange(offset + 76, offset + 104));
            assert(record.subrange(104, 112) == bytes@.subrange(offset + 104, offset + 112));
            assert(record.subrange(112, 120) == bytes@.subrange(offset + 112, offset + 120));
            assert(record.subrange(120, 128) == bytes@.subrange(offset + 120, offset + 128));
            assert(record.subrange(128, 132) == bytes@.subrange(offset + 128, offset + 132));
            assert(record[132] == bytes@[offset + 132]);
        }
        let endpoint = match SockAddrInet::decode(bytes, offset + 76) {
            Some(endpoint) => endpoint,
            None => {
                return None;
            },
        };
        Some(
            WgPeer {
                flags: read_u32(bytes, offset),
                reserved: read_u32(bytes, offset + 4),
                public_key: read_key(bytes, offset + 8),
                preshared_key: read_key(bytes, offset + 40),
                persistent_keepalive: read_u16(bytes, offset + 72),
                endpoint,
                tx_bytes: read_u64(bytes, offset + 104),
                rx_bytes: read_u64(bytes, offset + 112),
                last_handshake: read_u64(bytes, offset + 120),
                allowed_ips_count: read_u32(bytes, offset + 128),
                constant_packet_size: bytes[offset + 132],
            },
        )
    }
}

impl WgAllowedIpView {
    /// The allowed IP that 24 bytes hold; `None` where they hold none: the
    /// family is unknown, the prefix is too long, or the address has a bit
    /// set below the prefix.
    pub open spec fn parse(bytes: Seq<u8>) -> Option<WgAllowedIpView> {
        let address = WgIpAddr { bits: from_be128(bytes.subrange(0, 16)) };
        let address_family = spec_u16_from_le_bytes(bytes.subrange(16, 18));
        let cidr = bytes[18];
        if allowed_ip_fault(address, address_family, cidr) is None {
            Some(WgAllowedIpView { address, address_family, cidr })
        } else {
            None
        }
    }
}

impl WgInterfaceView {
    /// The interface record that 80 bytes hold.
    pub open spec fn parse(bytes: Seq<u8>) -> WgInterfaceView {
        WgInterfaceView {
            flags: spec_u32_from_le_bytes(bytes.subrange(0, 4)),
            listen_port: spec_u16_from_le_bytes(bytes.subrange(4, 6)),
            private_key: bytes.subrange(6, 38),
            public_key: bytes.subrange(38, 70),
            peers_count: spec_u32_from_le_bytes(bytes.subrange(72, 76)),
        }
    }
}

impl WgPeerView {
    /// The peer record that 136 bytes hold; `None` where the family of its
    /// endpoint is neither that of IPv4 nor that of IPv6.
    pub open spec fn parse(bytes: Seq<u8>) -> Option<WgPeerView> {
        match SockAddrInet::parse(bytes.subrange(76, 104)) {
            Some(endpoint) => Some(
                WgPeerView {
                    flags: spec_u32_from_le_bytes(bytes.subrange(0, 4)),
                    reserved: spec_u32_from_le_bytes(bytes.subrange(4, 8)),
                    public_key: bytes.subrange(8, 40),
                    preshared_key: bytes.subrange(40, 72),
                    persistent_keepalive: spec_u16_from_le_bytes(bytes.subrange(72, 74)),
                    endpoint,
                    tx_bytes: spec_u64_from_le_bytes(bytes.subrange(104, 112)),
                    rx_bytes: spec_u64_from_le_bytes(bytes.subrange(112, 120)),
                    last_handshake: spec_u64_from_le_bytes(bytes.subrange(120, 128)),
                    allowed_ips_count: spec_u32_from_le_bytes(bytes.subrange(128, 132)),
                    constant_packet_size: bytes[132],
                },
            ),
            None => None,
        }
    }
}

/// The allowed IPs that `bytes` begin with, `count` of them, and the bytes
/// after them; `None` where the bytes end too early or hold a record that
/// is no allowed IP.
#[verifier::opaque]
pub open spec fn parse_allowed_ips(bytes: Seq<u8>, count: nat) -> Option<
    (Seq<WgAllowedIpView>, Seq<u8>),
>
    decreases count,
{
    if count == 0 {
        Some((Seq::empty(), bytes))
    } else if bytes.len() < WG_ALLOWED_IP_SIZE {
        None
    } else {
        match WgAllowedIpView::parse(bytes.take(WG_ALLOWED_IP_SIZE as int)) {
            None => None,
            Some(first) => match parse_allowed_ips(
                bytes.skip(WG_ALLOWED_IP_SIZE as int),
                (count - 1) as nat,
            ) {
                None => None,
                Some((more, rest)) => Some((seq![first] + more, rest)),
            },
        }
    }
}

/// The peers that `bytes` begin with, `count` of them, each with its
/// allowed IPs, and the bytes after them; `None` where the bytes end too
/// early or hold a record that is no peer or no allowed IP.
#[verifier::opaque]
pub open spec fn parse_peers(bytes: Seq<u8>, count: nat) -> Option<
    (Seq<(WgPeerView, Seq<WgAllowedIpView>)>, Seq<u8>),
>
    decreases count,
{
    if count == 0 {
        Some((Seq::empty(), bytes))
    } else if bytes.len() < WG_PEER_SIZE {
        None
    } else {
        match WgPeerView::parse(bytes.take(WG_PEER_SIZE as int)) {
            None => None,
            Some(peer) => match parse_allowed_ips(
                bytes.skip(WG_PEER_SIZE as int),
                peer.allowed_ips_count as nat,
            ) {
                None => None,
                Some((allowed_ips, after)) => match parse_peers(after, (count - 1) as nat) {
                    None => None,
                    Some((more, rest)) => Some((seq![(peer, allowed_ips)] + more, rest)),
                },
            },
        }
    }
}

/// The configuration that `bytes` hold: an interface record, then as many
/// peers as the record says, each followed by as many allowed IPs as its
/// record says, and nothing after them; `None` where `bytes` hold no such
/// thing.
#[verifier::opaque]
pub open spec fn parse_config(bytes: Seq<u8>) -> Option<
    (WgInterfaceView, Seq<(WgPeerView, Seq<WgAllowedIpView>)>),
> {
    if bytes.len() < WG_INTERFACE_SIZE {
        None
    } else {
        let interface = WgInterfaceView::parse(bytes.take(WG_INTERFACE_SIZE as int));
        match parse_peers(bytes.skip(WG_INTERFACE_SIZE as int), interface.peers_count as nat) {
            Some((peers, rest)) => if rest.len() == 0 {
                Some((interface, peers))
            } else {
                None
            },
            None => None,
        }
    }
}

/// The values of allowed IPs.
pub open spec fn allowed_ips_view(allowed_ips: Seq<WgAllowedIp>) -> Seq<WgAllowedIpView> {
    allowed_ips.map_values(|allowed_ip: WgAllowedIp| allowed_ip@)
}

/// The values of peers with their allowed IPs.
pub open spec fn peers_view(peers: Seq<(WgPeer, Vec<WgAllowedIp>)>) -> Seq<
    (WgPeerView, Seq<WgAllowedIpView>),
> {
    peers.map_values(|peer: (WgPeer, Vec<WgAllowedIp>)| (peer.0@, allowed_ips_view(peer.1@)))
}

/// What was parsed before, followed by what is parsed next.
pub open spec fn after<T>(done: Seq<T>, next: Option<(Seq<T>, Seq<u8>)>) -> Option<
    (Seq<T>, Seq<u8>),
> {
    match next {
        Some((more, rest)) => Some((done + more, rest)),
        None => None,
    }
}

/// The allowed IPs that follow a peer record in `bytes` from `start` on,
/// `count` of them, and the offset after them.
#[verifier::rlimit(40)]
fn deserialize_allowed_ips(bytes: &[u8], start: usize, count: u32) -> (r: Option<
    (Vec<WgAllowedIp>, usize),
>)
    requires
        start <= bytes@.len(),
    ensures
        match r {
            Some((allowed_ips, end)) => {
                &&& start <= end <= bytes@.len()
                &&& parse_allowed_ips(bytes@.skip(start as int), count as nat) == Some(
                    (allowed_ips_view(allowed_ips@), bytes@.skip(end as int)),
                )
            },
            None => parse_allowed_ips(bytes@.skip(start as int), count as nat) is None,
        },
{
    proof {
        reveal(parse_allowed_ips);
    }
    let mut allowed_ips: Vec<WgAllowedIp> = Vec::new();
    let mut offset: usize = start;
    let mut i: u32 = 0;
    proof {
        assert(Seq::<WgAllowedIpView>::empty() + allowed_ips_view(allowed_ips@)
            =~= allowed_ips_view(allowed_ips@));
        let all = parse_allowed_ips(bytes@.skip(start as int), count as nat);
        assert(after(allowed_ips_view(allowed_ips@), all) == all) by {
            if let Some((more, rest)) = all {
                assert(allowed_ips_view(allowed_ips@) + more =~= more);
            }
        }
    }
    while i < count
        invariant
            i <= count,
            start <= offset <= bytes@.len(),
            parse_allowed_ips(bytes@.skip(start as int), count as nat) == after(
                allowed_ips_view(allowed_ips@),
                parse_allowed_ips(bytes@.skip(offset as int), (count - i) as nat),
            ),
        decreases count - i,
    {
        let ghost rest = bytes@.skip(offset as int);
        proof {
            reveal(parse_allowed_ips);
        }
        if bytes.len() - offset < WG_ALLOWED_IP_SIZE {
            return None;
        }
        proof {
            assert(rest.take(WG_ALLOWED_IP_SIZE as int) == bytes@.subrange(
                offset as int,
                offset + WG_ALLOWED_IP_SIZE,
            ));
            assert(rest.skip(WG_ALLOWED_IP_SIZE as int) == bytes@.skip(
                offset + WG_ALLOWED_IP_SIZE,
            ));
        }
        let allowed_ip = match WgAllowedIp::decode(bytes, offset) {
            Some(allowed_ip) => allowed_ip,
            None => {
                return None;
            },
        };
        proof {
            let done = allowed_ips_view(allowed_ips@);
            let next = parse_allowed_ips(
                bytes@.skip(offset + WG_ALLOWED_IP_SIZE),
                (count - i - 1) as nat,
            );
            assert(allowed_ips_view(allowed_ips@.push(allowed_ip)) =~= done.push(allowed_ip@));
            if let Some((more, tail)) = next {
                assert(done + (seq![allowed_ip@] + more) =~= done.push(allowed_ip@) + more);
            }
        }
        allowed_ips.push(allowed_ip);
        offset += WG_ALLOWED_IP_SIZE;
        i += 1;
    }
    proof {
        assert(allowed_ips_view(allowed_ips@) + Seq::<WgAllowedIpView>::empty()
            =~= allowed_ips_view(allowed_ips@));
    }
    Some((allowed_ips, offset))
}

/// The configuration that `config` holds, as the driver gives it: the
/// interface record and the peers with their allowed IPs.
#[verifier::rlimit(40)]
pub fn deserialize_config(config: &[u8]) -> (r: Result<
    (WgInterface, Vec<(WgPeer, Vec<WgAllowedIp>)>),
    Error,
>)
    ensures
        match r {
            Ok((interface, peers)) => parse_config(config@) == Some(
                (interface@, peers_view(peers@)),
            ),
            Err(error) => error == Error::InvalidConfigData && parse_config(config@) is None,
        },
{
    proof {
        reveal(parse_peers);
        reveal(parse_config);
    }
    if config.len() < WG_INTERFACE_SIZE {
        return Err(Error::InvalidConfigData);
    }
    let interface = WgInterface::decode(config);
    let count: u32 = interface.peers_count;
    let mut peers: Vec<(WgPeer, Vec<WgAllowedIp>)> = Vec::new();
    let mut offset: usize = WG_INTERFACE_SIZE;
    let mut i: u32 = 0;
    proof {
        let all = parse_peers(config@.skip(WG_INTERFACE_SIZE as int), count as nat);
        assert(peers_view(peers@) =~= Seq::empty());
        assert(after(peers_view(peers@), all) == all) by {
            if let Some((more, rest)) = all {
                assert(peers_view(peers@) + more =~= more);
            }
        }
    }
    while i < count
        invariant
            i <= count,
            WG_INTERFACE_SIZE <= offset <= config@.len(),
            interface@ == WgInterfaceView::parse(config@.take(WG_INTERFACE_SIZE as int)),
            count == interface.peers_count,
            parse_peers(config@.skip(WG_INTERFACE_SIZE as int), count as nat) == after(
                peers_view(peers@),
                parse_peers(config@.skip(offset as int), (count - i) as nat),
            ),
        decreases count - i,
    {
        let ghost rest = config@.skip(offset as int);
        proof {
            reveal(parse_peers);
            reveal(parse_config);
        }
        if config.len() - offset < WG_PEER_SIZE {
            return Err(Error::InvalidConfigData);
        }
        proof {
            assert(rest.take(WG_PEER_SIZE as int) == config@.subrange(
                offset as int,
                offset + WG_PEER_SIZE,
            ));
            assert(rest.skip(WG_PEER_SIZE as int) == config@.skip(offset + WG_PEER_SIZE));
        }
        let peer = match WgPeer::decode(config, offset) {
            Some(peer) => peer,
            None => {
                return Err(Error::InvalidConfigData);
            },
        };
        let (allowed_ips, end) = match deserialize_allowed_ips(
            config,
            offset + WG_PEER_SIZE,
            peer.allowed_ips_count,
        ) {
            Some(parsed) => parsed,
            None => {
                return Err(Error::InvalidConfigData);
            },
        };
        proof {
            let done = peers_view(peers@);
            let entry = (peer@, allowed_ips_view(allowed_ips@));
            let next = parse_peers(config@.skip(end as int), (count - i - 1) as nat);
            assert(peers_view(peers@.push((peer, allowed_ips))) =~= done.push(entry));
            if let Some((more, tail)) = next {
                assert(done + (seq![entry] + more) =~= done.push(entry) + more);
            }
        }
        peers.push((peer, allowed_ips));
        offset = end;
        i += 1;
    }
    proof {
        assert(peers_view(peers@) + Seq::empty() =~= peers_view(peers@));
        assert(config@.skip(offset as int).len() == config@.len() - offset);
    }
    if offset != config.len() {
        return Err(Error::InvalidConfigData);
    }
    Ok((interface, peers))
}

} // verus!
