//! What the state machine knows of a tunnel: the parameters of an attempt,
//! the facts a running tunnel reports, the events it sends and the reasons
//! for which it fails.

use crate::net::{AllowedTunnelTraffic, Endpoint, IpAddress};
use vstd::prelude::*;

verus! {

#[derive(Clone, Copy, Debug, PartialEq, Eq, Structural)]
pub enum TunnelType {
    OpenVpn,
    Wireguard,
}

/// A proxy that an OpenVPN tunnel goes through.
#[derive(Clone, Copy, Debug, PartialEq, Eq, Structural)]
pub struct ProxyEndpoint {
    /// The remote end of the proxy.
    pub endpoint: Endpoint,
    /// Whether the proxy client runs on this host as a process of its own.
    pub local: bool,
}

/// The parameters of one connection attempt.
#[derive(Clone, Copy, Debug, PartialEq, Eq, Structural)]
pub enum TunnelParameters {
    OpenVpn { endpoint: Endpoint, proxy: Option<ProxyEndpoint> },
    Wireguard { endpoint: Endpoint, obfuscation: Option<Endpoint> },
}

/// The public description of where a tunnel leads.
#[derive(Clone, Copy, Debug, PartialEq, Eq, Structural)]
pub struct TunnelEndpoint {
    pub endpoint: Endpoint,
    pub tunnel_type: TunnelType,
    pub proxy: Option<Endpoint>,
    pub obfuscation: Option<Endpoint>,
}

impl TunnelParameters {
    pub open spec fn tunnel_endpoint(self) -> TunnelEndpoint {
        match self {
            TunnelParameters::OpenVpn { endpoint, proxy } => TunnelEndpoint {
                endpoint,
                tunnel_type: TunnelType::OpenVpn,
                proxy: match proxy {
                    Some(proxy) => Some(proxy.endpoint),
                    None => None,
                },
                obfuscation: None,
            },
            TunnelParameters::Wireguard { endpoint, obfuscation } => TunnelEndpoint {
                endpoint,
                tunnel_type: TunnelType::Wireguard,
                proxy: None,
                obfuscation,
            },
        }
    }

    /// The first host that packets of the tunnel are sent to: the proxy or
    /// the obfuscator where there is one, the tunnel server else.
    pub open spec fn next_hop_endpoint(self) -> Endpoint {
        match self {
            TunnelParameters::OpenVpn { endpoint, proxy } => match proxy {
                Some(proxy) => proxy.endpoint,
                None => endpoint,
            },
            TunnelParameters::Wireguard { endpoint, obfuscation } => match obfuscation {
                Some(obfuscator) => obfuscator,
                None => endpoint,
            },
        }
    }

    /// The proxy of an OpenVPN tunnel, if it runs as a local process.
    pub open spec fn openvpn_local_proxy_settings(self) -> Option<ProxyEndpoint> {
        match self {
            TunnelParameters::OpenVpn { proxy: Some(proxy), .. } => if proxy.local {
                Some(proxy)
            } else {
                None
            },
            _ => None,
        }
    }

    pub fn get_tunnel_endpoint(&self) -> (r: TunnelEndpoint)
        ensures
            r == self.tunnel_endpoint(),
    {
        match self {
            TunnelParameters::OpenVpn { endpoint, proxy } => TunnelEndpoint {
                endpoint: *endpoint,
                tunnel_type: TunnelType::OpenVpn,
                proxy: match proxy {
                    Some(proxy) => Some(proxy.endpoint),
                    None => None,
                },
                obfuscation: None,
            },
            TunnelParameters::Wireguard { endpoint, obfuscation } => TunnelEndpoint {
                endpoint: *endpoint,
                tunnel_type: TunnelType::Wireguard,
                proxy: None,
                obfuscation: *obfuscation,
            },
        }
    }

    pub fn get_next_hop_endpoint(&self) -> (r: Endpoint)
        ensures
            r == self.next_hop_endpoint(),
    {
        match self {
            TunnelParameters::OpenVpn { endpoint, proxy } => match proxy {
                Some(proxy) => proxy.endpoint,
                None => *endpoint,
            },
            TunnelParameters::Wireguard { endpoint, obfuscation } => match obfuscation {
                Some(obfuscator) => *obfuscator,
                None => *endpoint,
            },
        }
    }

    pub fn get_openvpn_local_proxy_settings(&self) -> (r: Option<ProxyEndpoint>)
        ensures
            r == self.openvpn_local_proxy_settings(),
    {
        match self {
            TunnelParameters::OpenVpn { endpoint: _, proxy: Some(proxy) } => {
                if proxy.local {
                    Some(*proxy)
                } else {
                    None
                }
            },
            _ => None,
        }
    }
}

/// Facts that a tunnel reports once its interface exists.
#[derive(Debug, PartialEq, Eq)]
pub struct TunnelMetadata {
    /// The name of the tunnel interface.
    pub interface: String,
    /// The addresses assigned to the interface.
    pub ips: Vec<IpAddress>,
    /// The IPv4 gateway inside the tunnel, as the number its bytes spell.
    pub ipv4_gateway: u32,
    /// The IPv6 gateway inside the tunnel, if there is one.
    pub ipv6_gateway: Option<u128>,
}

/// The mathematical value of a [`TunnelMetadata`].
pub ghost struct TunnelMetadataView {
    pub interface: Seq<char>,
    pub ips: Seq<IpAddress>,
    pub ipv4_gateway: u32,
    pub ipv6_gateway: Option<u128>,
}

impl View for TunnelMetadata {
    type V = TunnelMetadataView;

    open spec fn view(&self) -> TunnelMetadataView {
        TunnelMetadataView {
            interface: self.interface@,
            ips: self.ips@,
            ipv4_gateway: self.ipv4_gateway,
            ipv6_gateway: self.ipv6_gateway,
        }
    }
}

/// A copy of a list of addresses.
pub fn clone_addresses(addresses: &Vec<IpAddress>) -> (r: Vec<IpAddress>)
    ensures
        r@ == addresses@,
{
    let mut copy: Vec<IpAddress> = Vec::new();
    let mut i: usize = 0;
    while i < addresses.len()
        invariant
            i <= addresses.len(),
            copy@ == addresses@.take(i as int),
        decreases addresses.len() - i,
    {
        copy.push(addresses[i]);
        i += 1;
    }
    copy
}

impl Clone for TunnelMetadata {
    fn clone(&self) -> (r: Self)
        ensures
            r@ == self@,
    {
        TunnelMetadata {
            interface: self.interface.clone(),
            ips: clone_addresses(&self.ips),
            ipv4_gateway: self.ipv4_gateway,
            ipv6_gateway: self.ipv6_gateway,
        }
    }
}

/// The view of metadata that may be absent.
pub open spec fn metadata_view(metadata: Option<TunnelMetadata>) -> Option<TunnelMetadataView> {
    match metadata {
        Some(metadata) => Some(metadata@),
        None => None,
    }
}

/// A copy of metadata that may be absent.
pub fn clone_metadata(metadata: &Option<TunnelMetadata>) -> (r: Option<TunnelMetadata>)
    ensures
        metadata_view(r) == metadata_view(*metadata),
{
    match metadata {
        Some(metadata) => Some(metadata.clone()),
        None => None,
    }
}

/// Why the tunnel server turned the client away.
#[derive(Clone, Copy, Debug, PartialEq, Eq, Structural)]
pub enum AuthFailed {
    InvalidAccount,
    ExpiredAccount,
    TooManyConnections,
    Unknown,
}

/// What a running tunnel attempt reports.
#[derive(Debug, PartialEq, Eq)]
pub enum TunnelEvent {
    /// The server rejected the client.
    AuthFailed(AuthFailed),
    /// The interface exists; the given traffic may flow through it.
    InterfaceUp(TunnelMetadata, AllowedTunnelTraffic),
    /// The tunnel is fully established.
    Up(TunnelMetadata),
    /// The tunnel went down.
    Down,
}

pub ghost enum TunnelEventView {
    AuthFailed(AuthFailed),
    InterfaceUp(TunnelMetadataView, AllowedTunnelTraffic),
    Up(TunnelMetadataView),
    Down,
}

impl View for TunnelEvent {
    type V = TunnelEventView;

    open spec fn view(&self) -> TunnelEventView {
        match *self {
            TunnelEvent::AuthFailed(reason) => TunnelEventView::AuthFailed(reason),
            TunnelEvent::InterfaceUp(metadata, traffic) => TunnelEventView::InterfaceUp(
                metadata@,
                traffic,
            ),
            TunnelEvent::Up(metadata) => TunnelEventView::Up(metadata@),
            TunnelEvent::Down => TunnelEventView::Down,
        }
    }
}

/// Why the firewall could not be brought to enforce a policy.
#[derive(Clone, Copy, Debug, PartialEq, Eq, Structural)]
pub enum FirewallPolicyError {
    /// No particular reason is known.
    Generic,
    /// Another application holds the firewall.
    Locked,
}

/// Why no parameters could be found for a connection attempt.
#[derive(Clone, Copy, Debug, PartialEq, Eq, Structural)]
pub enum ParameterGenerationError {
    NoMatchingRelay,
    NoMatchingBridgeRelay,
    NoWireguardKey,
    CustomTunnelHostResolutionError,
    IpVersionUnavailable,
}

/// Causes of the error state that fit no other variant.
#[derive(Clone, Copy, Debug, PartialEq, Eq, Structural)]
pub enum OtherCause {
    /// The system's DNS settings could not be changed.
    SetDnsError,
    /// The tunnel device could not be created; the code is the system's.
    CreateTunnelDevice(Option<i32>),
}

/// Why the state machine blocks all traffic instead of connecting.
#[derive(Clone, Copy, Debug, PartialEq, Eq, Structural)]
pub enum ErrorStateCause {
    /// The host has no connection to the network, or none is known.
    IsOffline,
    /// The tunnel server rejected the client.
    AuthFailed(AuthFailed),
    /// No parameters could be generated for the attempt.
    TunnelParameterError(ParameterGenerationError),
    /// The firewall did not take the policy that the state calls for.
    SetFirewallPolicyError(FirewallPolicyError),
    /// Split tunnelling could not be set up.
    SplitTunnelError,
    /// The tunnel did not start, and trying again will not help.
    StartTunnelError,
    /// Any other cause.
    Other(OtherCause),
}

/// Why the WireGuard backend failed.
#[derive(Clone, Copy, Debug, PartialEq, Eq, Structural)]
pub enum WireguardError {
    /// The tunnel did not answer in time.
    TimeoutError,
    /// The obfuscator failed.
    ObfuscatorError,
    /// The exchange of the pre-shared key failed.
    PskNegotiationError,
    /// The tunnel device could not be created; the code is the system's.
    SetupTunnelDevice(Option<i32>),
    /// The routes into the tunnel could not be set up.
    SetupRoutingError,
    /// The tunnel failed to start, and may start when tried again.
    RecoverableStartWireguardError,
    /// The tunnel failed to start, and will not start when tried again.
    FatalStartWireguardError,
}

/// Why a tunnel failed to start or stopped.
#[derive(Clone, Copy, Debug, PartialEq, Eq, Structural)]
pub enum TunnelError {
    /// IPv6 is asked for and the system has it switched off.
    EnableIpv6Error,
    /// The platform has no such tunnel.
    UnsupportedPlatform,
    /// The MTU could not be set on the tunnel device.
    AssignMtuError,
    /// The OpenVPN backend failed.
    OpenVpnTunnelMonitoringError,
    /// The WireGuard backend failed.
    WireguardTunnelMonitoringError(WireguardError),
}

impl TunnelError {
    pub open spec fn spec_is_recoverable(&self) -> bool {
        match *self {
            TunnelError::WireguardTunnelMonitoringError(error) => error
                is ObfuscatorError || error is PskNegotiationError || error
                is RecoverableStartWireguardError,
            _ => false,
        }
    }

    pub open spec fn spec_get_tunnel_device_error(&self) -> Option<Option<i32>> {
        match *self {
            TunnelError::WireguardTunnelMonitoringError(
                WireguardError::SetupTunnelDevice(os_error),
            ) => Some(os_error),
            _ => None,
        }
    }

    /// Whether the failure is transient, so that a new attempt may succeed.
    #[verifier::when_used_as_spec(spec_is_recoverable)]
    pub fn is_recoverable(&self) -> (r: bool)
        ensures
            r == self.spec_is_recoverable(),
    {
        match self {
            TunnelError::WireguardTunnelMonitoringError(error) => match error {
                WireguardError::ObfuscatorError => true,
                WireguardError::PskNegotiationError => true,
                WireguardError::RecoverableStartWireguardError => true,
                _ => false,
            },
            _ => false,
        }
    }

    /// The system's error code, where the failure is that the tunnel device
    /// could not be created.
    #[verifier::when_used_as_spec(spec_get_tunnel_device_error)]
    pub fn get_tunnel_device_error(&self) -> (r: Option<Option<i32>>)
        ensures
            r == self.spec_get_tunnel_device_error(),
    {
        match self {
            TunnelError::WireguardTunnelMonitoringError(
                WireguardError::SetupTunnelDevice(os_error),
            ) => Some(*os_error),
            _ => None,
        }
    }
}

impl ErrorStateCause {
    /// The cause that the error state reports for a tunnel that failed to
    /// start.
    pub open spec fn of_tunnel_error(error: TunnelError) -> ErrorStateCause {
        match error.spec_get_tunnel_device_error() {
            Some(os_error) => ErrorStateCause::Other(OtherCause::CreateTunnelDevice(os_error)),
            None => ErrorStateCause::StartTunnelError,
        }
    }

    /// The cause that the error state reports for a tunnel that failed to
    /// start.
    pub fn from_tunnel_error(error: TunnelError) -> (r: ErrorStateCause)
        ensures
            r == ErrorStateCause::of_tunnel_error(error),
    {
        match error.get_tunnel_device_error() {
            Some(os_error) => ErrorStateCause::Other(OtherCause::CreateTunnelDevice(os_error)),
            None => ErrorStateCause::StartTunnelError,
        }
    }
}

} // verus!
