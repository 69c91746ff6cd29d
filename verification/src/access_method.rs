//! How the API is reached: the resolution of an access method to a
//! connection mode and to the endpoint that the firewall must let through
//! for it.

use crate::net::{AllowedClients, AllowedEndpoint, Endpoint, SocketAddress, TransportProtocol};
use vstd::prelude::*;

verus! {

/// The access methods that are built in.
#[derive(Clone, Copy, Debug, PartialEq, Eq, Structural)]
pub enum BuiltInAccessMethod {
    Direct,
    Bridge,
    EncryptedDnsProxy,
}

/// The kinds of proxy.
#[derive(Clone, Copy, Debug, PartialEq, Eq, Structural)]
pub enum ProxyKind {
    Shadowsocks,
    Socks5Local,
    Socks5Remote,
    EncryptedDnsProxy,
}

/// A proxy through which the API is reached.
#[derive(Clone, Copy, Debug, PartialEq, Eq, Structural)]
pub struct ProxyConfig {
    pub kind: ProxyKind,
    /// The remote end of the proxy.
    pub endpoint: Endpoint,
}

/// A way to reach the API.
#[derive(Clone, Copy, Debug, PartialEq, Eq, Structural)]
pub enum AccessMethod {
    BuiltIn(BuiltInAccessMethod),
    Custom(ProxyConfig),
}

/// How the connection to the API is made.
#[derive(Clone, Copy, Debug, PartialEq, Eq, Structural)]
pub enum ApiConnectionMode {
    /// Connect directly to the target.
    Direct,
    /// Connect to the destination via a proxy.
    Proxied(ProxyConfig),
}

impl ApiConnectionMode {
    pub open spec fn spec_get_endpoint(&self) -> Option<Endpoint> {
        match *self {
            ApiConnectionMode::Direct => None,
            ApiConnectionMode::Proxied(proxy) => Some(proxy.endpoint),
        }
    }

    /// The remote end of the proxy, where the connection goes through one.
    #[verifier::when_used_as_spec(spec_get_endpoint)]
    pub fn get_endpoint(&self) -> (r: Option<Endpoint>)
        ensures
            r == self.spec_get_endpoint(),
    {
        match self {
            ApiConnectionMode::Direct => None,
            ApiConnectionMode::Proxied(proxy) => Some(proxy.endpoint),
        }
    }
}

/// What must be fetched from outside before an access method can be
/// resolved.
#[derive(Clone, Copy, Debug, PartialEq, Eq, Structural)]
pub enum Provision {
    /// Nothing.
    Nothing,
    /// A bridge.
    Bridge,
    /// The next configuration of the encrypted DNS proxy for the domain.
    EncryptedDnsProxy,
}

/// Resolves access methods for a client whose bridges, proxy configurations
/// and address cache live outside.
#[derive(Debug, PartialEq, Eq)]
pub struct SwiftAccessMethodResolver {
    /// The address of the API.
    pub address: SocketAddress,
    /// The domain that configurations of the encrypted DNS proxy are
    /// fetched for.
    pub domain: String,
}

impl SwiftAccessMethodResolver {
    pub fn new(address: SocketAddress, domain: String) -> (r: SwiftAccessMethodResolver)
        ensures
            r.address == address,
            r.domain == domain,
    {
        SwiftAccessMethodResolver { address, domain }
    }

    /// What must be fetched from outside before `access_method` can be
    /// resolved.
    pub fn provision(access_method: &AccessMethod) -> (r: Provision)
        ensures
            r == match *access_method {
                AccessMethod::BuiltIn(BuiltInAccessMethod::Bridge) => Provision::Bridge,
                AccessMethod::BuiltIn(BuiltInAccessMethod::EncryptedDnsProxy) =>
                    Provision::EncryptedDnsProxy,
                _ => Provision::Nothing,
            },
    {
        match access_method {
            AccessMethod::BuiltIn(BuiltInAccessMethod::Bridge) => Provision::Bridge,
            AccessMethod::BuiltIn(BuiltInAccessMethod::EncryptedDnsProxy) =>
                Provision::EncryptedDnsProxy,
            _ => Provision::Nothing,
        }
    }

    /// The connection mode of `access_method`, where `provided` is what was
    /// fetched for it from outside: `None` where a bridge or a
    /// configuration of the encrypted DNS proxy is needed and none was
    /// provided.
    pub open spec fn connection_mode(
        access_method: AccessMethod,
        provided: Option<ProxyConfig>,
    ) -> Option<
        ApiConnectionMode,
    > {
        match access_method {
            AccessMethod::BuiltIn(BuiltInAccessMethod::Direct) => Some(ApiConnectionMode::Direct),
            AccessMethod::BuiltIn(_) => match provided {
                Some(proxy) => Some(ApiConnectionMode::Proxied(proxy)),
                None => None,
            },
            AccessMethod::Custom(proxy) => Some(ApiConnectionMode::Proxied(proxy)),
        }
    }

    /// The endpoint that the firewall lets every client reach for a
    /// connection in `mode`: the remote end of the proxy, or the API itself
    /// over TCP where there is no proxy.
    pub open spec fn allowed_endpoint(self, mode: ApiConnectionMode) -> AllowedEndpoint {
        AllowedEndpoint {
            endpoint: match mode.spec_get_endpoint() {
                Some(endpoint) => endpoint,
                None => Endpoint { address: self.address, protocol: TransportProtocol::Tcp },
            },
            clients: AllowedClients::All,
        }
    }

    /// Resolves `access_method` to the endpoint that the firewall must let
    /// through and the connection mode, where `provided` is what was
    /// fetched for the method from outside.
    pub fn resolve_access_method_setting(
        &self,
        access_method: &AccessMethod,
        provided: Option<ProxyConfig>,
    ) -> (r: Option<(AllowedEndpoint, ApiConnectionMode)>)
        ensures
            r == match Self::connection_mode(*access_method, provided) {
                Some(mode) => Some((self.allowed_endpoint(mode), mode)),
                None => None,
            },
    {
        let connection_mode = match access_method {
            AccessMethod::BuiltIn(BuiltInAccessMethod::Direct) => ApiConnectionMode::Direct,
            AccessMethod::BuiltIn(_) => match provided {
                Some(proxy) => ApiConnectionMode::Proxied(proxy),
                None => {
                    return None;
                },
            },
            AccessMethod::Custom(proxy) => ApiConnectionMode::Proxied(*proxy),
        };
        let endpoint = match connection_mode.get_endpoint() {
            Some(endpoint) => endpoint,
            None => Endpoint::from_socket_address(self.address, TransportProtocol::Tcp),
        };
        Some((AllowedEndpoint { endpoint, clients: AllowedClients::All }, connection_mode))
    }

    /// The endpoint that the firewall lets every client reach before any
    /// access method is resolved: `address`, which comes from the address
    /// cache, over TCP.
    pub fn default_connection_mode(address: SocketAddress) -> (r: AllowedEndpoint)
        ensures
            r == (AllowedEndpoint {
                endpoint: Endpoint { address, protocol: TransportProtocol::Tcp },
                clients: AllowedClients::All,
            }),
    {
        AllowedEndpoint {
            endpoint: Endpoint::from_socket_address(address, TransportProtocol::Tcp),
            clients: AllowedClients::All,
        }
    }
}

} // verus!
