//! Which DNS servers the system is to use while the tunnel is up.

use crate::net::IpAddress;
use crate::tunnel::clone_addresses;
use vstd::prelude::*;

verus! {

/// The system's DNS settings could not be changed.
#[derive(Clone, Copy, Debug, PartialEq, Eq, Structural)]
pub struct DnsError;

/// The DNS servers asked for.
#[derive(Debug, PartialEq, Eq)]
pub enum DnsConfig {
    /// The servers that the tunnel itself offers.
    Default,
    /// Servers chosen by the user, reached inside and outside the tunnel.
    Override { tunnel_config: Vec<IpAddress>, non_tunnel_config: Vec<IpAddress> },
}

pub ghost enum DnsConfigView {
    Default,
    Override { tunnel_config: Seq<IpAddress>, non_tunnel_config: Seq<IpAddress> },
}

impl View for DnsConfig {
    type V = DnsConfigView;

    open spec fn view(&self) -> DnsConfigView {
        match *self {
            DnsConfig::Default => DnsConfigView::Default,
            DnsConfig::Override { tunnel_config, non_tunnel_config } => DnsConfigView::Override {
                tunnel_config: tunnel_config@,
                non_tunnel_config: non_tunnel_config@,
            },
        }
    }
}

impl DnsConfigView {
    /// The servers to use, given the servers that the tunnel offers.
    pub open spec fn resolve(self, default_tunnel_config: Seq<IpAddress>) -> ResolvedDnsConfigView {
        match self {
            DnsConfigView::Default => ResolvedDnsConfigView {
                tunnel_config: default_tunnel_config,
                non_tunnel_config: Seq::empty(),
            },
            DnsConfigView::Override { tunnel_config, non_tunnel_config } => ResolvedDnsConfigView {
                tunnel_config,
                non_tunnel_config,
            },
        }
    }
}

/// The DNS servers to use: those reached through the tunnel and those
/// reached outside it.
#[derive(Debug, PartialEq, Eq)]
pub struct ResolvedDnsConfig {
    tunnel_config: Vec<IpAddress>,
    non_tunnel_config: Vec<IpAddress>,
}

pub ghost struct ResolvedDnsConfigView {
    pub tunnel_config: Seq<IpAddress>,
    pub non_tunnel_config: Seq<IpAddress>,
}

impl View for ResolvedDnsConfig {
    type V = ResolvedDnsConfigView;

    closed spec fn view(&self) -> ResolvedDnsConfigView {
        ResolvedDnsConfigView {
            tunnel_config: self.tunnel_config@,
            non_tunnel_config: self.non_tunnel_config@,
        }
    }
}

/// Whether two lists hold the same addresses in the same order.
pub fn same_addresses(a: &Vec<IpAddress>, b: &Vec<IpAddress>) -> (r: bool)
    ensures
        r == (a@ == b@),
{
    if a.len() != b.len() {
        return false;
    }
    let mut i: usize = 0;
    while i < a.len()
        invariant
            i <= a.len(),
            a.len() == b.len(),
            a@.take(i as int) == b@.take(i as int),
        decreases a.len() - i,
    {
        if a[i] != b[i] {
            assert(a@[i as int] != b@[i as int]);
            return false;
        }
        assert(a@.take(i + 1) == a@.take(i as int).push(a@[i as int]));
        assert(b@.take(i + 1) == b@.take(i as int).push(b@[i as int]));
        i += 1;
    }
    assert(a@.take(a.len() as int) == a@);
    assert(b@.take(b.len() as int) == b@);
    true
}

impl DnsConfig {
    /// The servers to use, given the servers that the tunnel offers.
    pub fn resolve(&self, default_tunnel_config: &Vec<IpAddress>) -> (r: ResolvedDnsConfig)
        ensures
            r@ == self@.resolve(default_tunnel_config@),
    {
        match self {
            DnsConfig::Default => ResolvedDnsConfig {
                tunnel_config: clone_addresses(default_tunnel_config),
                non_tunnel_config: Vec::new(),
            },
            DnsConfig::Override { tunnel_config, non_tunnel_config } => ResolvedDnsConfig {
                tunnel_config: clone_addresses(tunnel_config),
                non_tunnel_config: clone_addresses(non_tunnel_config),
            },
        }
    }

    /// Whether `self` and `other` ask for the same servers.
    pub fn same_as(&self, other: &DnsConfig) -> (r: bool)
        ensures
            r == (self@ == other@),
    {
        match (self, other) {
            (DnsConfig::Default, DnsConfig::Default) => true,
            (
                DnsConfig::Override { tunnel_config: t1, non_tunnel_config: n1 },
                DnsConfig::Override { tunnel_config: t2, non_tunnel_config: n2 },
            ) => same_addresses(t1, t2) && same_addresses(n1, n2),
            _ => false,
        }
    }
}

impl Clone for DnsConfig {
    fn clone(&self) -> (r: Self)
        ensures
            r@ == self@,
    {
        match self {
            DnsConfig::Default => DnsConfig::Default,
            DnsConfig::Override { tunnel_config, non_tunnel_config } => DnsConfig::Override {
                tunnel_config: clone_addresses(tunnel_config),
                non_tunnel_config: clone_addresses(non_tunnel_config),
            },
        }
    }
}

impl ResolvedDnsConfig {
    /// The servers reached through the tunnel.
    pub fn tunnel_config(&self) -> (r: &Vec<IpAddress>)
        ensures
            r@ == self@.tunnel_config,
    {
        &self.tunnel_config
    }

    /// The servers reached outside the tunnel.
    pub fn non_tunnel_config(&self) -> (r: &Vec<IpAddress>)
        ensures
            r@ == self@.non_tunnel_config,
    {
        &self.non_tunnel_config
    }
}

impl Clone for ResolvedDnsConfig {
    fn clone(&self) -> (r: Self)
        ensures
            r@ == self@,
    {
        ResolvedDnsConfig {
            tunnel_config: clone_addresses(&self.tunnel_config),
            non_tunnel_config: clone_addresses(&self.non_tunnel_config),
        }
    }
}

} // verus!
