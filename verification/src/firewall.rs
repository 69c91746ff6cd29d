//! The firewall policy model and the record of what the firewall enforces.

use crate::dns::{ResolvedDnsConfig, ResolvedDnsConfigView};
use crate::net::{
    addresses_text, allowed_lan_nets, any_contains, contained_in_any, describe_addresses,
    get_allowed_lan_nets, get_loopback_nets, ipv4_mask, ipv6_mask, loopback_nets, same_networks,
    AllowedEndpoint, AllowedTunnelTraffic, IpAddress, IpNetwork,
};
use crate::tunnel::{
    clone_metadata, metadata_view, FirewallPolicyError, TunnelMetadata, TunnelMetadataView,
};
use vstd::prelude::*;
use vstd::string::StringExecFns;

verus! {

/// A network security strategy: which traffic the firewall lets through.
#[allow(inconsistent_fields)]
#[derive(Debug, PartialEq, Eq)]
pub enum FirewallPolicy {
    /// Allow traffic only to the tunnel server, and what the tunnel reports
    /// as allowed inside it.
    Connecting {
        /// The peer endpoint that should be allowed.
        peer_endpoint: AllowedEndpoint,
        /// Metadata about the tunnel and tunnel interface.
        tunnel: Option<TunnelMetadata>,
        /// Whether communication with LAN networks should be possible.
        allow_lan: bool,
        /// Host that should be reachable while connecting.
        allowed_endpoint: AllowedEndpoint,
        /// Traffic to permit inside the tunnel.
        allowed_tunnel_traffic: AllowedTunnelTraffic,
    },
    /// Allow traffic only to the tunnel server and over the tunnel interface.
    Connected {
        /// The peer endpoint that should be allowed.
        peer_endpoint: AllowedEndpoint,
        /// Metadata about the tunnel and tunnel interface.
        tunnel: TunnelMetadata,
        /// Whether communication with LAN networks should be possible.
        allow_lan: bool,
        /// Servers that are allowed to respond to DNS requests.
        dns_config: ResolvedDnsConfig,
    },
    /// Block all network traffic in and out of the computer.
    Blocked {
        /// Whether communication with LAN networks should be possible.
        allow_lan: bool,
        /// Host that should be reachable while in the blocked state.
        allowed_endpoint: Option<AllowedEndpoint>,
    },
}

/// The mathematical value of a [`FirewallPolicy`].
#[allow(inconsistent_fields)]
pub ghost enum FirewallPolicyView {
    Connecting {
        peer_endpoint: AllowedEndpoint,
        tunnel: Option<TunnelMetadataView>,
        allow_lan: bool,
        allowed_endpoint: AllowedEndpoint,
        allowed_tunnel_traffic: AllowedTunnelTraffic,
    },
    Connected {
        peer_endpoint: AllowedEndpoint,
        tunnel: TunnelMetadataView,
        allow_lan: bool,
        dns_config: ResolvedDnsConfigView,
    },
    Blocked { allow_lan: bool, allowed_endpoint: Option<AllowedEndpoint> },
}

impl View for FirewallPolicy {
    type V = FirewallPolicyView;

    open spec fn view(&self) -> FirewallPolicyView {
        match *self {
            FirewallPolicy::Connecting {
                peer_endpoint,
                tunnel,
                allow_lan,
                allowed_endpoint,
                allowed_tunnel_traffic,
            } => FirewallPolicyView::Connecting {
                peer_endpoint,
                tunnel: metadata_view(tunnel),
                allow_lan,
                allowed_endpoint,
                allowed_tunnel_traffic,
            },
            FirewallPolicy::Connected {
                peer_endpoint,
                tunnel,
                allow_lan,
                dns_config,
            } => FirewallPolicyView::Connected {
                peer_endpoint,
                tunnel: tunnel@,
                allow_lan,
                dns_config: dns_config@,
            },
            FirewallPolicy::Blocked { allow_lan, allowed_endpoint } => FirewallPolicyView::Blocked {
                allow_lan,
                allowed_endpoint,
            },
        }
    }
}

impl FirewallPolicyView {
    pub open spec fn peer_endpoint(self) -> Option<AllowedEndpoint> {
        match self {
            FirewallPolicyView::Connecting { peer_endpoint, .. } => Some(peer_endpoint),
            FirewallPolicyView::Connected { peer_endpoint, .. } => Some(peer_endpoint),
            FirewallPolicyView::Blocked { .. } => None,
        }
    }

    pub open spec fn allowed_endpoint(self) -> Option<AllowedEndpoint> {
        match self {
            FirewallPolicyView::Connecting { allowed_endpoint, .. } => Some(allowed_endpoint),
            FirewallPolicyView::Connected { .. } => None,
            FirewallPolicyView::Blocked { allowed_endpoint, .. } => allowed_endpoint,
        }
    }

    pub open spec fn tunnel(self) -> Option<TunnelMetadataView> {
        match self {
            FirewallPolicyView::Connecting { tunnel, .. } => tunnel,
            FirewallPolicyView::Connected { tunnel, .. } => Some(tunnel),
            FirewallPolicyView::Blocked { .. } => None,
        }
    }

    pub open spec fn allowed_tunnel_traffic(self) -> AllowedTunnelTraffic {
        match self {
            FirewallPolicyView::Connecting { allowed_tunnel_traffic, .. } => allowed_tunnel_traffic,
            FirewallPolicyView::Connected { .. } => AllowedTunnelTraffic::All,
            FirewallPolicyView::Blocked { .. } => AllowedTunnelTraffic::Nothing,
        }
    }

    pub open spec fn allow_lan(self) -> bool {
        match self {
            FirewallPolicyView::Connecting { allow_lan, .. } => allow_lan,
            FirewallPolicyView::Connected { allow_lan, .. } => allow_lan,
            FirewallPolicyView::Blocked { allow_lan, .. } => allow_lan,
        }
    }

    /// The text of the policy.
    pub open spec fn text(self) -> Seq<char> {
        match self {
            FirewallPolicyView::Connecting {
                peer_endpoint,
                tunnel,
                allow_lan,
                allowed_endpoint,
                allowed_tunnel_traffic,
            } => match tunnel {
                Some(tunnel) => "Connecting to "@ + peer_endpoint.text() + tunnel_text(
                    tunnel,
                    ", allowed in-tunnel traffic: "@ + allowed_tunnel_traffic.text(),
                ) + ", "@ + lan_text(allow_lan) + " LAN. Allowing endpoint "@
                    + allowed_endpoint.text(),
                None => "Connecting to "@ + peer_endpoint.text() + ", "@ + lan_text(allow_lan)
                    + " LAN, interface: none. Allowing endpoint "@ + allowed_endpoint.text(),
            },
            FirewallPolicyView::Connected { peer_endpoint, tunnel, allow_lan, .. } =>
                "Connected to "@ + peer_endpoint.text() + tunnel_text(tunnel, Seq::empty()) + ", "@
                    + lan_text(allow_lan) + " LAN"@,
            FirewallPolicyView::Blocked { allow_lan, allowed_endpoint } => "Blocked. "@ + lan_text(
                allow_lan,
            ) + " LAN. Allowing endpoint: "@ + (match allowed_endpoint {
                Some(endpoint) => endpoint.text(),
                None => "none"@,
            }),
        }
    }
}

impl FirewallPolicy {
    /// Return the tunnel peer endpoint, if available.
    pub fn peer_endpoint(&self) -> (r: Option<&AllowedEndpoint>)
        ensures
            match r {
                Some(endpoint) => self@.peer_endpoint() == Some(*endpoint),
                None => self@.peer_endpoint() is None,
            },
    {
        match self {
            FirewallPolicy::Connecting { peer_endpoint, .. } => Some(peer_endpoint),
            FirewallPolicy::Connected { peer_endpoint, .. } => Some(peer_endpoint),
            _ => None,
        }
    }

    /// Return the allowed endpoint, if available.
    pub fn allowed_endpoint(&self) -> (r: Option<&AllowedEndpoint>)
        ensures
            match r {
                Some(endpoint) => self@.allowed_endpoint() == Some(*endpoint),
                None => self@.allowed_endpoint() is None,
            },
    {
        match self {
            FirewallPolicy::Connecting { allowed_endpoint, .. } => Some(allowed_endpoint),
            FirewallPolicy::Blocked { allowed_endpoint: Some(allowed_endpoint), .. } => Some(
                allowed_endpoint,
            ),
            _ => None,
        }
    }

    /// Return tunnel metadata, if available.
    pub fn tunnel(&self) -> (r: Option<&TunnelMetadata>)
        ensures
            match r {
                Some(tunnel) => self@.tunnel() == Some(tunnel@),
                None => self@.tunnel() is None,
            },
    {
        match self {
            FirewallPolicy::Connecting { tunnel: Some(tunnel), .. } => Some(tunnel),
            FirewallPolicy::Connected { tunnel, .. } => Some(tunnel),
            _ => None,
        }
    }

    /// Return allowed in-tunnel traffic.
    pub fn allowed_tunnel_traffic(&self) -> (r: AllowedTunnelTraffic)
        ensures
            r == self@.allowed_tunnel_traffic(),
    {
        match self {
            FirewallPolicy::Connecting { allowed_tunnel_traffic, .. } => *allowed_tunnel_traffic,
            FirewallPolicy::Connected { .. } => AllowedTunnelTraffic::All,
            _ => AllowedTunnelTraffic::Nothing,
        }
    }

    /// Return whether LAN traffic is allowed.
    pub fn allow_lan(&self) -> (r: bool)
        ensures
            r == self@.allow_lan(),
    {
        match self {
            FirewallPolicy::Connecting { allow_lan, .. } => *allow_lan,
            FirewallPolicy::Connected { allow_lan, .. } => *allow_lan,
            FirewallPolicy::Blocked { allow_lan, .. } => *allow_lan,
        }
    }

    /// The text of the policy, as it is written to the log when the policy
    /// is applied.
    pub fn describe(&self) -> (r: String)
        ensures
            r@ == self@.text(),
    {
        match self {
            FirewallPolicy::Connecting {
                peer_endpoint,
                tunnel,
                allow_lan,
                allowed_endpoint,
                allowed_tunnel_traffic,
            } => {
                let mut text = String::from_str("Connecting to ");
                text.append(peer_endpoint.describe().as_str());
                match tunnel {
                    Some(tunnel) => {
                        let mut traffic = String::from_str(", allowed in-tunnel traffic: ");
                        traffic.append(allowed_tunnel_traffic.describe().as_str());
                        describe_tunnel(&mut text, tunnel, traffic.as_str());
                        text.append(", ");
                        text.append(describe_lan(*allow_lan));
                        text.append(" LAN. Allowing endpoint ");
                    },
                    None => {
                        text.append(", ");
                        text.append(describe_lan(*allow_lan));
                        text.append(" LAN, interface: none. Allowing endpoint ");
                    },
                }
                text.append(allowed_endpoint.describe().as_str());
                assert(text@ =~= self@.text());
                text
            },
            FirewallPolicy::Connected { peer_endpoint, tunnel, allow_lan, .. } => {
                let mut text = String::from_str("Connected to ");
                text.append(peer_endpoint.describe().as_str());
                describe_tunnel(&mut text, tunnel, "");
                text.append(", ");
                text.append(describe_lan(*allow_lan));
                text.append(" LAN");
                proof {
                    reveal_strlit("");
                    assert(""@ =~= Seq::<char>::empty());
                }
                assert(text@ =~= self@.text());
                text
            },
            FirewallPolicy::Blocked { allow_lan, allowed_endpoint } => {
                let mut text = String::from_str("Blocked. ");
                text.append(describe_lan(*allow_lan));
                text.append(" LAN. Allowing endpoint: ");
                match allowed_endpoint {
                    Some(endpoint) => {
                        text.append(endpoint.describe().as_str());
                    },
                    None => {
                        text.append("none");
                    },
                }
                assert(text@ =~= self@.text());
                text
            },
        }
    }
}

impl Clone for FirewallPolicy {
    fn clone(&self) -> (r: Self)
        ensures
            r@ == self@,
    {
        match self {
            FirewallPolicy::Connecting {
                peer_endpoint,
                tunnel,
                allow_lan,
                allowed_endpoint,
                allowed_tunnel_traffic,
            } => FirewallPolicy::Connecting {
                peer_endpoint: *peer_endpoint,
                tunnel: clone_metadata(tunnel),
                allow_lan: *allow_lan,
                allowed_endpoint: *allowed_endpoint,
                allowed_tunnel_traffic: *allowed_tunnel_traffic,
            },
            FirewallPolicy::Connected {
                peer_endpoint,
                tunnel,
                allow_lan,
                dns_config,
            } => FirewallPolicy::Connected {
                peer_endpoint: *peer_endpoint,
                tunnel: tunnel.clone(),
                allow_lan: *allow_lan,
                dns_config: dns_config.clone(),
            },
            FirewallPolicy::Blocked { allow_lan, allowed_endpoint } => FirewallPolicy::Blocked {
                allow_lan: *allow_lan,
                allowed_endpoint: *allowed_endpoint,
            },
        }
    }
}

/// Why the firewall port failed.
#[derive(Clone, Copy, Debug, PartialEq, Eq, Structural)]
pub enum Error {
    /// The firewall could not be set up at all.
    Initialization,
    /// A connecting policy was not taken.
    ApplyingConnectingPolicy(FirewallPolicyError),
    /// A connected policy was not taken.
    ApplyingConnectedPolicy(FirewallPolicyError),
    /// A blocked policy was not taken.
    ApplyingBlockedPolicy(FirewallPolicyError),
    /// The policy in force could not be removed.
    ResettingPolicy(FirewallPolicyError),
}

/// State to enter when the firewall is first set up.
#[derive(Clone, Copy, Debug, PartialEq, Eq, Structural)]
pub enum InitialFirewallState {
    /// Do not set any policy.
    Unset,
    /// Atomically enter the blocked state.
    Blocked(AllowedEndpoint),
}

/// Arguments required when first initializing the firewall.
#[derive(Clone, Copy, Debug, PartialEq, Eq, Structural)]
pub struct FirewallArguments {
    /// Initial firewall state to enter during init.
    pub initial_state: InitialFirewallState,
    /// Whether LAN traffic is let through in the blocked state.
    pub allow_lan: bool,
}

/// The state machine's record of the firewall: the policy that the firewall
/// port was last brought to enforce, whether its last request failed, and
/// whether the blocking rules are to outlast a reboot.
#[derive(Debug, PartialEq, Eq)]
pub struct Firewall {
    policy: Option<FirewallPolicy>,
    faulted: bool,
    persist: bool,
}

/// The mathematical value of a [`Firewall`].
pub ghost struct FirewallView {
    /// The policy in force; `None` where the firewall holds none.
    pub policy: Option<FirewallPolicyView>,
    /// Whether the last request to the port failed, so that the port may
    /// enforce something else than what was last asked of it.
    pub faulted: bool,
    pub persist: bool,
}

impl FirewallView {
    /// The record after the port has taken `policy`.
    pub open spec fn apply(self, policy: FirewallPolicyView) -> FirewallView {
        FirewallView { policy: Some(policy), faulted: false, persist: self.persist }
    }

    /// The record after the port has dropped every policy.
    pub open spec fn reset(self) -> FirewallView {
        FirewallView { policy: None, faulted: false, persist: self.persist }
    }

    /// The record after the port has failed to do what was asked.
    pub open spec fn fail(self) -> FirewallView {
        FirewallView { policy: self.policy, faulted: true, persist: self.persist }
    }
}

/// The view of a policy that may be absent.
pub open spec fn policy_view(policy: Option<FirewallPolicy>) -> Option<FirewallPolicyView> {
    match policy {
        Some(policy) => Some(policy@),
        None => None,
    }
}

impl View for Firewall {
    type V = FirewallView;

    closed spec fn view(&self) -> FirewallView {
        FirewallView {
            policy: policy_view(self.policy),
            faulted: self.faulted,
            persist: self.persist,
        }
    }
}

impl Firewall {
    /// Creates a firewall record with the given arguments.
    pub fn from_args(args: FirewallArguments) -> (r: Result<Firewall, Error>)
        ensures
            r is Ok,
            r->Ok_0@ == (FirewallView {
                policy: match args.initial_state {
                    InitialFirewallState::Unset => None,
                    InitialFirewallState::Blocked(endpoint) => Some(
                        FirewallPolicyView::Blocked {
                            allow_lan: args.allow_lan,
                            allowed_endpoint: Some(endpoint),
                        },
                    ),
                },
                faulted: false,
                persist: false,
            }),
    {
        let policy = match args.initial_state {
            InitialFirewallState::Unset => None,
            InitialFirewallState::Blocked(endpoint) => Some(
                FirewallPolicy::Blocked {
                    allow_lan: args.allow_lan,
                    allowed_endpoint: Some(endpoint),
                },
            ),
        };
        Ok(Firewall { policy, faulted: false, persist: false })
    }

    /// Creates a firewall record with no policy in force.
    pub fn new() -> (r: Result<Firewall, Error>)
        ensures
            r is Ok,
            r->Ok_0@ == (FirewallView { policy: None, faulted: false, persist: false }),
    {
        Ok(Firewall { policy: None, faulted: false, persist: false })
    }

    /// Records that the firewall enforces `policy` from now on, until this is
    /// called with another policy or `reset_policy` is called.
    pub fn apply_policy(&mut self, policy: FirewallPolicy) -> (r: Result<(), Error>)
        ensures
            r is Ok,
            final(self)@ == old(self)@.apply(policy@),
    {
        self.policy = Some(policy);
        self.faulted = false;
        Ok(())
    }

    /// Records that the firewall enforces no policy any more.
    pub fn reset_policy(&mut self) -> (r: Result<(), Error>)
        ensures
            r is Ok,
            final(self)@ == old(self)@.reset(),
    {
        self.policy = None;
        self.faulted = false;
        Ok(())
    }

    /// Records that the firewall port failed to do what was last asked of it.
    pub fn fault(&mut self)
        ensures
            final(self)@ == old(self)@.fail(),
    {
        self.faulted = true;
    }

    /// Sets whether the blocking rules are to persist across a reboot.
    pub fn persist(&mut self, persist: bool)
        ensures
            final(self)@ == (FirewallView { persist, ..old(self)@ }),
    {
        self.persist = persist;
    }

    /// The policy in force, if there is one.
    pub fn policy(&self) -> (r: Option<&FirewallPolicy>)
        ensures
            match r {
                Some(policy) => self@.policy == Some(policy@),
                None => self@.policy is None,
            },
    {
        self.policy.as_ref()
    }

    /// Whether the last request to the firewall port failed.
    pub fn is_faulted(&self) -> (r: bool)
        ensures
            r == self@.faulted,
    {
        self.faulted
    }

    /// Whether the blocking rules are to persist across a reboot.
    pub fn is_persistent(&self) -> (r: bool)
        ensures
            r == self@.persist,
    {
        self.persist
    }
}

/// Applying a policy twice in a row leaves the firewall as applying it once
/// does.
pub proof fn apply_policy_is_idempotent(firewall: FirewallView, policy: FirewallPolicyView)
    ensures
        firewall.apply(policy).apply(policy) == firewall.apply(policy),
{
}

/// Resetting twice in a row leaves the firewall as resetting once does.
pub proof fn reset_policy_is_idempotent(firewall: FirewallView)
    ensures
        firewall.reset().reset() == firewall.reset(),
{
}

/// Whether `address` lies in the network of the given address and prefix.
pub open spec fn described_network_contains(network: (IpAddress, u8), address: IpAddress) -> bool {
    match (network.0, address) {
        (IpAddress::V4(ip), IpAddress::V4(address)) => address & ipv4_mask(network.1) == ip
            & ipv4_mask(network.1),
        (IpAddress::V6(ip), IpAddress::V6(address)) => address & ipv6_mask(network.1) == ip
            & ipv6_mask(network.1),
        _ => false,
    }
}

/// Whether `address` lies in one of the networks.
pub open spec fn in_any(networks: Seq<(IpAddress, u8)>, address: IpAddress) -> bool {
    exists|i: int|
        0 <= i < networks.len() && described_network_contains(#[trigger] networks[i], address)
}

/// Whether `address` belongs to a network that counts as local: one of the
/// private and link-local networks, or a loopback network.
pub open spec fn local_address(address: IpAddress) -> bool {
    in_any(allowed_lan_nets(), address) || in_any(loopback_nets(), address)
}

/// A list of networks holds an address exactly if the list that describes
/// the same networks does.
proof fn same_networks_contain_the_same(
    networks: Seq<IpNetwork>,
    described: Seq<(IpAddress, u8)>,
    address: IpAddress,
)
    requires
        same_networks(networks, described),
    ensures
        any_contains(networks, address) == in_any(described, address),
{
    if any_contains(networks, address) {
        let i = choose|i: int|
            0 <= i < networks.len() && (#[trigger] networks[i]).spec_contains(address);
        assert(described_network_contains(described[i], address));
    }
    if in_any(described, address) {
        let i = choose|i: int|
            0 <= i < described.len() && described_network_contains(
                #[trigger] described[i],
                address,
            );
        assert(networks[i].spec_contains(address));
    }
}

/// Returns whether an address belongs to a private subnet.
pub fn is_local_address(address: &IpAddress) -> (r: bool)
    ensures
        r == local_address(*address),
{
    let lan = get_allowed_lan_nets();
    let loopback = get_loopback_nets();
    proof {
        same_networks_contain_the_same(lan@, allowed_lan_nets(), *address);
        same_networks_contain_the_same(loopback@, loopback_nets(), *address);
    }
    contained_in_any(&lan, *address) || contained_in_any(&loopback, *address)
}

/// The word for whether LAN traffic is let through.
pub open spec fn lan_text(allow_lan: bool) -> Seq<char> {
    if allow_lan {
        "Allowing"@
    } else {
        "Blocking"@
    }
}

/// The text of an IPv6 gateway that may be absent.
pub open spec fn gateway_text(gateway: Option<u128>) -> Seq<char> {
    match gateway {
        Some(gateway) => "Some("@ + IpAddress::V6(gateway).text() + ")"@,
        None => "None"@,
    }
}

/// The text of a tunnel: its interface in double quotes, then its
/// addresses and gateways in round brackets, with `traffic` before the
/// closing bracket.
pub open spec fn tunnel_text(tunnel: TunnelMetadataView, traffic: Seq<char>) -> Seq<char> {
    " over \""@ + tunnel.interface + "\" (ip: "@ + addresses_text(tunnel.ips) + ", v4 gw: "@
        + IpAddress::V4(tunnel.ipv4_gateway).text() + ", v6 gw: "@ + gateway_text(
        tunnel.ipv6_gateway,
    ) + traffic + ")"@
}

/// The word for whether LAN traffic is let through.
fn describe_lan(allow_lan: bool) -> (r: &'static str)
    ensures
        r@ == lan_text(allow_lan),
{
    if allow_lan {
        "Allowing"
    } else {
        "Blocking"
    }
}

/// Adds the text of a tunnel to `text`, with `traffic` before the closing
/// bracket.
fn describe_tunnel(text: &mut String, tunnel: &TunnelMetadata, traffic: &str)
    ensures
        final(text)@ == old(text)@ + tunnel_text(tunnel@, traffic@),
{
    let ghost before = text@;
    text.append(" over \"");
    text.append(tunnel.interface.as_str());
    text.append("\" (ip: ");
    text.append(describe_addresses(&tunnel.ips).as_str());
    text.append(", v4 gw: ");
    text.append(IpAddress::V4(tunnel.ipv4_gateway).describe().as_str());
    text.append(", v6 gw: ");
    match tunnel.ipv6_gateway {
        Some(gateway) => {
            text.append("Some(");
            text.append(IpAddress::V6(gateway).describe().as_str());
            text.append(")");
        },
        None => {
            text.append("None");
        },
    }
    text.append(traffic);
    text.append(")");
    assert(text@ =~= before + tunnel_text(tunnel@, traffic@));
}

} // verus!
