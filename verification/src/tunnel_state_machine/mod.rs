//! The tunnel state machine.
//!
//! One state is live at a time. It is handed one event, changes the shared
//! values and answers with a [`Step`]. The machine performs no outside work:
//! a step lists the effects that the caller carries out, in order, and then
//! either ends the handling of the event with its consequence or asks for one
//! piece of outside work whose outcome decides how the handling goes on. The
//! caller hands that outcome to [`policy_applied`], [`parameters_generated`]
//! or [`dns_configured`] together with the continuation that came with the
//! request.
//!
//! The shared values hold a record of what the firewall enforces. A state
//! that rests is coherent with that record: the firewall enforces exactly
//! the policy that is derived from the state's data, unless the firewall
//! port has failed. What holds of the machine as a whole is stated in
//! [`laws`].

pub mod connected_state;
pub mod connecting_state;
pub mod disconnected_state;
pub mod disconnecting_state;
pub mod error_state;
pub mod laws;

use self::connected_state::{asks_dns, connected_policy_error, leaving_connected, still_connected};
use self::connecting_state::{
    connecting_policy_error, disconnecting, fresh_attempt, needs_next_attempt, still_connecting,
};
use self::disconnected_state::{disconnected_entered, still_disconnected};
use self::error_state::error_entered;
use self::laws::{coherent, policy_rank, rank, step_coherent};
use crate::dns::{DnsConfig, DnsConfigView, DnsError, ResolvedDnsConfig, ResolvedDnsConfigView};
use crate::firewall::{
    policy_view, Error, Firewall, FirewallPolicy, FirewallPolicyView, FirewallView,
};
use crate::net::{
    AllowedClients, AllowedEndpoint, AllowedTunnelTraffic, Connectivity, IpAddress, IpAvailability,
};
use crate::tunnel::{
    metadata_view, ErrorStateCause, FirewallPolicyError, OtherCause, ParameterGenerationError,
    TunnelEndpoint, TunnelEvent, TunnelMetadata, TunnelMetadataView, TunnelParameters,
};
use vstd::prelude::*;

verus! {

/// Names the acknowledgment that the sender of a command waits for.
#[derive(Clone, Copy, Debug, PartialEq, Eq, Structural)]
pub struct CompletionToken(pub u64);

/// A request from the controller of the state machine.
#[derive(Debug, PartialEq, Eq)]
pub enum TunnelCommand {
    /// Enable or disable LAN access in the firewall.
    AllowLan(bool, CompletionToken),
    /// Endpoint that should never be blocked.
    AllowEndpoint(AllowedEndpoint, CompletionToken),
    /// Set DNS servers to use.
    Dns(DnsConfig, CompletionToken),
    /// Enable or disable the blocking of traffic while disconnected.
    BlockWhenDisconnected(bool, CompletionToken),
    /// What is now known about the host's connection to the network.
    Connectivity(Connectivity),
    /// Open the tunnel.
    Connect,
    /// Close the tunnel.
    Disconnect,
    /// Close the tunnel and block all traffic, for the given cause.
    Block(ErrorStateCause),
    /// Let the socket with this descriptor send outside the tunnel.
    BypassSocket(i32, CompletionToken),
    /// Set the applications whose traffic goes outside the tunnel; the
    /// token names them and the acknowledgment.
    SetExcludedApps(CompletionToken),
}

pub ghost enum TunnelCommandView {
    AllowLan(bool, CompletionToken),
    AllowEndpoint(AllowedEndpoint, CompletionToken),
    Dns(DnsConfigView, CompletionToken),
    BlockWhenDisconnected(bool, CompletionToken),
    Connectivity(Connectivity),
    Connect,
    Disconnect,
    Block(ErrorStateCause),
    BypassSocket(i32, CompletionToken),
    SetExcludedApps(CompletionToken),
}

impl View for TunnelCommand {
    type V = TunnelCommandView;

    open spec fn view(&self) -> TunnelCommandView {
        match *self {
            TunnelCommand::AllowLan(allow_lan, token) => TunnelCommandView::AllowLan(
                allow_lan,
                token,
            ),
            TunnelCommand::AllowEndpoint(endpoint, token) => TunnelCommandView::AllowEndpoint(
                endpoint,
                token,
            ),
            TunnelCommand::Dns(config, token) => TunnelCommandView::Dns(config@, token),
            TunnelCommand::BlockWhenDisconnected(block, token) =>
                TunnelCommandView::BlockWhenDisconnected(block, token),
            TunnelCommand::Connectivity(connectivity) => TunnelCommandView::Connectivity(
                connectivity,
            ),
            TunnelCommand::Connect => TunnelCommandView::Connect,
            TunnelCommand::Disconnect => TunnelCommandView::Disconnect,
            TunnelCommand::Block(cause) => TunnelCommandView::Block(cause),
            TunnelCommand::BypassSocket(descriptor, token) => TunnelCommandView::BypassSocket(
                descriptor,
                token,
            ),
            TunnelCommand::SetExcludedApps(token) => TunnelCommandView::SetExcludedApps(token),
        }
    }
}

/// The view of a command that may be absent.
pub open spec fn command_view(command: Option<TunnelCommand>) -> Option<TunnelCommandView> {
    match command {
        Some(command) => Some(command@),
        None => None,
    }
}

/// What to do once the tunnel has been closed.
#[derive(Clone, Copy, Debug, PartialEq, Eq, Structural)]
pub enum AfterDisconnect {
    Nothing,
    Block(ErrorStateCause),
    Reconnect(u32),
}

/// What observers are told of an [`AfterDisconnect`].
#[derive(Clone, Copy, Debug, PartialEq, Eq, Structural)]
pub enum ActionAfterDisconnect {
    Nothing,
    Block,
    Reconnect,
}

impl AfterDisconnect {
    pub open spec fn spec_action(&self) -> ActionAfterDisconnect {
        match *self {
            AfterDisconnect::Nothing => ActionAfterDisconnect::Nothing,
            AfterDisconnect::Block(_) => ActionAfterDisconnect::Block,
            AfterDisconnect::Reconnect(_) => ActionAfterDisconnect::Reconnect,
        }
    }

    #[verifier::when_used_as_spec(spec_action)]
    pub fn action(&self) -> (r: ActionAfterDisconnect)
        ensures
            r == self.spec_action(),
    {
        match self {
            AfterDisconnect::Nothing => ActionAfterDisconnect::Nothing,
            AfterDisconnect::Block(_) => ActionAfterDisconnect::Block,
            AfterDisconnect::Reconnect(_) => ActionAfterDisconnect::Reconnect,
        }
    }
}

/// What observers are told of the error state.
#[derive(Clone, Copy, Debug, PartialEq, Eq, Structural)]
pub struct ErrorStateInfo {
    /// Why the error state was entered.
    pub cause: ErrorStateCause,
    /// Why the firewall does not block, where it does not.
    pub block_failure: Option<FirewallPolicyError>,
}

/// The notice that observers get of a change of state.
#[derive(Clone, Copy, Debug, PartialEq, Eq, Structural)]
pub enum TunnelStateTransition {
    Disconnected { locked_down: bool },
    Connecting(TunnelEndpoint),
    Connected(TunnelEndpoint),
    Disconnecting(ActionAfterDisconnect),
    Error(ErrorStateInfo),
}

/// Values that every state sees and that outlive each of them.
#[derive(Debug, PartialEq, Eq)]
pub struct SharedTunnelStateValues {
    /// Whether LAN traffic is let through the firewall.
    pub allow_lan: bool,
    /// Whether traffic is blocked while disconnected.
    pub block_when_disconnected: bool,
    /// The host that may be reached outside the tunnel in every state.
    pub allowed_endpoint: AllowedEndpoint,
    /// What is known about the host's connection to the network.
    pub connectivity: Connectivity,
    /// The DNS servers asked for.
    pub dns_config: DnsConfig,
    /// The record of what the firewall enforces.
    pub firewall: Firewall,
}

pub ghost struct SharedView {
    pub allow_lan: bool,
    pub block_when_disconnected: bool,
    pub allowed_endpoint: AllowedEndpoint,
    pub connectivity: Connectivity,
    pub dns_config: DnsConfigView,
    pub firewall: FirewallView,
}

impl View for SharedTunnelStateValues {
    type V = SharedView;

    open spec fn view(&self) -> SharedView {
        SharedView {
            allow_lan: self.allow_lan,
            block_when_disconnected: self.block_when_disconnected,
            allowed_endpoint: self.allowed_endpoint,
            connectivity: self.connectivity,
            dns_config: self.dns_config@,
            firewall: self.firewall@,
        }
    }
}

impl SharedTunnelStateValues {
    /// The values at the start of a session: nothing is known about
    /// connectivity and the firewall holds what `firewall` records.
    pub fn new(
        allow_lan: bool,
        block_when_disconnected: bool,
        allowed_endpoint: AllowedEndpoint,
        dns_config: DnsConfig,
        firewall: Firewall,
    ) -> (r: SharedTunnelStateValues)
        ensures
            r@ == (SharedView {
                allow_lan,
                block_when_disconnected,
                allowed_endpoint,
                connectivity: Connectivity::Unknown,
                dns_config: dns_config@,
                firewall: firewall@,
            }),
    {
        SharedTunnelStateValues {
            allow_lan,
            block_when_disconnected,
            allowed_endpoint,
            connectivity: Connectivity::Unknown,
            dns_config,
            firewall,
        }
    }

    /// Sets whether LAN traffic is allowed, and says whether that changed
    /// anything.
    pub fn set_allow_lan(&mut self, allow_lan: bool) -> (changed: bool)
        ensures
            changed == (old(self).allow_lan != allow_lan),
            final(self)@ == (SharedView { allow_lan, ..old(self)@ }),
    {
        if self.allow_lan != allow_lan {
            self.allow_lan = allow_lan;
            true
        } else {
            false
        }
    }

    /// Sets the DNS servers asked for, and says whether that changed
    /// anything.
    pub fn set_dns_config(&mut self, dns_config: DnsConfig) -> (changed: bool)
        ensures
            changed == (old(self).dns_config@ != dns_config@),
            final(self)@ == (SharedView { dns_config: dns_config@, ..old(self)@ }),
    {
        if !self.dns_config.same_as(&dns_config) {
            self.dns_config = dns_config;
            true
        } else {
            false
        }
    }
}

/// The endpoint of the tunnel's first hop and the clients that may reach it
/// outside the tunnel: every client where a local proxy process must get
/// out, the superuser's processes only else.
pub open spec fn peer_endpoint(parameters: TunnelParameters) -> AllowedEndpoint {
    AllowedEndpoint {
        endpoint: parameters.next_hop_endpoint(),
        clients: if parameters.openvpn_local_proxy_settings() is Some {
            AllowedClients::All
        } else {
            AllowedClients::Root
        },
    }
}

/// The policy of a connection attempt.
pub open spec fn connecting_policy(
    shared: SharedView,
    parameters: TunnelParameters,
    tunnel: Option<TunnelMetadataView>,
    allowed_tunnel_traffic: AllowedTunnelTraffic,
) -> FirewallPolicyView {
    FirewallPolicyView::Connecting {
        peer_endpoint: peer_endpoint(parameters),
        tunnel,
        allow_lan: shared.allow_lan,
        allowed_endpoint: shared.allowed_endpoint,
        allowed_tunnel_traffic,
    }
}

/// The gateways of a tunnel, which serve as its default DNS servers.
pub open spec fn gateways(tunnel: TunnelMetadataView) -> Seq<IpAddress> {
    match tunnel.ipv6_gateway {
        Some(gateway) => seq![IpAddress::V4(tunnel.ipv4_gateway), IpAddress::V6(gateway)],
        None => seq![IpAddress::V4(tunnel.ipv4_gateway)],
    }
}

/// The policy of an established tunnel.
pub open spec fn connected_policy(
    shared: SharedView,
    parameters: TunnelParameters,
    tunnel: TunnelMetadataView,
) -> FirewallPolicyView {
    FirewallPolicyView::Connected {
        peer_endpoint: peer_endpoint(parameters),
        tunnel,
        allow_lan: shared.allow_lan,
        dns_config: shared.dns_config.resolve(gateways(tunnel)),
    }
}

/// The policy that blocks everything but the allowed endpoint and, where it
/// is allowed, the LAN.
pub open spec fn blocked_policy(shared: SharedView) -> FirewallPolicyView {
    FirewallPolicyView::Blocked {
        allow_lan: shared.allow_lan,
        allowed_endpoint: Some(shared.allowed_endpoint),
    }
}

/// The tunnel has been started, but it is not established.
#[derive(Debug, PartialEq, Eq)]
pub struct ConnectingState {
    pub tunnel_parameters: TunnelParameters,
    pub tunnel_metadata: Option<TunnelMetadata>,
    pub allowed_tunnel_traffic: AllowedTunnelTraffic,
    pub retry_attempt: u32,
}

pub ghost struct ConnectingStateView {
    pub tunnel_parameters: TunnelParameters,
    pub tunnel_metadata: Option<TunnelMetadataView>,
    pub allowed_tunnel_traffic: AllowedTunnelTraffic,
    pub retry_attempt: u32,
}

impl View for ConnectingState {
    type V = ConnectingStateView;

    open spec fn view(&self) -> ConnectingStateView {
        ConnectingStateView {
            tunnel_parameters: self.tunnel_parameters,
            tunnel_metadata: metadata_view(self.tunnel_metadata),
            allowed_tunnel_traffic: self.allowed_tunnel_traffic,
            retry_attempt: self.retry_attempt,
        }
    }
}

impl ConnectingStateView {
    /// The policy that the firewall is to enforce in this state.
    pub open spec fn policy(self, shared: SharedView) -> FirewallPolicyView {
        connecting_policy(
            shared,
            self.tunnel_parameters,
            self.tunnel_metadata,
            self.allowed_tunnel_traffic,
        )
    }
}

/// The tunnel is established.
#[derive(Debug, PartialEq, Eq)]
pub struct ConnectedState {
    pub metadata: TunnelMetadata,
    pub tunnel_parameters: TunnelParameters,
}

pub ghost struct ConnectedStateView {
    pub metadata: TunnelMetadataView,
    pub tunnel_parameters: TunnelParameters,
}

impl View for ConnectedState {
    type V = ConnectedStateView;

    open spec fn view(&self) -> ConnectedStateView {
        ConnectedStateView { metadata: self.metadata@, tunnel_parameters: self.tunnel_parameters }
    }
}

impl ConnectedStateView {
    /// The policy that the firewall is to enforce in this state.
    pub open spec fn policy(self, shared: SharedView) -> FirewallPolicyView {
        connected_policy(shared, self.tunnel_parameters, self.metadata)
    }

    /// The DNS servers that the system is to use in this state.
    pub open spec fn dns(self, shared: SharedView) -> ResolvedDnsConfigView {
        shared.dns_config.resolve(gateways(self.metadata))
    }
}

/// The tunnel is being closed.
#[derive(Clone, Copy, Debug, PartialEq, Eq, Structural)]
pub struct DisconnectingState {
    pub after_disconnect: AfterDisconnect,
}

/// No tunnel is open and none is wanted.
#[derive(Clone, Copy, Debug, PartialEq, Eq, Structural)]
pub struct DisconnectedState;

/// No tunnel is open and all traffic is to be blocked.
#[derive(Clone, Copy, Debug, PartialEq, Eq, Structural)]
pub struct ErrorState {
    pub block_reason: ErrorStateCause,
}

/// The states of the machine.
#[derive(Debug, PartialEq, Eq)]
pub enum TunnelState {
    Disconnected(DisconnectedState),
    Connecting(ConnectingState),
    Connected(ConnectedState),
    Disconnecting(DisconnectingState),
    Error(ErrorState),
}

pub ghost enum TunnelStateView {
    Disconnected,
    Connecting(ConnectingStateView),
    Connected(ConnectedStateView),
    Disconnecting(AfterDisconnect),
    Error(ErrorStateCause),
}

impl View for TunnelState {
    type V = TunnelStateView;

    open spec fn view(&self) -> TunnelStateView {
        match *self {
            TunnelState::Disconnected(_) => TunnelStateView::Disconnected,
            TunnelState::Connecting(state) => TunnelStateView::Connecting(state@),
            TunnelState::Connected(state) => TunnelStateView::Connected(state@),
            TunnelState::Disconnecting(state) => TunnelStateView::Disconnecting(
                state.after_disconnect,
            ),
            TunnelState::Error(state) => TunnelStateView::Error(state.block_reason),
        }
    }
}

/// What the handling of an event has led to.
#[derive(Debug, PartialEq, Eq)]
pub enum EventConsequence {
    /// Another state is live now, and observers are told so.
    NewState(TunnelState, TunnelStateTransition),
    /// The same state stays live.
    SameState(TunnelState),
    /// The machine has stopped for good.
    Finished,
}

pub ghost enum EventConsequenceView {
    NewState(TunnelStateView, TunnelStateTransition),
    SameState(TunnelStateView),
    Finished,
}

impl View for EventConsequence {
    type V = EventConsequenceView;

    open spec fn view(&self) -> EventConsequenceView {
        match *self {
            EventConsequence::NewState(state, transition) => EventConsequenceView::NewState(
                state@,
                transition,
            ),
            EventConsequence::SameState(state) => EventConsequenceView::SameState(state@),
            EventConsequence::Finished => EventConsequenceView::Finished,
        }
    }
}

/// Something that the caller notes without acting on it.
#[derive(Clone, Copy, Debug, PartialEq, Eq, Structural)]
pub enum Warning {
    /// The tunnel's worker went away without saying why the tunnel closed.
    TunnelMonitorStopped,
    /// The tunnel's events ended while the tunnel was still thought to run.
    TunnelDisconnected,
}

/// Outside work whose outcome the state machine does not wait for.
#[derive(Clone, Copy, Debug, PartialEq, Eq, Structural)]
pub enum Effect {
    /// Remove the routes that lead into the tunnel.
    ClearRoutes,
    /// Give the system's DNS settings back.
    ResetDns,
    /// Start a tunnel with these parameters; its events and its close signal
    /// come back as events of the state machine.
    StartTunnel { parameters: TunnelParameters, retry_attempt: u32 },
    /// Tell the running tunnel to stop.
    CloseTunnel,
    /// Tell the sender of a command that the command has been carried out.
    Acknowledge(CompletionToken),
    /// Let the socket with this descriptor send outside the tunnel, and
    /// acknowledge the command with this token once it does.
    BypassSocket { descriptor: i32, token: CompletionToken },
    /// Set the applications that the command with this token names as those
    /// whose traffic goes outside the tunnel, and acknowledge the command
    /// with what came of it.
    SetExcludedApps(CompletionToken),
    /// Note a warning.
    Warn(Warning),
}

/// How to go on once the firewall port has answered.
#[derive(Debug, PartialEq, Eq)]
pub enum AfterPolicy {
    /// Enter the error state.
    EnterError { cause: ErrorStateCause },
    /// Enter the disconnected state.
    EnterDisconnected,
    /// Start the tunnel of a connection attempt.
    StartTunnel { parameters: TunnelParameters, retry_attempt: u32 },
    /// Stay in the connecting state.
    KeepConnecting { connecting: ConnectingState, acknowledge: Option<CompletionToken> },
    /// Go on entering the connected state.
    EnterConnected { state: ConnectedState },
    /// Stay in the connected state; `dns` says whether the DNS settings are
    /// to be set anew as well.
    KeepConnected { state: ConnectedState, token: CompletionToken, dns: bool },
    /// Stay in the error state.
    KeepError { error: ErrorState, token: CompletionToken },
    /// Stay in the disconnected state.
    KeepDisconnected { token: CompletionToken },
}

impl AfterPolicy {
    /// The policy that the firewall is asked to enforce before this
    /// continuation runs; `None` where it is asked to drop every policy.
    pub open spec fn policy(self, shared: SharedView) -> Option<FirewallPolicyView> {
        match self {
            AfterPolicy::EnterError { .. } => Some(blocked_policy(shared)),
            AfterPolicy::KeepError { .. } => Some(blocked_policy(shared)),
            AfterPolicy::EnterDisconnected => if shared.block_when_disconnected {
                Some(blocked_policy(shared))
            } else {
                None
            },
            AfterPolicy::KeepDisconnected { .. } => if shared.block_when_disconnected {
                Some(blocked_policy(shared))
            } else {
                None
            },
            AfterPolicy::StartTunnel { parameters, .. } => Some(
                connecting_policy(shared, parameters, None, AllowedTunnelTraffic::Nothing),
            ),
            AfterPolicy::KeepConnecting { connecting, .. } => Some(connecting@.policy(shared)),
            AfterPolicy::EnterConnected { state } => Some(state@.policy(shared)),
            AfterPolicy::KeepConnected { state, .. } => Some(state@.policy(shared)),
        }
    }

    /// The policy that the firewall is asked to enforce before this
    /// continuation runs; `None` where it is asked to drop every policy.
    pub fn get_policy(&self, shared: &SharedTunnelStateValues) -> (r: Option<FirewallPolicy>)
        ensures
            policy_view(r) == self.policy(shared@),
    {
        match self {
            AfterPolicy::EnterError { .. } => Some(get_blocked_policy(shared)),
            AfterPolicy::KeepError { .. } => Some(get_blocked_policy(shared)),
            AfterPolicy::EnterDisconnected => {
                if shared.block_when_disconnected {
                    Some(get_blocked_policy(shared))
                } else {
                    None
                }
            },
            AfterPolicy::KeepDisconnected { .. } => {
                if shared.block_when_disconnected {
                    Some(get_blocked_policy(shared))
                } else {
                    None
                }
            },
            AfterPolicy::StartTunnel { parameters, .. } => Some(
                ConnectingState::set_firewall_policy(
                    shared,
                    parameters,
                    &None,
                    AllowedTunnelTraffic::Nothing,
                ),
            ),
            AfterPolicy::KeepConnecting { connecting, .. } => Some(
                ConnectingState::set_firewall_policy(
                    shared,
                    &connecting.tunnel_parameters,
                    &connecting.tunnel_metadata,
                    connecting.allowed_tunnel_traffic,
                ),
            ),
            AfterPolicy::EnterConnected { state } => Some(state.get_firewall_policy(shared)),
            AfterPolicy::KeepConnected { state, .. } => Some(state.get_firewall_policy(shared)),
        }
    }
}

/// How to go on once the system's DNS settings have been set.
#[derive(Debug, PartialEq, Eq)]
pub enum AfterDns {
    /// Finish entering the connected state.
    EnterConnected { state: ConnectedState },
    /// Stay in the connected state.
    KeepConnected { state: ConnectedState, token: CompletionToken },
}

impl AfterDns {
    /// The connected state that this continuation belongs to.
    pub open spec fn state(self) -> ConnectedStateView {
        match self {
            AfterDns::EnterConnected { state } => state@,
            AfterDns::KeepConnected { state, .. } => state@,
        }
    }
}

/// How the handling of an event goes on after the effects of a step.
#[derive(Debug, PartialEq, Eq)]
pub enum Next {
    /// The event is handled.
    Done(EventConsequence),
    /// Bring the firewall to enforce the policy, then call
    /// [`policy_applied`] with the outcome.
    ApplyPolicy(FirewallPolicy, AfterPolicy),
    /// Bring the firewall to drop every policy, then call
    /// [`policy_applied`] with the outcome.
    ResetPolicy(AfterPolicy),
    /// Generate the parameters of a connection attempt, then call
    /// [`parameters_generated`] with the outcome.
    GenerateParameters { retry_attempt: u32, availability: IpAvailability },
    /// Point the system's DNS settings to these servers on this interface,
    /// then call [`dns_configured`] with the outcome.
    SetDns { interface: String, config: ResolvedDnsConfig, then: AfterDns },
}

/// The answer of a state to an event or to the outcome of a request: the
/// effects to carry out, in order, and how to go on after them.
#[derive(Debug, PartialEq, Eq)]
pub struct Step {
    pub effects: Vec<Effect>,
    pub next: Next,
}

/// What a state is handed: one command, one tunnel event or the tunnel's
/// close signal.
#[derive(Debug, PartialEq, Eq)]
pub enum EventResult {
    /// The next command, or `None` once no more commands will come.
    Command(Option<TunnelCommand>),
    /// The next event of the tunnel, or `None` once its events have ended.
    Event(Option<TunnelEvent>),
    /// The tunnel has closed.
    Close(CloseSignal),
}

/// How the tunnel's close signal came.
#[derive(Clone, Copy, Debug, PartialEq, Eq, Structural)]
pub enum CloseSignal {
    /// The tunnel's worker reported the end of the tunnel, with the cause
    /// for which traffic is to be blocked, if there is one.
    Reported(Option<ErrorStateCause>),
    /// The tunnel's worker went away without a report.
    Dropped,
}

impl CloseSignal {
    pub open spec fn spec_block_reason(&self) -> Option<ErrorStateCause> {
        match *self {
            CloseSignal::Reported(reason) => reason,
            CloseSignal::Dropped => None,
        }
    }

    /// The cause for which traffic is to be blocked, if one was reported.
    #[verifier::when_used_as_spec(spec_block_reason)]
    pub fn block_reason(&self) -> (r: Option<ErrorStateCause>)
        ensures
            r == self.spec_block_reason(),
    {
        match self {
            CloseSignal::Reported(reason) => *reason,
            CloseSignal::Dropped => None,
        }
    }
}

/// The endpoint of the tunnel's first hop and the clients that may reach it
/// outside the tunnel.
pub fn get_peer_endpoint(parameters: &TunnelParameters) -> (r: AllowedEndpoint)
    ensures
        r == peer_endpoint(*parameters),
{
    let endpoint = parameters.get_next_hop_endpoint();
    let clients = if parameters.get_openvpn_local_proxy_settings().is_some() {
        AllowedClients::All
    } else {
        AllowedClients::Root
    };
    AllowedEndpoint { endpoint, clients }
}

/// The gateways of a tunnel, which serve as its default DNS servers.
pub fn get_gateways(tunnel: &TunnelMetadata) -> (r: Vec<IpAddress>)
    ensures
        r@ == gateways(tunnel@),
{
    let mut servers: Vec<IpAddress> = Vec::new();
    servers.push(IpAddress::V4(tunnel.ipv4_gateway));
    match tunnel.ipv6_gateway {
        Some(gateway) => {
            servers.push(IpAddress::V6(gateway));
        },
        None => {},
    }
    servers
}

/// The policy that blocks everything but the allowed endpoint and, where it
/// is allowed, the LAN.
pub fn get_blocked_policy(shared: &SharedTunnelStateValues) -> (r: FirewallPolicy)
    ensures
        r@ == blocked_policy(shared@),
{
    FirewallPolicy::Blocked {
        allow_lan: shared.allow_lan,
        allowed_endpoint: Some(shared.allowed_endpoint),
    }
}

/// Whether `next` asks the firewall port for what `then` needs, and hands
/// `then` over for the time after.
pub open spec fn asks_firewall(next: Next, shared: SharedView, then: AfterPolicy) -> bool {
    match then.policy(shared) {
        Some(policy) => next matches Next::ApplyPolicy(asked, after) && asked@ == policy && after
            == then,
        None => next == Next::ResetPolicy(then),
    }
}

/// The step that carries out `effects` and then asks the firewall port for
/// what `then` needs.
pub fn ask_firewall(
    shared: &SharedTunnelStateValues,
    effects: Vec<Effect>,
    then: AfterPolicy,
) -> (step: Step)
    ensures
        step.effects == effects,
        asks_firewall(step.next, shared@, then),
{
    match then.get_policy(shared) {
        Some(policy) => Step { effects, next: Next::ApplyPolicy(policy, then) },
        None => Step { effects, next: Next::ResetPolicy(then) },
    }
}

/// The step that carries out `effects` and thereby ends the handling of the
/// event, with `state` still live.
pub fn same_state(effects: Vec<Effect>, state: TunnelState) -> (step: Step)
    ensures
        step.effects == effects,
        step.next == Next::Done(EventConsequence::SameState(state)),
{
    Step { effects, next: Next::Done(EventConsequence::SameState(state)) }
}

/// The step that carries out `effects` and thereby ends the handling of the
/// event, with `state` live from now on.
pub fn new_state(
    effects: Vec<Effect>,
    state: TunnelState,
    transition: TunnelStateTransition,
) -> (step: Step)
    ensures
        step.effects == effects,
        step.next == Next::Done(EventConsequence::NewState(state, transition)),
{
    Step { effects, next: Next::Done(EventConsequence::NewState(state, transition)) }
}

/// Adds the acknowledgment of a command to `effects`, where the command
/// asked for one.
pub fn acknowledge(effects: &mut Vec<Effect>, token: Option<CompletionToken>)
    ensures
        final(effects)@ == old(effects)@ + acknowledgment(token),
{
    match token {
        Some(token) => {
            effects.push(Effect::Acknowledge(token));
            assert(effects@ == old(effects)@ + seq![Effect::Acknowledge(token)]);
        },
        None => {
            assert(effects@ == old(effects)@ + Seq::<Effect>::empty());
        },
    }
}

/// The effect with which a command is passed on to the port that carries it
/// out, where the state machine has no part in it.
pub open spec fn passed_on(command: Option<TunnelCommandView>) -> Seq<Effect> {
    match command {
        Some(TunnelCommandView::BypassSocket(descriptor, token)) => seq![
            Effect::BypassSocket { descriptor, token },
        ],
        Some(TunnelCommandView::SetExcludedApps(token)) => seq![Effect::SetExcludedApps(token)],
        _ => Seq::empty(),
    }
}

/// The step that passes on the command to let a socket send outside the
/// tunnel, with `state` still live.
pub fn bypass_socket(state: TunnelState, descriptor: i32, token: CompletionToken) -> (step: Step)
    ensures
        step.effects@ == seq![Effect::BypassSocket { descriptor, token }],
        step.next == Next::Done(EventConsequence::SameState(state)),
{
    let mut effects: Vec<Effect> = Vec::new();
    effects.push(Effect::BypassSocket { descriptor, token });
    same_state(effects, state)
}

/// The step that passes on the command to set the excluded applications,
/// with `state` still live.
pub fn set_excluded_apps(state: TunnelState, token: CompletionToken) -> (step: Step)
    ensures
        step.effects@ == seq![Effect::SetExcludedApps(token)],
        step.next == Next::Done(EventConsequence::SameState(state)),
{
    let mut effects: Vec<Effect> = Vec::new();
    effects.push(Effect::SetExcludedApps(token));
    same_state(effects, state)
}

/// Whether an acknowledgment is among `effects`.
pub open spec fn acknowledges(effects: Seq<Effect>) -> bool {
    exists|i: int| 0 <= i < effects.len() && #[trigger] effects[i] is Acknowledge
}

/// The effects that acknowledge a command whose request the port has
/// answered with `outcome`: the acknowledgment where the port did what was
/// asked, nothing where it failed.
pub open spec fn acknowledged_if_taken<E>(token: CompletionToken, outcome: Result<(), E>) -> Seq<
    Effect,
> {
    match outcome {
        Ok(_) => seq![Effect::Acknowledge(token)],
        Err(_) => Seq::empty(),
    }
}

/// The effects that acknowledge a command, where it asked for that.
pub open spec fn acknowledgment(token: Option<CompletionToken>) -> Seq<Effect> {
    match token {
        Some(token) => seq![Effect::Acknowledge(token)],
        None => Seq::empty(),
    }
}

/// The record of the firewall after the port has answered `outcome` to the
/// request for `policy`, or for dropping every policy where `policy` is
/// `None`.
pub open spec fn recorded(
    firewall: FirewallView,
    policy: Option<FirewallPolicyView>,
    outcome: Result<(), Error>,
) -> FirewallView {
    match outcome {
        Ok(_) => match policy {
            Some(policy) => firewall.apply(policy),
            None => firewall.reset(),
        },
        Err(_) => firewall.fail(),
    }
}

/// Goes on with the handling of an event once the firewall port has
/// answered. `then` is the continuation that came with the request and
/// `outcome` is what the port answered.
///
/// The outcome is recorded first: the policy that `then` asked for is in
/// force where the port succeeded, and the record is marked as faulted where
/// it failed. Then the continuation runs. The error state and the
/// disconnected state are entered whatever the port answered; the error
/// state reports a failure to observers. A connection attempt starts its
/// tunnel only after its policy is in force, and ends in the error state
/// where it is not. A state that had its policy applied anew stays live
/// where the port took the policy; the connecting and the connected state
/// are left for the error state where it did not, while the error state and
/// the disconnected state stay live all the same. A command is acknowledged
/// only after the port has done what the command asked for: where the port
/// failed, no acknowledgment is among the effects, so that a sender who
/// waits for one never takes a policy to be in force that is not.
///
/// Every answer brings the handling of the event nearer to its end: the
/// step that follows has a lower [`rank`](laws::rank) than the request had,
/// so that no event has more than three requests made for it.
pub fn policy_applied(
    shared_values: &mut SharedTunnelStateValues,
    then: AfterPolicy,
    outcome: Result<(), Error>,
) -> (step: Step)
    ensures
        final(shared_values)@ == (SharedView {
            firewall: recorded(
                old(shared_values)@.firewall,
                then.policy(old(shared_values)@),
                outcome,
            ),
            ..old(shared_values)@
        }),
        match then {
            AfterPolicy::EnterError { cause } => {
                &&& step.effects@ == Seq::<Effect>::empty()
                &&& step.next == error_entered(cause, outcome)
            },
            AfterPolicy::EnterDisconnected => {
                &&& step.effects@ == Seq::<Effect>::empty()
                &&& step.next == disconnected_entered(old(shared_values)@)
            },
            AfterPolicy::StartTunnel { parameters, retry_attempt } => match outcome {
                Ok(_) => {
                    &&& step.effects@ == seq![Effect::StartTunnel { parameters, retry_attempt }]
                    &&& step.next == Next::Done(
                        EventConsequence::NewState(
                            TunnelState::Connecting(fresh_attempt(parameters, retry_attempt)),
                            TunnelStateTransition::Connecting(parameters.tunnel_endpoint()),
                        ),
                    )
                },
                Err(error) => {
                    &&& step.effects@ == Seq::<Effect>::empty()
                    &&& asks_firewall(
                        step.next,
                        final(shared_values)@,
                        AfterPolicy::EnterError {
                            cause: ErrorStateCause::SetFirewallPolicyError(
                                connecting_policy_error(error),
                            ),
                        },
                    )
                },
            },
            AfterPolicy::KeepConnecting { connecting, acknowledge } => match outcome {
                Ok(_) => {
                    &&& step.effects@ == acknowledgment(acknowledge)
                    &&& step.next == still_connecting(connecting)
                },
                Err(error) => {
                    &&& step.effects@ == seq![Effect::ClearRoutes, Effect::CloseTunnel]
                    &&& step.next == disconnecting(
                        AfterDisconnect::Block(
                            ErrorStateCause::SetFirewallPolicyError(connecting_policy_error(error)),
                        ),
                    )
                },
            },
            AfterPolicy::EnterConnected { state } => match outcome {
                Ok(_) => {
                    &&& step.effects@ == Seq::<Effect>::empty()
                    &&& asks_dns(
                        step.next,
                        final(shared_values)@,
                        AfterDns::EnterConnected { state },
                    )
                },
                Err(error) => {
                    &&& step.effects@ == seq![Effect::ClearRoutes, Effect::CloseTunnel]
                    &&& step.next == disconnecting(
                        AfterDisconnect::Block(
                            ErrorStateCause::SetFirewallPolicyError(connected_policy_error(error)),
                        ),
                    )
                },
            },
            AfterPolicy::KeepConnected { state, token, dns } => match outcome {
                Ok(_) => if dns {
                    &&& step.effects@ == Seq::<Effect>::empty()
                    &&& asks_dns(
                        step.next,
                        final(shared_values)@,
                        AfterDns::KeepConnected { state, token },
                    )
                } else {
                    &&& step.effects@ == seq![Effect::Acknowledge(token)]
                    &&& step.next == still_connected(state)
                },
                Err(error) => {
                    &&& step.effects@ == leaving_connected()
                    &&& step.next == disconnecting(
                        AfterDisconnect::Block(
                            ErrorStateCause::SetFirewallPolicyError(connected_policy_error(error)),
                        ),
                    )
                },
            },
            AfterPolicy::KeepError { error, token } => {
                &&& step.effects@ == acknowledged_if_taken(token, outcome)
                &&& step.next == Next::Done(EventConsequence::SameState(TunnelState::Error(error)))
            },
            AfterPolicy::KeepDisconnected { token } => {
                &&& step.effects@ == acknowledged_if_taken(token, outcome)
                &&& step.next == still_disconnected()
            },
        },
        step_coherent(step.next, final(shared_values)@),
        rank(step.next) < policy_rank(then),
        outcome is Err ==> !acknowledges(step.effects@),
{
    match outcome {
        Ok(_) => match then.get_policy(shared_values) {
            Some(policy) => {
                let _ = shared_values.firewall.apply_policy(policy);
            },
            None => {
                let _ = shared_values.firewall.reset_policy();
            },
        },
        Err(_) => {
            shared_values.firewall.fault();
        },
    }
    match then {
        AfterPolicy::EnterError { cause } => ErrorState::entered(cause, outcome),
        AfterPolicy::EnterDisconnected => DisconnectedState::entered(shared_values),
        AfterPolicy::StartTunnel { parameters, retry_attempt } => match outcome {
            Ok(_) => ConnectingState::start_tunnel(parameters, retry_attempt),
            Err(error) => ErrorState::enter(
                shared_values,
                Vec::new(),
                ErrorStateCause::SetFirewallPolicyError(ConnectingState::policy_error(error)),
            ),
        },
        AfterPolicy::KeepConnecting { connecting, acknowledge } => connecting.firewall_reset(
            acknowledge,
            outcome,
        ),
        AfterPolicy::EnterConnected { state } => state.policy_set(shared_values, outcome),
        AfterPolicy::KeepConnected { state, token, dns } => state.firewall_reset(
            shared_values,
            token,
            dns,
            outcome,
        ),
        AfterPolicy::KeepError { error, token } => error.firewall_reset(token, outcome),
        AfterPolicy::KeepDisconnected { token } => DisconnectedState::firewall_reset(
            token,
            outcome,
        ),
    }
}

/// Goes on with a connection attempt once its parameters have been asked
/// for. Where none could be generated, the error state is entered with that
/// cause. Else the firewall is asked for the policy of the attempt, with no
/// traffic allowed inside the tunnel yet; the tunnel is started only after
/// the firewall has taken that policy.
pub fn parameters_generated(
    shared_values: &SharedTunnelStateValues,
    retry_attempt: u32,
    outcome: Result<TunnelParameters, ParameterGenerationError>,
) -> (step: Step)
    ensures
        step.effects@ == Seq::<Effect>::empty(),
        match outcome {
            Ok(parameters) => asks_firewall(
                step.next,
                shared_values@,
                AfterPolicy::StartTunnel { parameters, retry_attempt },
            ),
            Err(error) => asks_firewall(
                step.next,
                shared_values@,
                AfterPolicy::EnterError { cause: ErrorStateCause::TunnelParameterError(error) },
            ),
        },
        step_coherent(step.next, shared_values@),
        rank(step.next) < 3,
{
    match outcome {
        Ok(parameters) => ask_firewall(
            shared_values,
            Vec::new(),
            AfterPolicy::StartTunnel { parameters, retry_attempt },
        ),
        Err(error) => ErrorState::enter(
            shared_values,
            Vec::new(),
            ErrorStateCause::TunnelParameterError(error),
        ),
    }
}

/// Goes on with the handling of an event once the system's DNS settings
/// have been asked for. Where they were set, the connected state becomes or
/// stays live, and the command that led here is acknowledged. Where they
/// were not, the connected state is left, the error state will follow the
/// end of the tunnel, and the command is not acknowledged.
pub fn dns_configured(then: AfterDns, outcome: Result<(), DnsError>) -> (step: Step)
    ensures
        match then {
            AfterDns::EnterConnected { state } => match outcome {
                Ok(_) => {
                    &&& step.effects@ == Seq::<Effect>::empty()
                    &&& step.next == Next::Done(
                        EventConsequence::NewState(
                            TunnelState::Connected(state),
                            TunnelStateTransition::Connected(
                                state.tunnel_parameters.tunnel_endpoint(),
                            ),
                        ),
                    )
                },
                Err(_) => {
                    &&& step.effects@ == leaving_connected()
                    &&& step.next == disconnecting(
                        AfterDisconnect::Block(ErrorStateCause::Other(OtherCause::SetDnsError)),
                    )
                },
            },
            AfterDns::KeepConnected { state, token } => match outcome {
                Ok(_) => {
                    &&& step.effects@ == seq![Effect::Acknowledge(token)]
                    &&& step.next == still_connected(state)
                },
                Err(_) => {
                    &&& step.effects@ == leaving_connected()
                    &&& step.next == disconnecting(
                        AfterDisconnect::Block(ErrorStateCause::Other(OtherCause::SetDnsError)),
                    )
                },
            },
        },
        forall|shared: SharedView|
            coherent(TunnelStateView::Connected(then.state()), shared) ==> #[trigger] step_coherent(
                step.next,
                shared,
            ),
        rank(step.next) == 0,
        outcome is Err ==> !acknowledges(step.effects@),
{
    match then {
        AfterDns::EnterConnected { state } => state.dns_set(outcome),
        AfterDns::KeepConnected { state, token } => state.dns_reset(token, outcome),
    }
}

impl TunnelState {
    /// Handles one event in the state that is live.
    pub fn handle_event(
        self,
        shared_values: &mut SharedTunnelStateValues,
        event: EventResult,
    ) -> (step: Step)
        requires
            self matches TunnelState::Connecting(state) ==> (needs_next_attempt(event)
                ==> state.retry_attempt < u32::MAX),
        ensures
            match self {
                TunnelState::Disconnected(_) => disconnected_state::event_handled(
                    event,
                    old(shared_values)@,
                    final(shared_values)@,
                    step,
                ),
                TunnelState::Connecting(state) => connecting_state::event_handled(
                    state,
                    event,
                    old(shared_values)@,
                    final(shared_values)@,
                    step,
                ),
                TunnelState::Connected(state) => connected_state::event_handled(
                    state,
                    event,
                    old(shared_values)@,
                    final(shared_values)@,
                    step,
                ),
                TunnelState::Disconnecting(state) => disconnecting_state::event_handled(
                    state,
                    event,
                    old(shared_values)@,
                    final(shared_values)@,
                    step,
                ),
                TunnelState::Error(state) => error_state::event_handled(
                    state,
                    event,
                    old(shared_values)@,
                    final(shared_values)@,
                    step,
                ),
            },
            coherent(self@, old(shared_values)@) && !(self is Connecting
                && event matches EventResult::Event(Some(TunnelEvent::Down))) ==> step_coherent(
                step.next,
                final(shared_values)@,
            ),
    {
        match self {
            TunnelState::Disconnected(state) => state.handle_event(shared_values, event),
            TunnelState::Connecting(state) => state.handle_event(shared_values, event),
            TunnelState::Connected(state) => state.handle_event(shared_values, event),
            TunnelState::Disconnecting(state) => state.handle_event(shared_values, event),
            TunnelState::Error(state) => state.handle_event(shared_values, event),
        }
    }
}

} // verus!
