use talpid_core::dns::{DnsConfig, DnsError};
use talpid_core::firewall::{Error, Firewall, FirewallPolicy};
use talpid_core::net::{
    AllowedClients, AllowedEndpoint, AllowedTunnelTraffic, Connectivity, Endpoint, IpAddress,
    IpAvailability, TransportProtocol,
};
use talpid_core::tunnel::{
    AuthFailed, ErrorStateCause, FirewallPolicyError, OtherCause, ParameterGenerationError,
    TunnelEvent, TunnelMetadata, TunnelParameters,
};
use talpid_core::tunnel_state_machine::{
    dns_configured, parameters_generated, policy_applied, ActionAfterDisconnect,
    AfterDisconnect, CloseSignal, CompletionToken, ConnectedState, ConnectingState,
    DisconnectedState, DisconnectingState, Effect, ErrorState, ErrorStateInfo,
    EventConsequence, EventResult, Next, SharedTunnelStateValues, Step, TunnelCommand,
    TunnelState, TunnelStateTransition, Warning,
};

/// What the outside world did, in order.
#[derive(Debug, PartialEq, Eq, Clone)]
enum Happened {
    Applied(FirewallPolicy),
    ApplyFailed(FirewallPolicy),
    Reset,
    Generated(u32),
    DnsSet(String),
    Did(Effect),
}

/// A scripted outside world: it answers the requests of the state machine
/// and notes what it was asked to do.
struct World {
    shared: SharedTunnelStateValues,
    state: Option<TunnelState>,
    log: Vec<Happened>,
    transitions: Vec<TunnelStateTransition>,
    firewall_error: Option<Error>,
    parameters: Result<TunnelParameters, ParameterGenerationError>,
    dns_fails: bool,
    finished: bool,
}

fn relay() -> Endpoint {
    Endpoint::new(IpAddress::v4(185, 213, 154, 68), 51820, TransportProtocol::Udp)
}

fn api() -> AllowedEndpoint {
    AllowedEndpoint {
        endpoint: Endpoint::new(IpAddress::v4(45, 83, 223, 196), 443, TransportProtocol::Tcp),
        clients: AllowedClients::Root,
    }
}

fn wireguard() -> TunnelParameters {
    TunnelParameters::Wireguard { endpoint: relay(), obfuscation: None }
}

fn metadata() -> TunnelMetadata {
    TunnelMetadata {
        interface: String::from("wg0-mullvad"),
        ips: vec![IpAddress::v4(10, 64, 0, 2)],
        ipv4_gateway: 0x0a40_0001,
        ipv6_gateway: None,
    }
}

fn peer() -> AllowedEndpoint {
    AllowedEndpoint { endpoint: relay(), clients: AllowedClients::Root }
}

impl World {
    fn new() -> World {
        let firewall = Firewall::new().unwrap();
        let mut shared =
            SharedTunnelStateValues::new(false, false, api(), DnsConfig::Default, firewall);
        shared.connectivity = Connectivity::Online(IpAvailability::Ipv4);
        World {
            shared,
            state: Some(TunnelState::Disconnected(DisconnectedState)),
            log: Vec::new(),
            transitions: Vec::new(),
            firewall_error: None,
            parameters: Ok(wireguard()),
            dns_fails: false,
            finished: false,
        }
    }

    fn firewall_outcome(&self) -> Result<(), Error> {
        match self.firewall_error {
            Some(error) => Err(error),
            None => Ok(()),
        }
    }

    /// Carries a step out to its end and returns nothing: the state and the
    /// transitions are noted in the world.
    fn carry_out(&mut self, first: Step) {
        let mut step = first;
        loop {
            for effect in step.effects {
                self.log.push(Happened::Did(effect));
            }
            step = match step.next {
                Next::Done(consequence) => {
                    match consequence {
                        EventConsequence::NewState(state, transition) => {
                            self.state = Some(state);
                            self.transitions.push(transition);
                        }
                        EventConsequence::SameState(state) => {
                            self.state = Some(state);
                        }
                        EventConsequence::Finished => {
                            self.finished = true;
                        }
                    }
                    return;
                }
                Next::ApplyPolicy(policy, then) => {
                    let outcome = self.firewall_outcome();
                    if outcome.is_ok() {
                        self.log.push(Happened::Applied(policy));
                    } else {
                        self.log.push(Happened::ApplyFailed(policy));
                    }
                    policy_applied(&mut self.shared, then, outcome)
                }
                Next::ResetPolicy(then) => {
                    self.log.push(Happened::Reset);
                    let outcome = self.firewall_outcome();
                    policy_applied(&mut self.shared, then, outcome)
                }
                Next::GenerateParameters { retry_attempt, availability: _ } => {
                    self.log.push(Happened::Generated(retry_attempt));
                    parameters_generated(&self.shared, retry_attempt, self.parameters)
                }
                Next::SetDns { interface, config: _, then } => {
                    self.log.push(Happened::DnsSet(interface));
                    let outcome = if self.dns_fails { Err(DnsError) } else { Ok(()) };
                    dns_configured(then, outcome)
                }
            };
        }
    }

    fn handle(&mut self, event: EventResult) {
        let state = self.state.take().unwrap();
        let step = state.handle_event(&mut self.shared, event);
        self.carry_out(step);
    }

    fn command(&mut self, command: TunnelCommand) {
        self.handle(EventResult::Command(Some(command)));
    }

    fn tunnel(&mut self, event: TunnelEvent) {
        self.handle(EventResult::Event(Some(event)));
    }

    fn state(&self) -> &TunnelState {
        self.state.as_ref().unwrap()
    }

    fn connecting(&self) -> &ConnectingState {
        match self.state() {
            TunnelState::Connecting(state) => state,
            other => panic!("not connecting: {:?}", other),
        }
    }

    fn connect(&mut self) {
        self.command(TunnelCommand::Connect);
        self.tunnel(TunnelEvent::InterfaceUp(metadata(), AllowedTunnelTraffic::All));
        self.tunnel(TunnelEvent::Up(metadata()));
        assert!(matches!(self.state(), TunnelState::Connected(_)));
        self.log.clear();
        self.transitions.clear();
    }

    /// The policy that is derived from the state and the shared values;
    /// `None` where the firewall is to hold no policy, and no answer at all
    /// where the state expects nothing.
    fn expected_policy(&self) -> Option<Option<FirewallPolicy>> {
        let blocked = FirewallPolicy::Blocked {
            allow_lan: self.shared.allow_lan,
            allowed_endpoint: Some(self.shared.allowed_endpoint),
        };
        match self.state() {
            TunnelState::Disconnected(_) => {
                if self.shared.block_when_disconnected {
                    Some(Some(blocked))
                } else {
                    Some(None)
                }
            }
            TunnelState::Connecting(state) => Some(Some(ConnectingState::set_firewall_policy(
                &self.shared,
                &state.tunnel_parameters,
                &state.tunnel_metadata,
                state.allowed_tunnel_traffic,
            ))),
            TunnelState::Connected(state) => Some(Some(state.get_firewall_policy(&self.shared))),
            TunnelState::Disconnecting(_) => None,
            TunnelState::Error(_) => Some(Some(blocked)),
        }
    }

    fn assert_coherent(&self) {
        if self.shared.firewall.is_faulted() {
            return;
        }
        if let Some(expected) = self.expected_policy() {
            assert_eq!(self.shared.firewall.policy(), expected.as_ref());
        }
    }
}

fn connecting_policy(
    allow_lan: bool,
    tunnel: Option<TunnelMetadata>,
    traffic: AllowedTunnelTraffic,
) -> FirewallPolicy {
    FirewallPolicy::Connecting {
        peer_endpoint: peer(),
        tunnel,
        allow_lan,
        allowed_endpoint: api(),
        allowed_tunnel_traffic: traffic,
    }
}

fn blocked_policy(allow_lan: bool) -> FirewallPolicy {
    FirewallPolicy::Blocked { allow_lan, allowed_endpoint: Some(api()) }
}

#[test]
fn connect_on_disconnected_leads_to_connected() {
    let mut world = World::new();
    let traffic = AllowedTunnelTraffic::One(relay());

    world.command(TunnelCommand::Connect);
    assert_eq!(
        world.state(),
        &TunnelState::Connecting(ConnectingState {
            tunnel_parameters: wireguard(),
            tunnel_metadata: None,
            allowed_tunnel_traffic: AllowedTunnelTraffic::Nothing,
            retry_attempt: 0,
        })
    );
    world.assert_coherent();

    world.tunnel(TunnelEvent::InterfaceUp(metadata(), traffic));
    assert_eq!(
        world.state(),
        &TunnelState::Connecting(ConnectingState {
            tunnel_parameters: wireguard(),
            tunnel_metadata: Some(metadata()),
            allowed_tunnel_traffic: traffic,
            retry_attempt: 0,
        })
    );
    world.assert_coherent();

    world.tunnel(TunnelEvent::Up(metadata()));
    assert_eq!(
        world.state(),
        &TunnelState::Connected(ConnectedState {
            metadata: metadata(),
            tunnel_parameters: wireguard(),
        })
    );
    world.assert_coherent();

    assert_eq!(
        world.transitions,
        vec![
            TunnelStateTransition::Connecting(wireguard().get_tunnel_endpoint()),
            TunnelStateTransition::Connected(wireguard().get_tunnel_endpoint()),
        ]
    );
    // The policy of the attempt is in force before the tunnel starts, and
    // the widened policy before the connected one.
    assert_eq!(
        world.log,
        vec![
            Happened::Generated(0),
            Happened::Applied(connecting_policy(false, None, AllowedTunnelTraffic::Nothing)),
            Happened::Did(Effect::StartTunnel { parameters: wireguard(), retry_attempt: 0 }),
            Happened::Applied(connecting_policy(false, Some(metadata()), traffic)),
            Happened::Applied(FirewallPolicy::Connected {
                peer_endpoint: peer(),
                tunnel: metadata(),
                allow_lan: false,
                dns_config: DnsConfig::Default.resolve(&vec![IpAddress::V4(0x0a40_0001)]),
            }),
            Happened::DnsSet(String::from("wg0-mullvad")),
        ]
    );
}

#[test]
fn connect_while_offline_leads_to_error() {
    let mut world = World::new();
    world.command(TunnelCommand::Connectivity(Connectivity::Offline));
    assert_eq!(world.state(), &TunnelState::Disconnected(DisconnectedState));

    world.command(TunnelCommand::Connect);
    assert_eq!(
        world.state(),
        &TunnelState::Error(ErrorState { block_reason: ErrorStateCause::IsOffline })
    );
    assert_eq!(
        world.transitions,
        vec![TunnelStateTransition::Error(ErrorStateInfo {
            cause: ErrorStateCause::IsOffline,
            block_failure: None,
        })]
    );
    // Nothing was asked of the firewall but the blocked policy, and no
    // attempt was spent.
    assert_eq!(world.log, vec![Happened::Applied(blocked_policy(false))]);
    world.assert_coherent();
}

#[test]
fn connect_while_connectivity_is_unknown_leads_to_error() {
    let mut world = World::new();
    world.shared.connectivity = Connectivity::Unknown;
    world.command(TunnelCommand::Connect);
    assert_eq!(
        world.state(),
        &TunnelState::Error(ErrorState { block_reason: ErrorStateCause::IsOffline })
    );
}

#[test]
fn down_while_connected_leads_to_attempt_one() {
    let mut world = World::new();
    world.connect();

    world.tunnel(TunnelEvent::Down);
    assert_eq!(world.connecting().retry_attempt, 1);
    assert_eq!(world.connecting().allowed_tunnel_traffic, AllowedTunnelTraffic::Nothing);
    assert_eq!(world.connecting().tunnel_metadata, None);
    assert_eq!(
        world.log,
        vec![
            Happened::Did(Effect::ResetDns),
            Happened::Did(Effect::ClearRoutes),
            Happened::Did(Effect::CloseTunnel),
            Happened::Generated(1),
            Happened::Applied(connecting_policy(false, None, AllowedTunnelTraffic::Nothing)),
            Happened::Did(Effect::StartTunnel { parameters: wireguard(), retry_attempt: 1 }),
        ]
    );
    assert_eq!(
        world.transitions,
        vec![TunnelStateTransition::Connecting(wireguard().get_tunnel_endpoint())]
    );
    world.assert_coherent();
}

#[test]
fn allow_lan_while_connecting_applies_policy_before_acknowledging() {
    let mut world = World::new();
    world.command(TunnelCommand::Connect);
    world.log.clear();

    world.command(TunnelCommand::AllowLan(true, CompletionToken(7)));
    assert!(world.shared.allow_lan);
    assert_eq!(
        world.log,
        vec![
            Happened::Applied(connecting_policy(true, None, AllowedTunnelTraffic::Nothing)),
            Happened::Did(Effect::Acknowledge(CompletionToken(7))),
        ]
    );
    assert_eq!(world.connecting().retry_attempt, 0);
    world.assert_coherent();
}

#[test]
fn allow_lan_without_change_is_acknowledged_at_once() {
    let mut world = World::new();
    world.command(TunnelCommand::Connect);
    world.log.clear();

    world.command(TunnelCommand::AllowLan(false, CompletionToken(8)));
    assert_eq!(world.log, vec![Happened::Did(Effect::Acknowledge(CompletionToken(8)))]);
}

#[test]
fn allow_lan_while_connecting_ends_in_error_when_policy_fails() {
    let mut world = World::new();
    world.command(TunnelCommand::Connect);
    world.log.clear();
    world.transitions.clear();

    world.firewall_error = Some(Error::ApplyingConnectingPolicy(FirewallPolicyError::Locked));
    world.command(TunnelCommand::AllowLan(true, CompletionToken(9)));
    let cause = ErrorStateCause::SetFirewallPolicyError(FirewallPolicyError::Locked);
    assert_eq!(
        world.state(),
        &TunnelState::Disconnecting(DisconnectingState {
            after_disconnect: AfterDisconnect::Block(cause),
        })
    );
    // The policy is not in force, and the command is not acknowledged.
    assert_eq!(
        world.log,
        vec![
            Happened::ApplyFailed(connecting_policy(true, None, AllowedTunnelTraffic::Nothing)),
            Happened::Did(Effect::ClearRoutes),
            Happened::Did(Effect::CloseTunnel),
        ]
    );
    assert!(world.shared.firewall.is_faulted());

    world.firewall_error = None;
    world.handle(EventResult::Close(CloseSignal::Reported(None)));
    assert_eq!(world.state(), &TunnelState::Error(ErrorState { block_reason: cause }));
    assert_eq!(
        world.transitions,
        vec![
            TunnelStateTransition::Disconnecting(ActionAfterDisconnect::Block),
            TunnelStateTransition::Error(ErrorStateInfo { cause, block_failure: None }),
        ]
    );
    world.assert_coherent();
}

#[test]
fn block_while_connecting_clears_routes_and_keeps_allowed_endpoint() {
    let mut world = World::new();
    world.command(TunnelCommand::Connect);
    world.log.clear();
    world.transitions.clear();
    let cause = ErrorStateCause::AuthFailed(AuthFailed::ExpiredAccount);

    world.command(TunnelCommand::Block(cause));
    assert_eq!(
        world.log,
        vec![Happened::Did(Effect::ClearRoutes), Happened::Did(Effect::CloseTunnel)]
    );
    world.handle(EventResult::Close(CloseSignal::Reported(None)));

    assert_eq!(world.state(), &TunnelState::Error(ErrorState { block_reason: cause }));
    assert_eq!(
        world.log,
        vec![
            Happened::Did(Effect::ClearRoutes),
            Happened::Did(Effect::CloseTunnel),
            Happened::Applied(FirewallPolicy::Blocked {
                allow_lan: false,
                allowed_endpoint: Some(api()),
            }),
        ]
    );
    assert_eq!(world.shared.allowed_endpoint, api());
    assert_eq!(
        world.shared.firewall.policy().unwrap().allowed_endpoint(),
        Some(&api())
    );
    assert_eq!(
        world.transitions,
        vec![
            TunnelStateTransition::Disconnecting(ActionAfterDisconnect::Block),
            TunnelStateTransition::Error(ErrorStateInfo { cause, block_failure: None }),
        ]
    );
}

#[test]
fn auth_failed_event_blocks_with_that_cause() {
    let mut world = World::new();
    world.command(TunnelCommand::Connect);
    world.tunnel(TunnelEvent::AuthFailed(AuthFailed::TooManyConnections));
    assert_eq!(
        world.state(),
        &TunnelState::Disconnecting(DisconnectingState {
            after_disconnect: AfterDisconnect::Block(ErrorStateCause::AuthFailed(
                AuthFailed::TooManyConnections
            )),
        })
    );
}

#[test]
fn tunnel_down_while_connecting_forgets_the_interface() {
    let mut world = World::new();
    world.command(TunnelCommand::Connect);
    world.tunnel(TunnelEvent::InterfaceUp(metadata(), AllowedTunnelTraffic::All));
    assert_eq!(world.connecting().allowed_tunnel_traffic, AllowedTunnelTraffic::All);
    world.log.clear();

    world.tunnel(TunnelEvent::Down);
    assert_eq!(world.connecting().allowed_tunnel_traffic, AllowedTunnelTraffic::Nothing);
    assert_eq!(world.connecting().tunnel_metadata, None);
    assert_eq!(world.connecting().retry_attempt, 0);
    assert_eq!(world.log, vec![]);

    // The next policy that is applied names no interface any more.
    world.command(TunnelCommand::AllowLan(true, CompletionToken(1)));
    assert_eq!(
        world.log[0],
        Happened::Applied(connecting_policy(true, None, AllowedTunnelTraffic::Nothing))
    );
    world.assert_coherent();
}

#[test]
fn close_without_cause_begins_the_next_attempt() {
    let mut world = World::new();
    world.command(TunnelCommand::Connect);
    for attempt in 1..4u32 {
        world.log.clear();
        world.handle(EventResult::Close(CloseSignal::Reported(None)));
        assert_eq!(world.connecting().retry_attempt, attempt);
        assert_eq!(
            world.log,
            vec![
                Happened::Did(Effect::ClearRoutes),
                Happened::Generated(attempt),
                Happened::Applied(connecting_policy(false, None, AllowedTunnelTraffic::Nothing)),
                Happened::Did(Effect::StartTunnel {
                    parameters: wireguard(),
                    retry_attempt: attempt,
                }),
            ]
        );
    }
}

#[test]
fn close_with_cause_ends_in_error_without_another_attempt() {
    let mut world = World::new();
    world.command(TunnelCommand::Connect);
    world.log.clear();
    world.handle(EventResult::Close(CloseSignal::Reported(Some(
        ErrorStateCause::StartTunnelError,
    ))));
    assert_eq!(
        world.state(),
        &TunnelState::Error(ErrorState { block_reason: ErrorStateCause::StartTunnelError })
    );
    assert_eq!(
        world.log,
        vec![Happened::Did(Effect::ClearRoutes), Happened::Applied(blocked_policy(false))]
    );
}

#[test]
fn dropped_close_signal_is_noted_and_retried() {
    let mut world = World::new();
    world.command(TunnelCommand::Connect);
    world.log.clear();
    world.handle(EventResult::Close(CloseSignal::Dropped));
    assert_eq!(world.connecting().retry_attempt, 1);
    assert_eq!(world.log[0], Happened::Did(Effect::Warn(Warning::TunnelMonitorStopped)));
    assert_eq!(world.log[1], Happened::Did(Effect::ClearRoutes));
}

#[test]
fn end_of_tunnel_events_reconnects_through_disconnecting() {
    let mut world = World::new();
    world.command(TunnelCommand::Connect);
    world.log.clear();
    world.handle(EventResult::Event(None));
    assert_eq!(
        world.state(),
        &TunnelState::Disconnecting(DisconnectingState {
            after_disconnect: AfterDisconnect::Reconnect(1),
        })
    );
    assert_eq!(
        world.log,
        vec![
            Happened::Did(Effect::Warn(Warning::TunnelDisconnected)),
            Happened::Did(Effect::ClearRoutes),
            Happened::Did(Effect::CloseTunnel),
        ]
    );
    world.handle(EventResult::Close(CloseSignal::Reported(None)));
    assert_eq!(world.connecting().retry_attempt, 1);
}

#[test]
fn parameter_error_leads_to_error_state() {
    let mut world = World::new();
    world.parameters = Err(ParameterGenerationError::NoMatchingRelay);
    world.command(TunnelCommand::Connect);
    assert_eq!(
        world.state(),
        &TunnelState::Error(ErrorState {
            block_reason: ErrorStateCause::TunnelParameterError(
                ParameterGenerationError::NoMatchingRelay
            ),
        })
    );
    assert_eq!(
        world.log,
        vec![Happened::Generated(0), Happened::Applied(blocked_policy(false))]
    );
}

#[test]
fn policy_failure_on_entry_leads_to_error_state_that_reports_it() {
    let mut world = World::new();
    world.firewall_error = Some(Error::ApplyingConnectingPolicy(FirewallPolicyError::Locked));
    world.command(TunnelCommand::Connect);
    let cause = ErrorStateCause::SetFirewallPolicyError(FirewallPolicyError::Locked);
    assert_eq!(world.state(), &TunnelState::Error(ErrorState { block_reason: cause }));
    // The blocked policy failed as well, with an error that belongs to
    // another policy: the error state reports a generic failure.
    assert_eq!(
        world.transitions,
        vec![TunnelStateTransition::Error(ErrorStateInfo {
            cause,
            block_failure: Some(FirewallPolicyError::Generic),
        })]
    );
    // No tunnel was started.
    assert!(world
        .log
        .iter()
        .all(|happened| !matches!(happened, Happened::Did(Effect::StartTunnel { .. }))));
    assert!(world.shared.firewall.is_faulted());
}

#[test]
fn dns_failure_on_entry_leaves_connected_state() {
    let mut world = World::new();
    world.command(TunnelCommand::Connect);
    world.dns_fails = true;
    world.log.clear();
    world.tunnel(TunnelEvent::Up(metadata()));
    assert_eq!(
        world.state(),
        &TunnelState::Disconnecting(DisconnectingState {
            after_disconnect: AfterDisconnect::Block(ErrorStateCause::Other(
                OtherCause::SetDnsError
            )),
        })
    );
    assert_eq!(
        &world.log[1..],
        &[
            Happened::DnsSet(String::from("wg0-mullvad")),
            Happened::Did(Effect::ResetDns),
            Happened::Did(Effect::ClearRoutes),
            Happened::Did(Effect::CloseTunnel),
        ]
    );
}

#[test]
fn dns_command_while_connected_sets_policy_then_dns_then_acknowledges() {
    let mut world = World::new();
    world.connect();
    let servers = vec![IpAddress::v4(1, 1, 1, 1)];
    let config = DnsConfig::Override { tunnel_config: servers.clone(), non_tunnel_config: vec![] };

    world.command(TunnelCommand::Dns(config.clone(), CompletionToken(3)));
    assert_eq!(
        world.log,
        vec![
            Happened::Applied(FirewallPolicy::Connected {
                peer_endpoint: peer(),
                tunnel: metadata(),
                allow_lan: false,
                dns_config: config.resolve(&vec![]),
            }),
            Happened::DnsSet(String::from("wg0-mullvad")),
            Happened::Did(Effect::Acknowledge(CompletionToken(3))),
        ]
    );
    assert!(matches!(world.state(), TunnelState::Connected(_)));
    world.assert_coherent();

    // The same servers again change nothing.
    world.log.clear();
    world.command(TunnelCommand::Dns(config, CompletionToken(4)));
    assert_eq!(world.log, vec![Happened::Did(Effect::Acknowledge(CompletionToken(4)))]);
}

#[test]
fn disconnect_while_connected_leads_to_disconnected() {
    let mut world = World::new();
    world.connect();
    world.command(TunnelCommand::Disconnect);
    assert_eq!(
        world.log,
        vec![
            Happened::Did(Effect::ResetDns),
            Happened::Did(Effect::ClearRoutes),
            Happened::Did(Effect::CloseTunnel),
        ]
    );
    world.handle(EventResult::Close(CloseSignal::Reported(None)));
    assert_eq!(world.state(), &TunnelState::Disconnected(DisconnectedState));
    assert_eq!(
        world.transitions,
        vec![
            TunnelStateTransition::Disconnecting(ActionAfterDisconnect::Nothing),
            TunnelStateTransition::Disconnected { locked_down: false },
        ]
    );
    assert_eq!(world.log.last(), Some(&Happened::Reset));
    assert_eq!(world.shared.firewall.policy(), None);
    world.assert_coherent();
}

#[test]
fn block_when_disconnected_blocks_in_disconnected_state() {
    let mut world = World::new();
    world.command(TunnelCommand::BlockWhenDisconnected(true, CompletionToken(5)));
    assert_eq!(
        world.log,
        vec![
            Happened::Applied(blocked_policy(false)),
            Happened::Did(Effect::Acknowledge(CompletionToken(5))),
        ]
    );
    world.assert_coherent();

    world.log.clear();
    world.command(TunnelCommand::AllowLan(true, CompletionToken(6)));
    assert_eq!(
        world.log,
        vec![
            Happened::Applied(blocked_policy(true)),
            Happened::Did(Effect::Acknowledge(CompletionToken(6))),
        ]
    );
    world.assert_coherent();

    world.log.clear();
    world.command(TunnelCommand::BlockWhenDisconnected(false, CompletionToken(7)));
    assert_eq!(
        world.log,
        vec![Happened::Reset, Happened::Did(Effect::Acknowledge(CompletionToken(7)))]
    );
    world.assert_coherent();
}

#[test]
fn commands_while_disconnecting_revise_the_plan() {
    let mut world = World::new();
    world.command(TunnelCommand::Connect);
    world.command(TunnelCommand::Disconnect);
    let plan = |world: &World| match world.state() {
        TunnelState::Disconnecting(state) => state.after_disconnect,
        other => panic!("not disconnecting: {:?}", other),
    };
    assert_eq!(plan(&world), AfterDisconnect::Nothing);

    world.command(TunnelCommand::Connect);
    assert_eq!(plan(&world), AfterDisconnect::Reconnect(0));

    world.command(TunnelCommand::Connectivity(Connectivity::Offline));
    assert_eq!(plan(&world), AfterDisconnect::Block(ErrorStateCause::IsOffline));

    world.command(TunnelCommand::Connectivity(Connectivity::Online(IpAvailability::Ipv4AndIpv6)));
    assert_eq!(plan(&world), AfterDisconnect::Reconnect(0));

    world.command(TunnelCommand::Block(ErrorStateCause::SplitTunnelError));
    assert_eq!(plan(&world), AfterDisconnect::Block(ErrorStateCause::SplitTunnelError));

    world.log.clear();
    world.command(TunnelCommand::AllowLan(true, CompletionToken(2)));
    assert_eq!(plan(&world), AfterDisconnect::Block(ErrorStateCause::SplitTunnelError));
    assert_eq!(world.log, vec![Happened::Did(Effect::Acknowledge(CompletionToken(2)))]);

    world.handle(EventResult::Close(CloseSignal::Reported(None)));
    assert_eq!(
        world.state(),
        &TunnelState::Error(ErrorState { block_reason: ErrorStateCause::SplitTunnelError })
    );
    assert_eq!(world.log.last(), Some(&Happened::Applied(blocked_policy(true))));
}

#[test]
fn connect_in_error_state_begins_attempt_zero() {
    let mut world = World::new();
    world.command(TunnelCommand::Block(ErrorStateCause::AuthFailed(AuthFailed::InvalidAccount)));
    assert!(matches!(world.state(), TunnelState::Error(_)));
    world.command(TunnelCommand::Connect);
    assert_eq!(world.connecting().retry_attempt, 0);
}

#[test]
fn coming_online_in_error_state_reconnects_only_when_offline_was_the_cause() {
    let mut world = World::new();
    world.shared.connectivity = Connectivity::Offline;
    world.command(TunnelCommand::Connect);
    assert!(matches!(world.state(), TunnelState::Error(_)));
    world.command(TunnelCommand::Connectivity(Connectivity::Online(IpAvailability::Ipv6)));
    assert_eq!(world.connecting().retry_attempt, 0);

    let mut world = World::new();
    world.command(TunnelCommand::Block(ErrorStateCause::StartTunnelError));
    world.command(TunnelCommand::Connectivity(Connectivity::Online(IpAvailability::Ipv6)));
    assert_eq!(
        world.state(),
        &TunnelState::Error(ErrorState { block_reason: ErrorStateCause::StartTunnelError })
    );
}

#[test]
fn end_of_commands_finishes_the_machine_when_disconnected() {
    let mut world = World::new();
    world.handle(EventResult::Command(None));
    assert!(world.finished);
}

#[test]
fn every_step_keeps_the_firewall_coherent_with_the_state() {
    let endpoint = AllowedEndpoint {
        endpoint: Endpoint::new(IpAddress::v4(9, 9, 9, 9), 53, TransportProtocol::Udp),
        clients: AllowedClients::All,
    };
    let mut world = World::new();
    let events = vec![
        EventResult::Command(Some(TunnelCommand::AllowLan(true, CompletionToken(1)))),
        EventResult::Command(Some(TunnelCommand::BlockWhenDisconnected(true, CompletionToken(2)))),
        EventResult::Command(Some(TunnelCommand::Connect)),
        EventResult::Command(Some(TunnelCommand::AllowEndpoint(endpoint, CompletionToken(3)))),
        EventResult::Event(Some(TunnelEvent::InterfaceUp(
            metadata(),
            AllowedTunnelTraffic::One(relay()),
        ))),
        EventResult::Command(Some(TunnelCommand::AllowLan(false, CompletionToken(4)))),
        EventResult::Event(Some(TunnelEvent::Up(metadata()))),
        EventResult::Command(Some(TunnelCommand::AllowLan(true, CompletionToken(5)))),
        EventResult::Command(Some(TunnelCommand::AllowEndpoint(api(), CompletionToken(6)))),
        EventResult::Command(Some(TunnelCommand::Block(ErrorStateCause::SplitTunnelError))),
        EventResult::Command(Some(TunnelCommand::AllowLan(false, CompletionToken(7)))),
        EventResult::Close(CloseSignal::Reported(None)),
        EventResult::Command(Some(TunnelCommand::AllowLan(true, CompletionToken(8)))),
        EventResult::Command(Some(TunnelCommand::Disconnect)),
        EventResult::Command(Some(TunnelCommand::AllowEndpoint(endpoint, CompletionToken(9)))),
        EventResult::Command(Some(TunnelCommand::BlockWhenDisconnected(false, CompletionToken(10)))),
    ];
    for event in events {
        world.handle(event);
        world.assert_coherent();
    }
    assert_eq!(world.state(), &TunnelState::Disconnected(DisconnectedState));
    assert_eq!(world.shared.firewall.policy(), None);
}

#[test]
fn commands_for_the_split_tunnel_are_passed_on_in_every_state() {
    let mut world = World::new();
    let mut token = 100;
    let mut pass = |world: &mut World| {
        token += 2;
        let before = format!("{:?}", world.state());
        world.log.clear();
        world.command(TunnelCommand::BypassSocket(7, CompletionToken(token)));
        world.command(TunnelCommand::SetExcludedApps(CompletionToken(token + 1)));
        assert_eq!(
            world.log,
            vec![
                Happened::Did(Effect::BypassSocket {
                    descriptor: 7,
                    token: CompletionToken(token),
                }),
                Happened::Did(Effect::SetExcludedApps(CompletionToken(token + 1))),
            ]
        );
        assert_eq!(format!("{:?}", world.state()), before);
        world.assert_coherent();
    };
    pass(&mut world);
    world.command(TunnelCommand::Connect);
    pass(&mut world);
    world.tunnel(TunnelEvent::Up(metadata()));
    pass(&mut world);
    world.command(TunnelCommand::Block(ErrorStateCause::SplitTunnelError));
    pass(&mut world);
    world.handle(EventResult::Close(CloseSignal::Reported(None)));
    assert!(matches!(world.state(), TunnelState::Error(_)));
    pass(&mut world);
}

fn acknowledged(world: &World) -> bool {
    world
        .log
        .iter()
        .any(|happened| matches!(happened, Happened::Did(Effect::Acknowledge(_))))
}

#[test]
fn allow_endpoint_while_connecting_is_acknowledged_only_after_the_policy_is_taken() {
    let endpoint = AllowedEndpoint {
        endpoint: Endpoint::new(IpAddress::v4(9, 9, 9, 9), 53, TransportProtocol::Udp),
        clients: AllowedClients::All,
    };
    let expected = FirewallPolicy::Connecting {
        peer_endpoint: peer(),
        tunnel: None,
        allow_lan: false,
        allowed_endpoint: endpoint,
        allowed_tunnel_traffic: AllowedTunnelTraffic::Nothing,
    };

    let mut world = World::new();
    world.command(TunnelCommand::Connect);
    world.log.clear();
    world.command(TunnelCommand::AllowEndpoint(endpoint, CompletionToken(1)));
    assert_eq!(
        world.log,
        vec![
            Happened::Applied(expected.clone()),
            Happened::Did(Effect::Acknowledge(CompletionToken(1))),
        ]
    );
    assert!(matches!(world.state(), TunnelState::Connecting(_)));

    let mut world = World::new();
    world.command(TunnelCommand::Connect);
    world.log.clear();
    world.firewall_error = Some(Error::ApplyingConnectingPolicy(FirewallPolicyError::Generic));
    world.command(TunnelCommand::AllowEndpoint(endpoint, CompletionToken(2)));
    assert_eq!(
        world.log,
        vec![
            Happened::ApplyFailed(expected),
            Happened::Did(Effect::ClearRoutes),
            Happened::Did(Effect::CloseTunnel),
        ]
    );
    assert_eq!(
        world.state(),
        &TunnelState::Disconnecting(DisconnectingState {
            after_disconnect: AfterDisconnect::Block(ErrorStateCause::SetFirewallPolicyError(
                FirewallPolicyError::Generic
            )),
        })
    );
}

#[test]
fn dns_while_connecting_applies_the_policy_before_acknowledging() {
    let config = DnsConfig::Override {
        tunnel_config: vec![IpAddress::v4(1, 1, 1, 1)],
        non_tunnel_config: vec![],
    };

    let mut world = World::new();
    world.command(TunnelCommand::Connect);
    world.log.clear();
    world.command(TunnelCommand::Dns(config.clone(), CompletionToken(1)));
    assert_eq!(world.shared.dns_config, config);
    assert_eq!(
        world.log,
        vec![
            Happened::Applied(connecting_policy(false, None, AllowedTunnelTraffic::Nothing)),
            Happened::Did(Effect::Acknowledge(CompletionToken(1))),
        ]
    );
    assert_eq!(world.connecting().retry_attempt, 0);
    world.assert_coherent();

    // The same servers again change nothing: nothing is asked of the
    // firewall, and the command is acknowledged at once.
    world.log.clear();
    world.command(TunnelCommand::Dns(config, CompletionToken(2)));
    assert_eq!(world.log, vec![Happened::Did(Effect::Acknowledge(CompletionToken(2)))]);
}

#[test]
fn dns_while_connecting_ends_in_error_when_policy_fails() {
    let config = DnsConfig::Override {
        tunnel_config: vec![IpAddress::v4(1, 1, 1, 1)],
        non_tunnel_config: vec![],
    };
    let mut world = World::new();
    world.command(TunnelCommand::Connect);
    world.log.clear();
    world.transitions.clear();
    world.firewall_error = Some(Error::ApplyingConnectingPolicy(FirewallPolicyError::Locked));
    world.command(TunnelCommand::Dns(config.clone(), CompletionToken(1)));

    let cause = ErrorStateCause::SetFirewallPolicyError(FirewallPolicyError::Locked);
    assert_eq!(world.shared.dns_config, config);
    assert_eq!(
        world.state(),
        &TunnelState::Disconnecting(DisconnectingState {
            after_disconnect: AfterDisconnect::Block(cause),
        })
    );
    assert_eq!(
        world.log,
        vec![
            Happened::ApplyFailed(connecting_policy(false, None, AllowedTunnelTraffic::Nothing)),
            Happened::Did(Effect::ClearRoutes),
            Happened::Did(Effect::CloseTunnel),
        ]
    );

    world.firewall_error = None;
    world.handle(EventResult::Close(CloseSignal::Reported(None)));
    assert_eq!(world.state(), &TunnelState::Error(ErrorState { block_reason: cause }));
    assert!(!acknowledged(&world));
}

#[test]
fn no_state_acknowledges_a_command_whose_policy_was_refused() {
    // connected: the LAN setting
    let mut world = World::new();
    world.connect();
    world.firewall_error = Some(Error::ApplyingConnectedPolicy(FirewallPolicyError::Locked));
    world.command(TunnelCommand::AllowLan(true, CompletionToken(1)));
    assert_eq!(
        &world.log[1..],
        &[
            Happened::Did(Effect::ResetDns),
            Happened::Did(Effect::ClearRoutes),
            Happened::Did(Effect::CloseTunnel),
        ]
    );
    assert!(matches!(world.log[0], Happened::ApplyFailed(_)));
    assert_eq!(
        world.state(),
        &TunnelState::Disconnecting(DisconnectingState {
            after_disconnect: AfterDisconnect::Block(ErrorStateCause::SetFirewallPolicyError(
                FirewallPolicyError::Locked
            )),
        })
    );

    // connected: the DNS servers, refused by the firewall
    let config = DnsConfig::Override {
        tunnel_config: vec![IpAddress::v4(1, 1, 1, 1)],
        non_tunnel_config: vec![],
    };
    let mut world = World::new();
    world.connect();
    world.firewall_error = Some(Error::ApplyingConnectedPolicy(FirewallPolicyError::Generic));
    world.command(TunnelCommand::Dns(config.clone(), CompletionToken(2)));
    assert!(!acknowledged(&world));
    assert!(matches!(world.state(), TunnelState::Disconnecting(_)));

    // connected: the DNS servers, taken by the firewall and refused by the
    // system's DNS settings
    let mut world = World::new();
    world.connect();
    world.dns_fails = true;
    world.command(TunnelCommand::Dns(config, CompletionToken(3)));
    assert!(!acknowledged(&world));
    assert_eq!(
        world.state(),
        &TunnelState::Disconnecting(DisconnectingState {
            after_disconnect: AfterDisconnect::Block(ErrorStateCause::Other(
                OtherCause::SetDnsError
            )),
        })
    );

    // error state: the state stays, without an acknowledgment
    let mut world = World::new();
    world.command(TunnelCommand::Block(ErrorStateCause::StartTunnelError));
    world.log.clear();
    world.firewall_error = Some(Error::ApplyingBlockedPolicy(FirewallPolicyError::Locked));
    world.command(TunnelCommand::AllowLan(true, CompletionToken(4)));
    assert_eq!(world.log, vec![Happened::ApplyFailed(blocked_policy(true))]);
    assert_eq!(
        world.state(),
        &TunnelState::Error(ErrorState { block_reason: ErrorStateCause::StartTunnelError })
    );
    assert!(world.shared.firewall.is_faulted());
    // Once the firewall takes a policy again, commands are acknowledged.
    world.firewall_error = None;
    world.log.clear();
    world.command(TunnelCommand::AllowEndpoint(peer(), CompletionToken(5)));
    assert!(acknowledged(&world));
    assert!(!world.shared.firewall.is_faulted());

    // disconnected state: the state stays, without an acknowledgment
    let mut world = World::new();
    world.firewall_error = Some(Error::ApplyingBlockedPolicy(FirewallPolicyError::Locked));
    world.command(TunnelCommand::BlockWhenDisconnected(true, CompletionToken(6)));
    assert_eq!(world.log, vec![Happened::ApplyFailed(blocked_policy(false))]);
    assert_eq!(world.state(), &TunnelState::Disconnected(DisconnectedState));
    world.firewall_error = None;
    world.log.clear();
    world.command(TunnelCommand::AllowLan(true, CompletionToken(7)));
    assert_eq!(
        world.log,
        vec![
            Happened::Applied(blocked_policy(true)),
            Happened::Did(Effect::Acknowledge(CompletionToken(7))),
        ]
    );
}
