//! The connected state: the tunnel is established.

use super::connecting_state::disconnecting;
use super::error_state::connecting_entered;
use super::laws::{coherent, step_coherent};
use super::{
    acknowledge, ask_firewall, asks_firewall, bypass_socket, get_gateways, get_peer_endpoint,
    new_state, same_state, set_excluded_apps, AfterDisconnect, AfterDns, AfterPolicy, CloseSignal,
    CompletionToken, ConnectedState, ConnectingState, DisconnectingState, Effect, ErrorState,
    EventConsequence, EventResult, Next, SharedTunnelStateValues, SharedView, Step, TunnelCommand,
    TunnelState, TunnelStateTransition, TunnelStateView, Warning,
};
use crate::dns::DnsError;
use crate::firewall::Error;
use crate::tunnel::{
    ErrorStateCause, FirewallPolicyError, OtherCause, TunnelEvent, TunnelMetadata, TunnelParameters,
};
use crate::dns::ResolvedDnsConfig;
use crate::firewall::FirewallPolicy;
use vstd::prelude::*;

verus! {

/// The number of the connection attempt that follows an established tunnel.
pub const RETRY_AFTER_CONNECTED: u32 = 1;

/// The mapping of a firewall error to what the error state reports after a
/// connected policy was not taken.
pub open spec fn connected_policy_error(error: Error) -> FirewallPolicyError {
    match error {
        Error::ApplyingConnectedPolicy(policy_error) => policy_error,
        _ => FirewallPolicyError::Generic,
    }
}

/// The end of an event's handling that leaves the connected state live.
pub open spec fn still_connected(state: ConnectedState) -> Next {
    Next::Done(EventConsequence::SameState(TunnelState::Connected(state)))
}

/// Whether `next` asks for the DNS settings of the connected state that
/// `then` belongs to, and hands `then` over for the time after.
pub open spec fn asks_dns(next: Next, shared: SharedView, then: AfterDns) -> bool {
    &&& next matches Next::SetDns { interface, config, then: after }
    &&& interface@ == then.state().metadata.interface
    &&& config@ == then.state().dns(shared)
    &&& after == then
}

/// The effects with which the connected state is left.
pub open spec fn leaving_connected() -> Seq<Effect> {
    seq![Effect::ResetDns, Effect::ClearRoutes, Effect::CloseTunnel]
}

/// The continuation of a request for the DNS settings of `state`: with a
/// token, the state stays live and the command is acknowledged; without, the
/// state is being entered.
pub open spec fn after_dns(state: ConnectedState, token: Option<CompletionToken>) -> AfterDns {
    match token {
        Some(token) => AfterDns::KeepConnected { state, token },
        None => AfterDns::EnterConnected { state },
    }
}

/// What the connected state answers to a command: `before` and `after` are
/// the shared values before and after, `step` is the answer.
pub open spec fn commands_handled(
    state: ConnectedState,
    command: Option<TunnelCommand>,
    before: SharedView,
    after: SharedView,
    step: Step,
) -> bool {
    match command {
        Some(TunnelCommand::AllowLan(allow_lan, token)) => {
            &&& after == (SharedView { allow_lan, ..before })
            &&& if before.allow_lan != allow_lan {
                &&& step.effects@ == Seq::<Effect>::empty()
                &&& asks_firewall(
                    step.next,
                    after,
                    AfterPolicy::KeepConnected { state: state, token, dns: false },
                )
            } else {
                &&& step.effects@ == seq![Effect::Acknowledge(token)]
                &&& step.next == still_connected(state)
            }
        },
        Some(TunnelCommand::AllowEndpoint(endpoint, token)) => {
            &&& after == (SharedView {
                allowed_endpoint: endpoint,
                ..before
            })
            &&& step.effects@ == seq![Effect::Acknowledge(token)]
            &&& step.next == still_connected(state)
        },
        Some(TunnelCommand::Dns(config, token)) => {
            &&& after == (SharedView {
                dns_config: config@,
                ..before
            })
            &&& if before.dns_config != config@ {
                &&& step.effects@ == Seq::<Effect>::empty()
                &&& asks_firewall(
                    step.next,
                    after,
                    AfterPolicy::KeepConnected { state: state, token, dns: true },
                )
            } else {
                &&& step.effects@ == seq![Effect::Acknowledge(token)]
                &&& step.next == still_connected(state)
            }
        },
        Some(TunnelCommand::BlockWhenDisconnected(block, token)) => {
            &&& after == (SharedView {
                block_when_disconnected: block,
                ..before
            })
            &&& step.effects@ == seq![Effect::Acknowledge(token)]
            &&& step.next == still_connected(state)
        },
        Some(TunnelCommand::Connectivity(connectivity)) => {
            &&& after == (SharedView {
                connectivity,
                ..before
            })
            &&& if connectivity.is_offline() {
                &&& step.effects@ == leaving_connected()
                &&& step.next == disconnecting(
                    AfterDisconnect::Block(ErrorStateCause::IsOffline),
                )
            } else {
                &&& step.effects@ == Seq::<Effect>::empty()
                &&& step.next == still_connected(state)
            }
        },
        Some(TunnelCommand::Connect) => {
            &&& after == before
            &&& step.effects@ == leaving_connected()
            &&& step.next == disconnecting(AfterDisconnect::Reconnect(0))
        },
        Some(TunnelCommand::Disconnect) | None => {
            &&& after == before
            &&& step.effects@ == leaving_connected()
            &&& step.next == disconnecting(AfterDisconnect::Nothing)
        },
        Some(TunnelCommand::Block(reason)) => {
            &&& after == before
            &&& step.effects@ == leaving_connected()
            &&& step.next == disconnecting(AfterDisconnect::Block(reason))
        },
        Some(TunnelCommand::BypassSocket(descriptor, token)) => {
            &&& after == before
            &&& step.effects@ == seq![Effect::BypassSocket { descriptor, token }]
            &&& step.next == still_connected(state)
        },
        Some(TunnelCommand::SetExcludedApps(token)) => {
            &&& after == before
            &&& step.effects@ == seq![Effect::SetExcludedApps(token)]
            &&& step.next == still_connected(state)
        },
    }
}

/// What the connected state answers to an event of the tunnel.
pub open spec fn tunnel_events_handled(
    state: ConnectedState,
    event: Option<TunnelEvent>,
    shared: SharedView,
    step: Step,
) -> bool {
    match event {
        Some(TunnelEvent::Down) | None => {
            &&& step.effects@ == leaving_connected()
            &&& connecting_entered(step.next, shared, RETRY_AFTER_CONNECTED)
        },
        Some(_) => {
            &&& step.effects@ == Seq::<Effect>::empty()
            &&& step.next == still_connected(state)
        },
    }
}

/// What the connected state answers to an event: `before` and `after` are
/// the shared values before and after, `step` is the answer.
pub open spec fn event_handled(
    state: ConnectedState,
    event: EventResult,
    before: SharedView,
    after: SharedView,
    step: Step,
) -> bool {
    match event {
        EventResult::Command(command) => commands_handled(state, command, before, after, step),
        EventResult::Event(event) => {
            &&& after == before
            &&& tunnel_events_handled(state, event, after, step)
        },
        EventResult::Close(signal) => {
            &&& after == before
            &&& step.effects@ == (match signal {
                CloseSignal::Reported(_) => Seq::<Effect>::empty(),
                CloseSignal::Dropped => seq![Effect::Warn(Warning::TunnelMonitorStopped)],
            }) + seq![Effect::ResetDns, Effect::ClearRoutes]
            &&& match signal.block_reason() {
                Some(cause) => asks_firewall(
                    step.next,
                    after,
                    AfterPolicy::EnterError { cause },
                ),
                None => connecting_entered(
                    step.next,
                    after,
                    RETRY_AFTER_CONNECTED,
                ),
            }
        },
    }
}

impl ConnectedState {
    /// The policy that the firewall is to enforce in this state.
    pub fn get_firewall_policy(
        &self,
        shared_values: &SharedTunnelStateValues,
    ) -> (policy: FirewallPolicy)
        ensures
            policy@ == self@.policy(shared_values@),
    {
        FirewallPolicy::Connected {
            peer_endpoint: get_peer_endpoint(&self.tunnel_parameters),
            tunnel: self.metadata.clone(),
            allow_lan: shared_values.allow_lan,
            dns_config: self.resolve_dns(shared_values),
        }
    }

    /// The DNS servers that the system is to use in this state.
    pub fn resolve_dns(
        &self,
        shared_values: &SharedTunnelStateValues,
    ) -> (config: ResolvedDnsConfig)
        ensures
            config@ == self@.dns(shared_values@),
    {
        let servers = get_gateways(&self.metadata);
        shared_values.dns_config.resolve(&servers)
    }

    /// Begins to enter the connected state: the firewall is asked for the
    /// policy of the established tunnel.
    pub fn enter(
        shared_values: &SharedTunnelStateValues,
        metadata: TunnelMetadata,
        tunnel_parameters: TunnelParameters,
    ) -> (step: Step)
        ensures
            step.effects@ == Seq::<Effect>::empty(),
            asks_firewall(
                step.next,
                shared_values@,
                AfterPolicy::EnterConnected {
                    state: ConnectedState { metadata, tunnel_parameters },
                },
            ),
    {
        let state = ConnectedState { metadata, tunnel_parameters };
        ask_firewall(shared_values, Vec::new(), AfterPolicy::EnterConnected { state })
    }

    /// Why a connected policy was not taken, as the error state reports it.
    pub fn policy_error(error: Error) -> (r: FirewallPolicyError)
        ensures
            r == connected_policy_error(error),
    {
        match error {
            Error::ApplyingConnectedPolicy(policy_error) => policy_error,
            _ => FirewallPolicyError::Generic,
        }
    }

    /// Gives back the DNS settings and removes the routes that lead into the
    /// tunnel.
    pub fn reset_dns_and_routes(effects: &mut Vec<Effect>)
        ensures
            final(effects)@ == old(effects)@ + seq![Effect::ResetDns, Effect::ClearRoutes],
    {
        effects.push(Effect::ResetDns);
        effects.push(Effect::ClearRoutes);
        assert(effects@ == old(effects)@ + seq![Effect::ResetDns, Effect::ClearRoutes]);
    }

    /// Leaves the connected state: the DNS settings are given back and the
    /// routes are cleared, then the tunnel is told to stop, and
    /// `after_disconnect` says what follows its end.
    pub fn disconnect(
        self,
        effects: Vec<Effect>,
        after_disconnect: AfterDisconnect,
    ) -> (step: Step)
        ensures
            step.effects@ == effects@ + leaving_connected(),
            step.next == disconnecting(after_disconnect),
    {
        let mut effects = effects;
        Self::reset_dns_and_routes(&mut effects);
        DisconnectingState::enter(effects, after_disconnect)
    }

    /// The step that asks for the DNS settings of this state.
    pub fn set_dns(
        self,
        shared_values: &SharedTunnelStateValues,
        token: Option<CompletionToken>,
    ) -> (step: Step)
        ensures
            step.effects@ == Seq::<Effect>::empty(),
            asks_dns(step.next, shared_values@, after_dns(self, token)),
    {
        let interface = self.metadata.interface.clone();
        let config = self.resolve_dns(shared_values);
        let then = match token {
            Some(token) => AfterDns::KeepConnected { state: self, token },
            None => AfterDns::EnterConnected { state: self },
        };
        Step { effects: Vec::new(), next: Next::SetDns { interface, config, then } }
    }

    /// Goes on entering the connected state after the firewall port has
    /// answered. Where it took the policy, the DNS settings are asked for.
    /// Where it did not, the tunnel is closed and the error state will
    /// follow.
    pub fn policy_set(
        self,
        shared_values: &SharedTunnelStateValues,
        outcome: Result<(), Error>,
    ) -> (step: Step)
        ensures
            match outcome {
                Ok(_) => {
                    &&& step.effects@ == Seq::<Effect>::empty()
                    &&& asks_dns(
                        step.next,
                        shared_values@,
                        AfterDns::EnterConnected { state: self },
                    )
                },
                Err(error) => {
                    &&& step.effects@ == seq![Effect::ClearRoutes, Effect::CloseTunnel]
                    &&& step.next == disconnecting(
                        AfterDisconnect::Block(
                            ErrorStateCause::SetFirewallPolicyError(connected_policy_error(error)),
                        ),
                    )
                },
            },
    {
        match outcome {
            Ok(_) => self.set_dns(shared_values, None),
            Err(error) => {
                let mut effects: Vec<Effect> = Vec::new();
                effects.push(Effect::ClearRoutes);
                DisconnectingState::enter(
                    effects,
                    AfterDisconnect::Block(
                        ErrorStateCause::SetFirewallPolicyError(Self::policy_error(error)),
                    ),
                )
            },
        }
    }

    /// Finishes entering the connected state after the DNS settings have
    /// been asked for. Where they were set, the state becomes live. Where
    /// they were not, the state is left at once and the error state will
    /// follow.
    pub fn dns_set(self, outcome: Result<(), DnsError>) -> (step: Step)
        ensures
            match outcome {
                Ok(_) => {
                    &&& step.effects@ == Seq::<Effect>::empty()
                    &&& step.next == Next::Done(
                        EventConsequence::NewState(
                            TunnelState::Connected(self),
                            TunnelStateTransition::Connected(
                                self.tunnel_parameters.tunnel_endpoint(),
                            ),
                        ),
                    )
                },
                Err(_) => {
                    &&& step.effects@ == leaving_connected()
                    &&& step.next == disconnecting(
                        AfterDisconnect::Block(ErrorStateCause::Other(OtherCause::SetDnsError)),
                    )
                },
            },
    {
        match outcome {
            Ok(_) => {
                let endpoint = self.tunnel_parameters.get_tunnel_endpoint();
                new_state(
                    Vec::new(),
                    TunnelState::Connected(self),
                    TunnelStateTransition::Connected(endpoint),
                )
            },
            Err(_) => self.disconnect(
                Vec::new(),
                AfterDisconnect::Block(ErrorStateCause::Other(OtherCause::SetDnsError)),
            ),
        }
    }

    /// Goes on after the firewall port has answered to a policy applied anew
    /// in the connected state. Where it took the policy, the DNS settings
    /// are asked for if `dns` says so, and else the command is acknowledged
    /// and the state stays live. Where it did not, the state is left, the
    /// error state will follow, and the command is not acknowledged.
    pub fn firewall_reset(
        self,
        shared_values: &SharedTunnelStateValues,
        token: CompletionToken,
        dns: bool,
        outcome: Result<(), Error>,
    ) -> (step: Step)
        ensures
            match outcome {
                Ok(_) => if dns {
                    &&& step.effects@ == Seq::<Effect>::empty()
                    &&& asks_dns(
                        step.next,
                        shared_values@,
                        AfterDns::KeepConnected { state: self, token },
                    )
                } else {
                    &&& step.effects@ == seq![Effect::Acknowledge(token)]
                    &&& step.next == still_connected(self)
                },
                Err(error) => {
                    &&& step.effects@ == leaving_connected()
                    &&& step.next == disconnecting(
                        AfterDisconnect::Block(
                            ErrorStateCause::SetFirewallPolicyError(connected_policy_error(error)),
                        ),
                    )
                },
            },
    {
        match outcome {
            Ok(_) => {
                if dns {
                    self.set_dns(shared_values, Some(token))
                } else {
                    self.acknowledged(token)
                }
            },
            Err(error) => self.disconnect(
                Vec::new(),
                AfterDisconnect::Block(
                    ErrorStateCause::SetFirewallPolicyError(Self::policy_error(error)),
                ),
            ),
        }
    }

    /// Goes on after the DNS settings have been asked for anew in the
    /// connected state. Where they were set, the command is acknowledged and
    /// the state stays live. Where they were not, the state is left, the
    /// error state will follow, and the command is not acknowledged.
    pub fn dns_reset(self, token: CompletionToken, outcome: Result<(), DnsError>) -> (step: Step)
        ensures
            match outcome {
                Ok(_) => {
                    &&& step.effects@ == seq![Effect::Acknowledge(token)]
                    &&& step.next == still_connected(self)
                },
                Err(_) => {
                    &&& step.effects@ == leaving_connected()
                    &&& step.next == disconnecting(
                        AfterDisconnect::Block(ErrorStateCause::Other(OtherCause::SetDnsError)),
                    )
                },
            },
    {
        match outcome {
            Ok(_) => self.acknowledged(token),
            Err(_) => self.disconnect(
                Vec::new(),
                AfterDisconnect::Block(ErrorStateCause::Other(OtherCause::SetDnsError)),
            ),
        }
    }

    /// Stays in the connected state and acknowledges a command.
    pub fn acknowledged(self, token: CompletionToken) -> (step: Step)
        ensures
            step.effects@ == seq![Effect::Acknowledge(token)],
            step.next == still_connected(self),
    {
        let mut effects: Vec<Effect> = Vec::new();
        acknowledge(&mut effects, Some(token));
        same_state(effects, TunnelState::Connected(self))
    }

    /// Handles a command in the connected state.
    ///
    /// A change of the LAN setting has the policy of this state applied
    /// anew, and a change of the DNS servers has the policy applied and the
    /// DNS settings set anew. The command is acknowledged only after that
    /// has succeeded; where it fails, the tunnel is closed to enter the
    /// error state after, and the command is not acknowledged. The
    /// allowed endpoint and the blocking while disconnected are noted and
    /// acknowledged: the policy of this state rests on neither. The news
    /// that the host is offline closes the tunnel, to enter the error state
    /// after. `Connect` closes the tunnel to begin anew with attempt 0,
    /// `Disconnect` and the end of the commands close it for good, and
    /// `Block` closes it to enter the error state.
    /// A command for the sockets or applications that go outside the tunnel
    /// is passed on to the port that carries it out.
    pub fn handle_commands(
        self,
        command: Option<TunnelCommand>,
        shared_values: &mut SharedTunnelStateValues,
    ) -> (step: Step)
        ensures
            commands_handled(self, command, old(shared_values)@, final(shared_values)@, step),
            coherent(TunnelStateView::Connected(self@), old(shared_values)@) ==> step_coherent(
                step.next,
                final(shared_values)@,
            ),
    {
        match command {
            Some(TunnelCommand::AllowLan(allow_lan, token)) => {
                if shared_values.set_allow_lan(allow_lan) {
                    ask_firewall(
                        shared_values,
                        Vec::new(),
                        AfterPolicy::KeepConnected { state: self, token, dns: false },
                    )
                } else {
                    self.acknowledged(token)
                }
            },
            Some(TunnelCommand::AllowEndpoint(endpoint, token)) => {
                shared_values.allowed_endpoint = endpoint;
                self.acknowledged(token)
            },
            Some(TunnelCommand::Dns(config, token)) => {
                if shared_values.set_dns_config(config) {
                    ask_firewall(
                        shared_values,
                        Vec::new(),
                        AfterPolicy::KeepConnected { state: self, token, dns: true },
                    )
                } else {
                    self.acknowledged(token)
                }
            },
            Some(TunnelCommand::BlockWhenDisconnected(block, token)) => {
                shared_values.block_when_disconnected = block;
                self.acknowledged(token)
            },
            Some(TunnelCommand::Connectivity(connectivity)) => {
                shared_values.connectivity = connectivity;
                if connectivity.is_offline() {
                    self.disconnect(
                        Vec::new(),
                        AfterDisconnect::Block(ErrorStateCause::IsOffline),
                    )
                } else {
                    same_state(Vec::new(), TunnelState::Connected(self))
                }
            },
            Some(TunnelCommand::Connect) => self.disconnect(
                Vec::new(),
                AfterDisconnect::Reconnect(0),
            ),
            Some(TunnelCommand::Disconnect) | None => self.disconnect(
                Vec::new(),
                AfterDisconnect::Nothing,
            ),
            Some(TunnelCommand::Block(reason)) => self.disconnect(
                Vec::new(),
                AfterDisconnect::Block(reason),
            ),
            Some(TunnelCommand::BypassSocket(descriptor, token)) => bypass_socket(
                TunnelState::Connected(self),
                descriptor,
                token,
            ),
            Some(TunnelCommand::SetExcludedApps(token)) => set_excluded_apps(
                TunnelState::Connected(self),
                token,
            ),
        }
    }

    /// Handles an event of the tunnel in the connected state. When the
    /// tunnel reports that it is down, or its events end, the state is left
    /// and a connection attempt begins, numbered 1: the count of attempts
    /// starts anew after a tunnel that was established. Other events change
    /// nothing.
    pub fn handle_tunnel_events(
        self,
        event: Option<TunnelEvent>,
        shared_values: &SharedTunnelStateValues,
    ) -> (step: Step)
        ensures
            tunnel_events_handled(self, event, shared_values@, step),
            coherent(TunnelStateView::Connected(self@), shared_values@) ==> step_coherent(
                step.next,
                shared_values@,
            ),
    {
        match event {
            Some(TunnelEvent::Down) | None => {
                let mut effects: Vec<Effect> = Vec::new();
                Self::reset_dns_and_routes(&mut effects);
                effects.push(Effect::CloseTunnel);
                assert(effects@ == leaving_connected());
                ConnectingState::enter(shared_values, effects, RETRY_AFTER_CONNECTED)
            },
            Some(_) => same_state(Vec::new(), TunnelState::Connected(self)),
        }
    }

    /// Handles the end of the tunnel in the connected state. The DNS
    /// settings are given back and the routes cleared first. Where the
    /// tunnel ended for a cause that blocks, the error state is entered with
    /// that cause; else a connection attempt begins, numbered 1.
    pub fn handle_tunnel_close_event(
        self,
        block_reason: Option<ErrorStateCause>,
        shared_values: &SharedTunnelStateValues,
        effects: Vec<Effect>,
    ) -> (step: Step)
        ensures
            step.effects@ == effects@ + seq![Effect::ResetDns, Effect::ClearRoutes],
            match block_reason {
                Some(cause) => asks_firewall(
                    step.next,
                    shared_values@,
                    AfterPolicy::EnterError { cause },
                ),
                None => connecting_entered(step.next, shared_values@, RETRY_AFTER_CONNECTED),
            },
    {
        let mut effects = effects;
        Self::reset_dns_and_routes(&mut effects);
        match block_reason {
            Some(block_reason) => ErrorState::enter(shared_values, effects, block_reason),
            None => ConnectingState::enter(shared_values, effects, RETRY_AFTER_CONNECTED),
        }
    }

    /// Handles one event in the connected state: a command, an event of the
    /// tunnel or the tunnel's close signal. A close signal that was dropped
    /// is noted as a warning and then handled as the end of the tunnel
    /// without a cause.
    pub fn handle_event(
        self,
        shared_values: &mut SharedTunnelStateValues,
        event: EventResult,
    ) -> (step: Step)
        ensures
            event_handled(self, event, old(shared_values)@, final(shared_values)@, step),
            coherent(TunnelStateView::Connected(self@), old(shared_values)@) ==> step_coherent(
                step.next,
                final(shared_values)@,
            ),
    {
        match event {
            EventResult::Command(command) => self.handle_commands(command, shared_values),
            EventResult::Event(event) => self.handle_tunnel_events(event, shared_values),
            EventResult::Close(signal) => {
                let mut effects: Vec<Effect> = Vec::new();
                match signal {
                    CloseSignal::Dropped => {
                        effects.push(Effect::Warn(Warning::TunnelMonitorStopped));
                    },
                    CloseSignal::Reported(_) => {},
                }
                self.handle_tunnel_close_event(signal.block_reason(), shared_values, effects)
            },
        }
    }
}

} // verus!
