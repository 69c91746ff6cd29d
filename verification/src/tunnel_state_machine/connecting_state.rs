//! The connecting state: one attempt to establish the tunnel.

use super::error_state::connecting_entered;
use super::laws::{coherent, step_coherent};
use super::{
    acknowledge, acknowledgment, ask_firewall, asks_firewall, bypass_socket, connecting_policy,
    get_peer_endpoint, new_state, same_state, set_excluded_apps, AfterDisconnect, AfterPolicy,
    CloseSignal, CompletionToken, ConnectedState, ConnectingState, DisconnectingState, Effect,
    ErrorState, EventConsequence, EventResult, Next, SharedTunnelStateValues, SharedView, Step,
    TunnelCommand, TunnelState, TunnelStateTransition, TunnelStateView, Warning,
};
use crate::firewall::{Error, FirewallPolicy};
use crate::net::AllowedTunnelTraffic;
use crate::time::Duration;
use crate::tunnel::{
    clone_metadata, metadata_view, ErrorStateCause, FirewallPolicyError, TunnelError, TunnelEvent,
    TunnelMetadata, TunnelParameters, WireguardError,
};
use vstd::prelude::*;

verus! {

/// What the tunnel may carry right after a connection attempt has begun.
pub const INITIAL_ALLOWED_TUNNEL_TRAFFIC: AllowedTunnelTraffic = AllowedTunnelTraffic::Nothing;

/// The least time that a tunnel attempt takes before the next one begins,
/// in milliseconds.
pub const MIN_TUNNEL_ALIVE_TIME_MS: u64 = 1000;

/// The number of attempts during which a failure to create the tunnel
/// device is taken to be transient.
pub const MAX_ATTEMPT_CREATE_TUN: u32 = 4;

/// How a tunnel attempt ended.
#[derive(Clone, Copy, Debug, PartialEq, Eq)]
pub enum TunnelOutcome {
    /// The tunnel did not start.
    StartFailed(TunnelError),
    /// The tunnel started and then stopped, with or without an error.
    Stopped(Result<(), TunnelError>),
}

/// The mapping of a firewall error to what the error state reports after a
/// connecting policy was not taken.
pub open spec fn connecting_policy_error(error: Error) -> FirewallPolicyError {
    match error {
        Error::ApplyingConnectingPolicy(policy_error) => policy_error,
        _ => FirewallPolicyError::Generic,
    }
}

/// The end of an event's handling that makes the disconnecting state live.
pub open spec fn disconnecting(after_disconnect: AfterDisconnect) -> Next {
    Next::Done(
        EventConsequence::NewState(
            TunnelState::Disconnecting(DisconnectingState { after_disconnect }),
            TunnelStateTransition::Disconnecting(after_disconnect.spec_action()),
        ),
    )
}

/// The end of an event's handling that leaves the connecting state live.
pub open spec fn still_connecting(state: ConnectingState) -> Next {
    Next::Done(EventConsequence::SameState(TunnelState::Connecting(state)))
}

/// The connecting state in which a connection attempt begins.
pub open spec fn fresh_attempt(
    parameters: TunnelParameters,
    retry_attempt: u32,
) -> ConnectingState {
    ConnectingState {
        tunnel_parameters: parameters,
        tunnel_metadata: None,
        allowed_tunnel_traffic: AllowedTunnelTraffic::Nothing,
        retry_attempt,
    }
}

/// Whether the handling of `event` in a state with a running tunnel leads to
/// the next connection attempt, numbered one higher than the present one.
pub open spec fn needs_next_attempt(event: EventResult) -> bool {
    match event {
        EventResult::Command(_) => false,
        EventResult::Event(event) => event is None,
        EventResult::Close(signal) => signal.spec_block_reason() is None,
    }
}

/// What the connecting state answers to a command: `before` and `after` are
/// the shared values before and after, `step` is the answer.
pub open spec fn commands_handled(
    state: ConnectingState,
    command: Option<TunnelCommand>,
    before: SharedView,
    after: SharedView,
    step: Step,
) -> bool {
    match command {
        Some(TunnelCommand::AllowLan(allow_lan, token)) => {
            &&& after == (SharedView { allow_lan, ..before })
            &&& if before.allow_lan != allow_lan {
                &&& step.effects@ == Seq::<Effect>::empty()
                &&& asks_firewall(
                    step.next,
                    after,
                    AfterPolicy::KeepConnecting {
                        connecting: state,
                        acknowledge: Some(token),
                    },
                )
            } else {
                &&& step.effects@ == seq![Effect::Acknowledge(token)]
                &&& step.next == still_connecting(state)
            }
        },
        Some(TunnelCommand::AllowEndpoint(endpoint, token)) => {
            &&& after == (SharedView {
                allowed_endpoint: endpoint,
                ..before
            })
            &&& if before.allowed_endpoint != endpoint {
                &&& step.effects@ == Seq::<Effect>::empty()
                &&& asks_firewall(
                    step.next,
                    after,
                    AfterPolicy::KeepConnecting {
                        connecting: state,
                        acknowledge: Some(token),
                    },
                )
            } else {
                &&& step.effects@ == seq![Effect::Acknowledge(token)]
                &&& step.next == still_connecting(state)
            }
        },
        Some(TunnelCommand::Dns(config, token)) => {
            &&& after == (SharedView {
                dns_config: config@,
                ..before
            })
            &&& if before.dns_config != config@ {
                &&& step.effects@ == Seq::<Effect>::empty()
                &&& asks_firewall(
                    step.next,
                    after,
                    AfterPolicy::KeepConnecting {
                        connecting: state,
                        acknowledge: Some(token),
                    },
                )
            } else {
                &&& step.effects@ == seq![Effect::Acknowledge(token)]
                &&& step.next == still_connecting(state)
            }
        },
        Some(TunnelCommand::BlockWhenDisconnected(block, token)) => {
            &&& after == (SharedView {
                block_when_disconnected: block,
                ..before
            })
            &&& step.effects@ == seq![Effect::Acknowledge(token)]
            &&& step.next == still_connecting(state)
        },
        Some(TunnelCommand::Connectivity(connectivity)) => {
            &&& after == (SharedView {
                connectivity,
                ..before
            })
            &&& if connectivity.is_offline() {
                &&& step.effects@ == seq![Effect::ClearRoutes, Effect::CloseTunnel]
                &&& step.next == disconnecting(
                    AfterDisconnect::Block(ErrorStateCause::IsOffline),
                )
            } else {
                &&& step.effects@ == Seq::<Effect>::empty()
                &&& step.next == still_connecting(state)
            }
        },
        Some(TunnelCommand::Connect) => {
            &&& after == before
            &&& step.effects@ == seq![Effect::ClearRoutes, Effect::CloseTunnel]
            &&& step.next == disconnecting(AfterDisconnect::Reconnect(0))
        },
        Some(TunnelCommand::Disconnect) | None => {
            &&& after == before
            &&& step.effects@ == seq![Effect::ClearRoutes, Effect::CloseTunnel]
            &&& step.next == disconnecting(AfterDisconnect::Nothing)
        },
        Some(TunnelCommand::Block(reason)) => {
            &&& after == before
            &&& step.effects@ == seq![Effect::ClearRoutes, Effect::CloseTunnel]
            &&& step.next == disconnecting(AfterDisconnect::Block(reason))
        },
        Some(TunnelCommand::BypassSocket(descriptor, token)) => {
            &&& after == before
            &&& step.effects@ == seq![Effect::BypassSocket { descriptor, token }]
            &&& step.next == still_connecting(state)
        },
        Some(TunnelCommand::SetExcludedApps(token)) => {
            &&& after == before
            &&& step.effects@ == seq![Effect::SetExcludedApps(token)]
            &&& step.next == still_connecting(state)
        },
    }
}

/// What the connecting state answers to an event of the tunnel.
pub open spec fn tunnel_events_handled(
    state: ConnectingState,
    event: Option<TunnelEvent>,
    shared: SharedView,
    step: Step,
) -> bool {
    match event {
        Some(TunnelEvent::AuthFailed(reason)) => {
            &&& step.effects@ == seq![Effect::ClearRoutes, Effect::CloseTunnel]
            &&& step.next == disconnecting(
                AfterDisconnect::Block(ErrorStateCause::AuthFailed(reason)),
            )
        },
        Some(TunnelEvent::InterfaceUp(metadata, allowed_tunnel_traffic)) => {
            &&& step.effects@ == Seq::<Effect>::empty()
            &&& asks_firewall(
                step.next,
                shared,
                AfterPolicy::KeepConnecting {
                    connecting: state.interface_up(metadata, allowed_tunnel_traffic),
                    acknowledge: None,
                },
            )
        },
        Some(TunnelEvent::Up(metadata)) => {
            &&& step.effects@ == Seq::<Effect>::empty()
            &&& asks_firewall(
                step.next,
                shared,
                AfterPolicy::EnterConnected {
                    state: ConnectedState {
                        metadata,
                        tunnel_parameters: state.tunnel_parameters,
                    },
                },
            )
        },
        Some(TunnelEvent::Down) => {
            &&& step.effects@ == Seq::<Effect>::empty()
            &&& step.next == still_connecting(state.down())
        },
        None => {
            &&& step.effects@ == seq![
                Effect::Warn(Warning::TunnelDisconnected),
                Effect::ClearRoutes,
                Effect::CloseTunnel,
            ]
            &&& step.next == disconnecting(
                AfterDisconnect::Reconnect((state.retry_attempt + 1) as u32),
            )
        },
    }
}

/// What the connecting state answers to an event: `before` and `after` are
/// the shared values before and after, `step` is the answer.
pub open spec fn event_handled(
    state: ConnectingState,
    event: EventResult,
    before: SharedView,
    after: SharedView,
    step: Step,
) -> bool {
    match event {
        EventResult::Command(command) => commands_handled(state, command, before, after, step),
        EventResult::Event(event) => {
            &&& after == before
            &&& tunnel_events_handled(state, event, after, step)
        },
        EventResult::Close(signal) => {
            &&& after == before
            &&& step.effects@ == (match signal {
                CloseSignal::Reported(_) => seq![Effect::ClearRoutes],
                CloseSignal::Dropped => seq![
                    Effect::Warn(Warning::TunnelMonitorStopped),
                    Effect::ClearRoutes,
                ],
            })
            &&& match signal.block_reason() {
                Some(cause) => asks_firewall(
                    step.next,
                    after,
                    AfterPolicy::EnterError { cause },
                ),
                None => connecting_entered(
                    step.next,
                    after,
                    (state.retry_attempt + 1) as u32,
                ),
            }
        },
    }
}

/// Whether a failed attempt is followed by another one: for a failure to
/// create the tunnel device, as long as fewer than
/// `MAX_ATTEMPT_CREATE_TUN` attempts were made before; for every other
/// failure, if it is transient.
pub open spec fn retried(error: TunnelError, retry_attempt: u32) -> bool {
    if error.spec_get_tunnel_device_error() is Some {
        retry_attempt < MAX_ATTEMPT_CREATE_TUN
    } else {
        error.spec_is_recoverable()
    }
}

/// The cause for which traffic is blocked after a tunnel has stopped, if
/// there is one: a tunnel that stops without an error, or because it timed
/// out, blocks nothing; a failure of the WireGuard backend that is not
/// retried blocks; every other failure is passed over.
pub open spec fn monitor_block_reason(
    result: Result<(), TunnelError>,
    retry_attempt: u32,
) -> Option<
    ErrorStateCause,
> {
    match result {
        Ok(_) => None,
        Err(TunnelError::WireguardTunnelMonitoringError(WireguardError::TimeoutError)) => None,
        Err(error) => if error is WireguardTunnelMonitoringError && !retried(error, retry_attempt) {
            Some(ErrorStateCause::StartTunnelError)
        } else {
            None
        },
    }
}

/// The cause for which traffic is blocked after a tunnel attempt has ended,
/// if there is one. A tunnel that did not start blocks unless the attempt is
/// retried.
pub open spec fn block_reason(
    outcome: TunnelOutcome,
    retry_attempt: u32,
) -> Option<ErrorStateCause> {
    match outcome {
        TunnelOutcome::StartFailed(error) => if retried(error, retry_attempt) {
            None
        } else {
            Some(ErrorStateCause::of_tunnel_error(error))
        },
        TunnelOutcome::Stopped(result) => monitor_block_reason(result, retry_attempt),
    }
}

/// The time that is still to pass before the close of a tunnel attempt is
/// reported, in nanoseconds: what is missing to the least time an attempt
/// takes, where no cause blocks and less than that has passed.
pub open spec fn alive_time_padding(blocked: bool, elapsed: nat) -> nat {
    if !blocked && elapsed <= MIN_TUNNEL_ALIVE_TIME_MS * 1_000_000 {
        (MIN_TUNNEL_ALIVE_TIME_MS * 1_000_000 - elapsed) as nat
    } else {
        0
    }
}

/// Whether a failed attempt is followed by another one.
pub fn should_retry(error: &TunnelError, retry_attempt: u32) -> (r: bool)
    ensures
        r == retried(*error, retry_attempt),
{
    if error.get_tunnel_device_error().is_some() {
        return retry_attempt < MAX_ATTEMPT_CREATE_TUN;
    }
    error.is_recoverable()
}

impl ConnectingState {
    /// The policy of a connection attempt with the given parameters, tunnel
    /// metadata and traffic allowed inside the tunnel.
    pub fn set_firewall_policy(
        shared_values: &SharedTunnelStateValues,
        params: &TunnelParameters,
        tunnel_metadata: &Option<TunnelMetadata>,
        allowed_tunnel_traffic: AllowedTunnelTraffic,
    ) -> (policy: FirewallPolicy)
        ensures
            policy@ == connecting_policy(
                shared_values@,
                *params,
                metadata_view(*tunnel_metadata),
                allowed_tunnel_traffic,
            ),
    {
        FirewallPolicy::Connecting {
            peer_endpoint: get_peer_endpoint(params),
            tunnel: clone_metadata(tunnel_metadata),
            allow_lan: shared_values.allow_lan,
            allowed_endpoint: shared_values.allowed_endpoint,
            allowed_tunnel_traffic,
        }
    }

    /// Why a connecting policy was not taken, as the error state reports it.
    pub fn policy_error(error: Error) -> (r: FirewallPolicyError)
        ensures
            r == connecting_policy_error(error),
    {
        match error {
            Error::ApplyingConnectingPolicy(policy_error) => policy_error,
            _ => FirewallPolicyError::Generic,
        }
    }

    /// Removes the routes that lead into the tunnel.
    pub fn reset_routes(effects: &mut Vec<Effect>)
        ensures
            final(effects)@ == old(effects)@.push(Effect::ClearRoutes),
    {
        effects.push(Effect::ClearRoutes);
    }

    /// Leaves the connecting state: the routes are cleared, then the tunnel
    /// is told to stop, and `after_disconnect` says what follows its end.
    pub fn disconnect(
        self,
        effects: Vec<Effect>,
        after_disconnect: AfterDisconnect,
    ) -> (step: Step)
        ensures
            step.effects@ == effects@ + seq![Effect::ClearRoutes, Effect::CloseTunnel],
            step.next == disconnecting(after_disconnect),
    {
        let mut effects = effects;
        Self::reset_routes(&mut effects);
        DisconnectingState::enter(effects, after_disconnect)
    }

    /// Begins a connection attempt. Where the host is not known to be
    /// online, no attempt is spent: the error state is entered, with the
    /// cause that the host is offline. Else the parameters of the attempt
    /// are asked for.
    pub fn enter(
        shared_values: &SharedTunnelStateValues,
        effects: Vec<Effect>,
        retry_attempt: u32,
    ) -> (step: Step)
        ensures
            step.effects == effects,
            connecting_entered(step.next, shared_values@, retry_attempt),
    {
        match shared_values.connectivity.availability() {
            Some(availability) => Step {
                effects,
                next: Next::GenerateParameters { retry_attempt, availability },
            },
            None => ErrorState::enter(shared_values, effects, ErrorStateCause::IsOffline),
        }
    }

    /// This state after the tunnel has reported that its interface is up,
    /// with the given metadata and traffic allowed inside the tunnel.
    pub open spec fn interface_up(
        self,
        metadata: TunnelMetadata,
        allowed_tunnel_traffic: AllowedTunnelTraffic,
    ) -> ConnectingState {
        ConnectingState {
            tunnel_parameters: self.tunnel_parameters,
            tunnel_metadata: Some(metadata),
            allowed_tunnel_traffic,
            retry_attempt: self.retry_attempt,
        }
    }

    /// This state after the tunnel has reported that it is down.
    pub open spec fn down(self) -> ConnectingState {
        ConnectingState {
            tunnel_parameters: self.tunnel_parameters,
            tunnel_metadata: None,
            allowed_tunnel_traffic: AllowedTunnelTraffic::Nothing,
            retry_attempt: self.retry_attempt,
        }
    }

    /// Starts the tunnel of a connection attempt, once the firewall enforces
    /// the policy of the attempt: the connecting state becomes live with no
    /// metadata and no traffic allowed inside the tunnel.
    pub fn start_tunnel(parameters: TunnelParameters, retry_attempt: u32) -> (step: Step)
        ensures
            step.effects@ == seq![Effect::StartTunnel { parameters, retry_attempt }],
            step.next == Next::Done(
                EventConsequence::NewState(
                    TunnelState::Connecting(fresh_attempt(parameters, retry_attempt)),
                    TunnelStateTransition::Connecting(parameters.tunnel_endpoint()),
                ),
            ),
    {
        let mut effects: Vec<Effect> = Vec::new();
        effects.push(Effect::StartTunnel { parameters, retry_attempt });
        let connecting_state = ConnectingState {
            tunnel_parameters: parameters,
            tunnel_metadata: None,
            allowed_tunnel_traffic: INITIAL_ALLOWED_TUNNEL_TRAFFIC,
            retry_attempt,
        };
        new_state(
            effects,
            TunnelState::Connecting(connecting_state),
            TunnelStateTransition::Connecting(parameters.get_tunnel_endpoint()),
        )
    }

    /// Has the firewall policy of this state applied anew, to stay in the
    /// state if the firewall takes it.
    pub fn reset_firewall(
        self,
        shared_values: &SharedTunnelStateValues,
        token: Option<CompletionToken>,
    ) -> (step: Step)
        ensures
            step.effects@ == Seq::<Effect>::empty(),
            asks_firewall(
                step.next,
                shared_values@,
                AfterPolicy::KeepConnecting { connecting: self, acknowledge: token },
            ),
    {
        ask_firewall(
            shared_values,
            Vec::new(),
            AfterPolicy::KeepConnecting { connecting: self, acknowledge: token },
        )
    }

    /// Goes on after the firewall port has answered to the policy of this
    /// state. Where it took the policy, the state stays live and the command
    /// that led here is acknowledged: its sender then knows that the policy
    /// is in force. Where it did not, the tunnel is closed, the error state
    /// will follow, and the command is not acknowledged.
    pub fn firewall_reset(
        self,
        token: Option<CompletionToken>,
        outcome: Result<(), Error>,
    ) -> (step: Step)
        ensures
            match outcome {
                Ok(_) => {
                    &&& step.effects@ == acknowledgment(token)
                    &&& step.next == still_connecting(self)
                },
                Err(error) => {
                    &&& step.effects@ == seq![Effect::ClearRoutes, Effect::CloseTunnel]
                    &&& step.next == disconnecting(
                        AfterDisconnect::Block(
                            ErrorStateCause::SetFirewallPolicyError(connecting_policy_error(error)),
                        ),
                    )
                },
            },
    {
        match outcome {
            Ok(_) => {
                let mut effects: Vec<Effect> = Vec::new();
                acknowledge(&mut effects, token);
                same_state(effects, TunnelState::Connecting(self))
            },
            Err(error) => {
                let step = self.disconnect(
                    Vec::new(),
                    AfterDisconnect::Block(
                        ErrorStateCause::SetFirewallPolicyError(Self::policy_error(error)),
                    ),
                );
                assert(step.effects@ == seq![Effect::ClearRoutes, Effect::CloseTunnel]);
                step
            },
        }
    }

    /// Stays in the connecting state and acknowledges a command.
    pub fn acknowledged(self, token: CompletionToken) -> (step: Step)
        ensures
            step.effects@ == seq![Effect::Acknowledge(token)],
            step.next == still_connecting(self),
    {
        let mut effects: Vec<Effect> = Vec::new();
        acknowledge(&mut effects, Some(token));
        same_state(effects, TunnelState::Connecting(self))
    }

    /// Handles a command in the connecting state.
    ///
    /// A change of the LAN setting, of the allowed endpoint or of the DNS
    /// servers has the policy of this state applied anew. The command is
    /// acknowledged only after the firewall has taken the policy; where the
    /// firewall refuses it, the tunnel is closed to enter the error state
    /// after, and the command is not acknowledged. A command that changes
    /// nothing is acknowledged at once. The blocking while disconnected is
    /// noted and acknowledged: the policy of this state does not rest on it.
    /// The news that the host is offline closes the tunnel, to enter the
    /// error state after. `Connect` closes the tunnel to begin anew with
    /// attempt 0, `Disconnect` and the end of the commands close it for
    /// good, and `Block` closes it to enter the error state.
    /// A command for the sockets or applications that go outside the tunnel
    /// is passed on to the port that carries it out.
    pub fn handle_commands(
        self,
        command: Option<TunnelCommand>,
        shared_values: &mut SharedTunnelStateValues,
    ) -> (step: Step)
        ensures
            commands_handled(self, command, old(shared_values)@, final(shared_values)@, step),
            coherent(TunnelStateView::Connecting(self@), old(shared_values)@) ==> step_coherent(
                step.next,
                final(shared_values)@,
            ),
    {
        match command {
            Some(TunnelCommand::AllowLan(allow_lan, token)) => {
                if shared_values.set_allow_lan(allow_lan) {
                    self.reset_firewall(shared_values, Some(token))
                } else {
                    self.acknowledged(token)
                }
            },
            Some(TunnelCommand::AllowEndpoint(endpoint, token)) => {
                if shared_values.allowed_endpoint != endpoint {
                    shared_values.allowed_endpoint = endpoint;
                    self.reset_firewall(shared_values, Some(token))
                } else {
                    self.acknowledged(token)
                }
            },
            Some(TunnelCommand::Dns(config, token)) => {
                if shared_values.set_dns_config(config) {
                    self.reset_firewall(shared_values, Some(token))
                } else {
                    self.acknowledged(token)
                }
            },
            Some(TunnelCommand::BlockWhenDisconnected(block, token)) => {
                shared_values.block_when_disconnected = block;
                self.acknowledged(token)
            },
            Some(TunnelCommand::Connectivity(connectivity)) => {
                shared_values.connectivity = connectivity;
                if connectivity.is_offline() {
                    self.disconnect(
                        Vec::new(),
                        AfterDisconnect::Block(ErrorStateCause::IsOffline),
                    )
                } else {
                    same_state(Vec::new(), TunnelState::Connecting(self))
                }
            },
            Some(TunnelCommand::Connect) => self.disconnect(
                Vec::new(),
                AfterDisconnect::Reconnect(0),
            ),
            Some(TunnelCommand::Disconnect) | None => self.disconnect(
                Vec::new(),
                AfterDisconnect::Nothing,
            ),
            Some(TunnelCommand::Block(reason)) => self.disconnect(
                Vec::new(),
                AfterDisconnect::Block(reason),
            ),
            Some(TunnelCommand::BypassSocket(descriptor, token)) => bypass_socket(
                TunnelState::Connecting(self),
                descriptor,
                token,
            ),
            Some(TunnelCommand::SetExcludedApps(token)) => set_excluded_apps(
                TunnelState::Connecting(self),
                token,
            ),
        }
    }

    /// Handles an event of the tunnel in the connecting state.
    ///
    /// A rejection by the server closes the tunnel, to enter the error state
    /// after. When the interface is up, the state takes the metadata and the
    /// traffic that the tunnel reports, and the policy is applied anew with
    /// them. When the tunnel is fully up, the connected state is entered.
    /// When the tunnel is down, the metadata goes and no traffic is allowed
    /// inside the tunnel any more; the state stays live. When the events
    /// end, that is noted as a warning and the tunnel is closed to begin
    /// anew with the next attempt.
    pub fn handle_tunnel_events(
        self,
        event: Option<TunnelEvent>,
        shared_values: &SharedTunnelStateValues,
    ) -> (step: Step)
        requires
            event is None ==> self.retry_attempt < u32::MAX,
        ensures
            tunnel_events_handled(self, event, shared_values@, step),
            coherent(TunnelStateView::Connecting(self@), shared_values@) && !(event matches Some(
                TunnelEvent::Down,
            )) ==> step_coherent(step.next, shared_values@),
    {
        let mut state = self;
        match event {
            Some(TunnelEvent::AuthFailed(reason)) => state.disconnect(
                Vec::new(),
                AfterDisconnect::Block(ErrorStateCause::AuthFailed(reason)),
            ),
            Some(TunnelEvent::InterfaceUp(metadata, allowed_tunnel_traffic)) => {
                state.allowed_tunnel_traffic = allowed_tunnel_traffic;
                state.tunnel_metadata = Some(metadata);
                state.reset_firewall(shared_values, None)
            },
            Some(TunnelEvent::Up(metadata)) => ConnectedState::enter(
                shared_values,
                metadata,
                state.tunnel_parameters,
            ),
            Some(TunnelEvent::Down) => {
                // The state forgets the interface before the device goes, so
                // that a policy applied later does not name a device that is
                // no longer there.
                state.allowed_tunnel_traffic = INITIAL_ALLOWED_TUNNEL_TRAFFIC;
                state.tunnel_metadata = None;
                same_state(Vec::new(), TunnelState::Connecting(state))
            },
            None => {
                let mut effects: Vec<Effect> = Vec::new();
                effects.push(Effect::Warn(Warning::TunnelDisconnected));
                let retry_attempt: u32 = state.retry_attempt + 1;
                let step = state.disconnect(effects, AfterDisconnect::Reconnect(retry_attempt));
                assert(step.effects@ == seq![
                    Effect::Warn(Warning::TunnelDisconnected),
                    Effect::ClearRoutes,
                    Effect::CloseTunnel,
                ]);
                step
            },
        }
    }

    /// Handles the end of the tunnel in the connecting state. The routes are
    /// cleared first. Where the tunnel ended for a cause that blocks, the
    /// error state is entered with that cause and no further attempt is
    /// made; else the next attempt begins, numbered one higher.
    pub fn handle_tunnel_close_event(
        self,
        block_reason: Option<ErrorStateCause>,
        shared_values: &SharedTunnelStateValues,
        effects: Vec<Effect>,
    ) -> (step: Step)
        requires
            block_reason is None ==> self.retry_attempt < u32::MAX,
        ensures
            step.effects@ == effects@.push(Effect::ClearRoutes),
            match block_reason {
                Some(cause) => asks_firewall(
                    step.next,
                    shared_values@,
                    AfterPolicy::EnterError { cause },
                ),
                None => connecting_entered(
                    step.next,
                    shared_values@,
                    (self.retry_attempt + 1) as u32,
                ),
            },
    {
        let mut effects = effects;
        Self::reset_routes(&mut effects);
        match block_reason {
            Some(block_reason) => ErrorState::enter(shared_values, effects, block_reason),
            None => ConnectingState::enter(shared_values, effects, self.retry_attempt + 1),
        }
    }

    /// Handles one event in the connecting state: a command, an event of the
    /// tunnel or the tunnel's close signal. A close signal that was dropped
    /// is noted as a warning and then handled as the end of the tunnel
    /// without a cause.
    pub fn handle_event(
        self,
        shared_values: &mut SharedTunnelStateValues,
        event: EventResult,
    ) -> (step: Step)
        requires
            needs_next_attempt(event) ==> self.retry_attempt < u32::MAX,
        ensures
            event_handled(self, event, old(shared_values)@, final(shared_values)@, step),
            coherent(TunnelStateView::Connecting(self@), old(shared_values)@) && !(event
                matches EventResult::Event(Some(TunnelEvent::Down))) ==> step_coherent(
                step.next,
                final(shared_values)@,
            ),
    {
        match event {
            EventResult::Command(command) => self.handle_commands(command, shared_values),
            EventResult::Event(event) => self.handle_tunnel_events(event, shared_values),
            EventResult::Close(signal) => {
                let mut effects: Vec<Effect> = Vec::new();
                match signal {
                    CloseSignal::Dropped => {
                        effects.push(Effect::Warn(Warning::TunnelMonitorStopped));
                    },
                    CloseSignal::Reported(_) => {},
                }
                let step = self.handle_tunnel_close_event(
                    signal.block_reason(),
                    shared_values,
                    effects,
                );
                assert(step.effects@ == (match signal {
                    CloseSignal::Reported(_) => seq![Effect::ClearRoutes],
                    CloseSignal::Dropped => seq![
                        Effect::Warn(Warning::TunnelMonitorStopped),
                        Effect::ClearRoutes,
                    ],
                }));
                step
            },
        }
    }

    /// The cause for which traffic is blocked after the tunnel has stopped
    /// with `result`, if there is one.
    pub fn wait_for_tunnel_monitor(
        result: Result<(), TunnelError>,
        retry_attempt: u32,
    ) -> (r: Option<ErrorStateCause>)
        ensures
            r == monitor_block_reason(result, retry_attempt),
    {
        match result {
            Ok(_) => None,
            Err(error) => match error {
                TunnelError::WireguardTunnelMonitoringError(WireguardError::TimeoutError) => None,
                TunnelError::WireguardTunnelMonitoringError(_) => {
                    if !should_retry(&error, retry_attempt) {
                        Some(ErrorStateCause::StartTunnelError)
                    } else {
                        None
                    }
                },
                _ => None,
            },
        }
    }

    /// The cause that the tunnel's worker reports with the close of a tunnel
    /// attempt, if there is one.
    pub fn tunnel_closed(outcome: TunnelOutcome, retry_attempt: u32) -> (r: Option<
        ErrorStateCause,
    >)
        ensures
            r == block_reason(outcome, retry_attempt),
    {
        match outcome {
            TunnelOutcome::Stopped(result) => Self::wait_for_tunnel_monitor(result, retry_attempt),
            TunnelOutcome::StartFailed(error) => {
                if should_retry(&error, retry_attempt) {
                    None
                } else {
                    Some(ErrorStateCause::from_tunnel_error(error))
                }
            },
        }
    }

    /// The time for which the tunnel's worker still waits before it reports
    /// the close of an attempt that took `elapsed`; `None` where it reports
    /// at once. An attempt that ends without a cause to block is followed by
    /// another one, and is made to take the least time an attempt takes, so
    /// that attempts that fail at once do not follow each other in a tight
    /// loop.
    pub fn remaining_alive_time(
        block_reason: &Option<ErrorStateCause>,
        elapsed: &Duration,
    ) -> (r: Option<Duration>)
        ensures
            r is Some <==> block_reason is None && elapsed.as_nanos() <= MIN_TUNNEL_ALIVE_TIME_MS
                * 1_000_000,
            r matches Some(wait) ==> wait.as_nanos() == alive_time_padding(
                block_reason is Some,
                elapsed.as_nanos(),
            ),
            block_reason is None ==> elapsed.as_nanos() + alive_time_padding(
                false,
                elapsed.as_nanos(),
            ) >= MIN_TUNNEL_ALIVE_TIME_MS * 1_000_000,
    {
        if block_reason.is_none() {
            Duration::from_millis(MIN_TUNNEL_ALIVE_TIME_MS).checked_sub(elapsed)
        } else {
            None
        }
    }
}

} // verus!
