//! The error state: no tunnel is open and all traffic is to be blocked.

use super::laws::{coherent, step_coherent};
use super::{
    acknowledge, acknowledged_if_taken, ask_firewall, asks_firewall, bypass_socket, new_state,
    same_state, set_excluded_apps, AfterPolicy, CompletionToken, ConnectingState, DisconnectedState,
    Effect, ErrorState, ErrorStateInfo, EventConsequence, EventResult, Next,
    SharedTunnelStateValues, SharedView, Step, TunnelCommand, TunnelState, TunnelStateTransition,
    TunnelStateView,
};
use crate::firewall::Error;
use crate::tunnel::{ErrorStateCause, FirewallPolicyError};
use vstd::prelude::*;

verus! {

/// The mapping of a firewall error to what the error state reports after a
/// blocked policy was not taken.
pub open spec fn blocked_policy_error(error: Error) -> FirewallPolicyError {
    match error {
        Error::ApplyingBlockedPolicy(policy_error) => policy_error,
        _ => FirewallPolicyError::Generic,
    }
}

/// Why the firewall does not block, where the outcome of applying the
/// blocked policy says that it does not.
pub open spec fn block_failure(outcome: Result<(), Error>) -> Option<FirewallPolicyError> {
    match outcome {
        Ok(_) => None,
        Err(error) => Some(blocked_policy_error(error)),
    }
}

/// The end of an event's handling that makes the error state live.
pub open spec fn error_entered(block_reason: ErrorStateCause, outcome: Result<(), Error>) -> Next {
    Next::Done(
        EventConsequence::NewState(
            TunnelState::Error(ErrorState { block_reason }),
            TunnelStateTransition::Error(
                ErrorStateInfo { cause: block_reason, block_failure: block_failure(outcome) },
            ),
        ),
    )
}

/// Whether `next` begins a connection attempt: the host being online, it
/// asks for the parameters of the attempt; else it asks the firewall to
/// block, on the way to the error state.
pub open spec fn connecting_entered(next: Next, shared: SharedView, retry_attempt: u32) -> bool {
    match shared.connectivity.spec_availability() {
        Some(availability) => next == (Next::GenerateParameters { retry_attempt, availability }),
        None => asks_firewall(
            next,
            shared,
            AfterPolicy::EnterError { cause: ErrorStateCause::IsOffline },
        ),
    }
}

/// What the error state answers to a command: `before` and `after` are the
/// shared values before and after, `step` is the answer.
pub open spec fn commands_handled(
    state: ErrorState,
    command: Option<TunnelCommand>,
    before: SharedView,
    after: SharedView,
    step: Step,
) -> bool {
    match command {
        Some(TunnelCommand::AllowLan(allow_lan, token)) => {
            &&& after == (SharedView { allow_lan, ..before })
            &&& if before.allow_lan != allow_lan {
                &&& step.effects@ == Seq::<Effect>::empty()
                &&& asks_firewall(
                    step.next,
                    after,
                    AfterPolicy::KeepError { error: state, token },
                )
            } else {
                &&& step.effects@ == seq![Effect::Acknowledge(token)]
                &&& step.next == Next::Done(
                    EventConsequence::SameState(TunnelState::Error(state)),
                )
            }
        },
        Some(TunnelCommand::AllowEndpoint(endpoint, token)) => {
            &&& after == (SharedView {
                allowed_endpoint: endpoint,
                ..before
            })
            &&& if before.allowed_endpoint != endpoint {
                &&& step.effects@ == Seq::<Effect>::empty()
                &&& asks_firewall(
                    step.next,
                    after,
                    AfterPolicy::KeepError { error: state, token },
                )
            } else {
                &&& step.effects@ == seq![Effect::Acknowledge(token)]
                &&& step.next == Next::Done(
                    EventConsequence::SameState(TunnelState::Error(state)),
                )
            }
        },
        Some(TunnelCommand::Dns(config, token)) => {
            &&& after == (SharedView {
                dns_config: config@,
                ..before
            })
            &&& step.effects@ == seq![Effect::Acknowledge(token)]
            &&& step.next == Next::Done(
                EventConsequence::SameState(TunnelState::Error(state)),
            )
        },
        Some(TunnelCommand::BlockWhenDisconnected(block, token)) => {
            &&& after == (SharedView {
                block_when_disconnected: block,
                ..before
            })
            &&& step.effects@ == seq![Effect::Acknowledge(token)]
            &&& step.next == Next::Done(
                EventConsequence::SameState(TunnelState::Error(state)),
            )
        },
        Some(TunnelCommand::Connectivity(connectivity)) => {
            &&& after == (SharedView {
                connectivity,
                ..before
            })
            &&& step.effects@ == Seq::<Effect>::empty()
            &&& if !connectivity.is_offline() && state.block_reason
                == ErrorStateCause::IsOffline {
                connecting_entered(step.next, after, 0)
            } else {
                step.next == Next::Done(
                    EventConsequence::SameState(TunnelState::Error(state)),
                )
            }
        },
        Some(TunnelCommand::Connect) => {
            &&& after == before
            &&& step.effects@ == Seq::<Effect>::empty()
            &&& connecting_entered(step.next, after, 0)
        },
        Some(TunnelCommand::Disconnect) | None => {
            &&& after == before
            &&& step.effects@ == Seq::<Effect>::empty()
            &&& asks_firewall(
                step.next,
                after,
                AfterPolicy::EnterDisconnected,
            )
        },
        Some(TunnelCommand::Block(reason)) => {
            &&& after == before
            &&& step.effects@ == Seq::<Effect>::empty()
            &&& asks_firewall(
                step.next,
                after,
                AfterPolicy::EnterError { cause: reason },
            )
        },
        Some(TunnelCommand::BypassSocket(descriptor, token)) => {
            &&& after == before
            &&& step.effects@ == seq![Effect::BypassSocket { descriptor, token }]
            &&& step.next == Next::Done(EventConsequence::SameState(TunnelState::Error(state)))
        },
        Some(TunnelCommand::SetExcludedApps(token)) => {
            &&& after == before
            &&& step.effects@ == seq![Effect::SetExcludedApps(token)]
            &&& step.next == Next::Done(EventConsequence::SameState(TunnelState::Error(state)))
        },
    }
}

/// What the error state answers to an event: `before` and `after` are the
/// shared values before and after, `step` is the answer.
pub open spec fn event_handled(
    state: ErrorState,
    event: EventResult,
    before: SharedView,
    after: SharedView,
    step: Step,
) -> bool {
    match event {
        EventResult::Command(command) => commands_handled(state, command, before, after, step),
        _ => {
            &&& after == before
            &&& step.effects@ == Seq::<Effect>::empty()
            &&& step.next == Next::Done(
                EventConsequence::SameState(TunnelState::Error(state)),
            )
        },
    }
}

impl ErrorState {
    /// Begins to enter the error state: the firewall is asked to block.
    pub fn enter(
        shared_values: &SharedTunnelStateValues,
        effects: Vec<Effect>,
        block_reason: ErrorStateCause,
    ) -> (step: Step)
        ensures
            step.effects == effects,
            asks_firewall(
                step.next,
                shared_values@,
                AfterPolicy::EnterError { cause: block_reason },
            ),
    {
        ask_firewall(shared_values, effects, AfterPolicy::EnterError { cause: block_reason })
    }

    /// Why a blocked policy was not taken, as the error state reports it.
    pub fn policy_error(error: Error) -> (r: FirewallPolicyError)
        ensures
            r == blocked_policy_error(error),
    {
        match error {
            Error::ApplyingBlockedPolicy(policy_error) => policy_error,
            _ => FirewallPolicyError::Generic,
        }
    }

    /// Enters the error state once the firewall port has answered. Where it
    /// failed, the state is entered all the same and reports the failure.
    pub fn entered(block_reason: ErrorStateCause, outcome: Result<(), Error>) -> (step: Step)
        ensures
            step.effects@ == Seq::<Effect>::empty(),
            step.next == error_entered(block_reason, outcome),
    {
        let block_failure = match outcome {
            Ok(_) => None,
            Err(error) => Some(Self::policy_error(error)),
        };
        new_state(
            Vec::new(),
            TunnelState::Error(ErrorState { block_reason }),
            TunnelStateTransition::Error(ErrorStateInfo { cause: block_reason, block_failure }),
        )
    }

    /// Handles a command in the error state.
    ///
    /// A change of the LAN setting or of the allowed endpoint has the blocked
    /// policy applied anew, and is acknowledged only after the firewall has
    /// taken that policy. `Connect` begins a
    /// connection attempt whatever the cause of the error was, and so does
    /// the news that the host is no longer offline where being offline was
    /// the cause. `Disconnect`, and the end of the commands, lead to the
    /// disconnected state; `Block` enters the error state anew.
    /// A command for the sockets or applications that go outside the tunnel
    /// is passed on to the port that carries it out.
    pub fn handle_commands(
        self,
        shared_values: &mut SharedTunnelStateValues,
        command: Option<TunnelCommand>,
    ) -> (step: Step)
        ensures
            commands_handled(self, command, old(shared_values)@, final(shared_values)@, step),
            coherent(TunnelStateView::Error(self.block_reason), old(shared_values)@)
                ==> step_coherent(step.next, final(shared_values)@),
    {
        let effects: Vec<Effect> = Vec::new();
        match command {
            Some(TunnelCommand::AllowLan(allow_lan, token)) => {
                if shared_values.set_allow_lan(allow_lan) {
                    ask_firewall(
                        shared_values,
                        effects,
                        AfterPolicy::KeepError { error: self, token },
                    )
                } else {
                    Self::acknowledged(self, token)
                }
            },
            Some(TunnelCommand::AllowEndpoint(endpoint, token)) => {
                if shared_values.allowed_endpoint != endpoint {
                    shared_values.allowed_endpoint = endpoint;
                    ask_firewall(
                        shared_values,
                        effects,
                        AfterPolicy::KeepError { error: self, token },
                    )
                } else {
                    Self::acknowledged(self, token)
                }
            },
            Some(TunnelCommand::Dns(config, token)) => {
                let _ = shared_values.set_dns_config(config);
                Self::acknowledged(self, token)
            },
            Some(TunnelCommand::BlockWhenDisconnected(block, token)) => {
                shared_values.block_when_disconnected = block;
                Self::acknowledged(self, token)
            },
            Some(TunnelCommand::Connectivity(connectivity)) => {
                shared_values.connectivity = connectivity;
                if !connectivity.is_offline() && self.block_reason == ErrorStateCause::IsOffline {
                    ConnectingState::enter(shared_values, effects, 0)
                } else {
                    same_state(effects, TunnelState::Error(self))
                }
            },
            Some(TunnelCommand::Connect) => ConnectingState::enter(shared_values, effects, 0),
            Some(TunnelCommand::Disconnect) | None => DisconnectedState::enter(
                shared_values,
                effects,
            ),
            Some(TunnelCommand::Block(reason)) => Self::enter(shared_values, effects, reason),
            Some(TunnelCommand::BypassSocket(descriptor, token)) => bypass_socket(
                TunnelState::Error(self),
                descriptor,
                token,
            ),
            Some(TunnelCommand::SetExcludedApps(token)) => set_excluded_apps(
                TunnelState::Error(self),
                token,
            ),
        }
    }

    /// Goes on after the firewall port has answered to the blocked policy
    /// applied anew in the error state. The state stays live whatever the
    /// port answered. The command that led here is acknowledged where the
    /// port took the policy, and only there.
    pub fn firewall_reset(self, token: CompletionToken, outcome: Result<(), Error>) -> (step: Step)
        ensures
            step.effects@ == acknowledged_if_taken(token, outcome),
            step.next == Next::Done(EventConsequence::SameState(TunnelState::Error(self))),
    {
        match outcome {
            Ok(_) => self.acknowledged(token),
            Err(_) => same_state(Vec::new(), TunnelState::Error(self)),
        }
    }

    /// Stays in the error state and acknowledges a command.
    pub fn acknowledged(self, token: CompletionToken) -> (step: Step)
        ensures
            step.effects@ == seq![Effect::Acknowledge(token)],
            step.next == Next::Done(EventConsequence::SameState(TunnelState::Error(self))),
    {
        let mut effects: Vec<Effect> = Vec::new();
        acknowledge(&mut effects, Some(token));
        same_state(effects, TunnelState::Error(self))
    }

    /// Handles an event in the error state. There is no tunnel in this
    /// state: what still comes from one is passed over.
    pub fn handle_event(
        self,
        shared_values: &mut SharedTunnelStateValues,
        event: EventResult,
    ) -> (step: Step)
        ensures
            event_handled(self, event, old(shared_values)@, final(shared_values)@, step),
            coherent(TunnelStateView::Error(self.block_reason), old(shared_values)@)
                ==> step_coherent(step.next, final(shared_values)@),
    {
        match event {
            EventResult::Command(command) => self.handle_commands(shared_values, command),
            _ => same_state(Vec::new(), TunnelState::Error(self)),
        }
    }
}

} // verus!
