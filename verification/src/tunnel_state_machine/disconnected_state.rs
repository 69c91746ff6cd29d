//! The disconnected state: no tunnel is open and none is wanted.

use super::error_state::connecting_entered;
use super::laws::{coherent, step_coherent};
use super::{
    acknowledge, acknowledged_if_taken, ask_firewall, asks_firewall, bypass_socket, new_state,
    same_state, set_excluded_apps, AfterPolicy, CompletionToken, ConnectingState, DisconnectedState,
    Effect, ErrorState, EventConsequence, EventResult, Next, SharedTunnelStateValues, SharedView,
    Step, TunnelCommand, TunnelState, TunnelStateTransition, TunnelStateView,
};
use crate::firewall::Error;
use vstd::prelude::*;

verus! {

/// The end of an event's handling that makes the disconnected state live.
pub open spec fn disconnected_entered(shared: SharedView) -> Next {
    Next::Done(
        EventConsequence::NewState(
            TunnelState::Disconnected(DisconnectedState),
            TunnelStateTransition::Disconnected { locked_down: shared.block_when_disconnected },
        ),
    )
}

/// The end of an event's handling that leaves the disconnected state live.
pub open spec fn still_disconnected() -> Next {
    Next::Done(EventConsequence::SameState(TunnelState::Disconnected(DisconnectedState)))
}

/// What the disconnected state answers to a command: `before` and `after`
/// are the shared values before and after, `step` is the answer.
pub open spec fn commands_handled(
    command: Option<TunnelCommand>,
    before: SharedView,
    after: SharedView,
    step: Step,
) -> bool {
    match command {
        Some(TunnelCommand::AllowLan(allow_lan, token)) => {
            &&& after == (SharedView { allow_lan, ..before })
            &&& if before.allow_lan != allow_lan && before.block_when_disconnected {
                &&& step.effects@ == Seq::<Effect>::empty()
                &&& asks_firewall(
                    step.next,
                    after,
                    AfterPolicy::KeepDisconnected { token },
                )
            } else {
                &&& step.effects@ == seq![Effect::Acknowledge(token)]
                &&& step.next == still_disconnected()
            }
        },
        Some(TunnelCommand::AllowEndpoint(endpoint, token)) => {
            &&& after == (SharedView {
                allowed_endpoint: endpoint,
                ..before
            })
            &&& if before.allowed_endpoint != endpoint && before.block_when_disconnected {
                &&& step.effects@ == Seq::<Effect>::empty()
                &&& asks_firewall(
                    step.next,
                    after,
                    AfterPolicy::KeepDisconnected { token },
                )
            } else {
                &&& step.effects@ == seq![Effect::Acknowledge(token)]
                &&& step.next == still_disconnected()
            }
        },
        Some(TunnelCommand::Dns(config, token)) => {
            &&& after == (SharedView {
                dns_config: config@,
                ..before
            })
            &&& step.effects@ == seq![Effect::Acknowledge(token)]
            &&& step.next == still_disconnected()
        },
        Some(TunnelCommand::BlockWhenDisconnected(block, token)) => {
            &&& after == (SharedView {
                block_when_disconnected: block,
                ..before
            })
            &&& if before.block_when_disconnected != block {
                &&& step.effects@ == Seq::<Effect>::empty()
                &&& asks_firewall(
                    step.next,
                    after,
                    AfterPolicy::KeepDisconnected { token },
                )
            } else {
                &&& step.effects@ == seq![Effect::Acknowledge(token)]
                &&& step.next == still_disconnected()
            }
        },
        Some(TunnelCommand::Connectivity(connectivity)) => {
            &&& after == (SharedView {
                connectivity,
                ..before
            })
            &&& step.effects@ == Seq::<Effect>::empty()
            &&& step.next == still_disconnected()
        },
        Some(TunnelCommand::Connect) => {
            &&& after == before
            &&& step.effects@ == Seq::<Effect>::empty()
            &&& connecting_entered(step.next, after, 0)
        },
        Some(TunnelCommand::Disconnect) => {
            &&& after == before
            &&& step.effects@ == Seq::<Effect>::empty()
            &&& step.next == still_disconnected()
        },
        Some(TunnelCommand::Block(reason)) => {
            &&& after == before
            &&& step.effects@ == Seq::<Effect>::empty()
            &&& asks_firewall(
                step.next,
                after,
                AfterPolicy::EnterError { cause: reason },
            )
        },
        Some(TunnelCommand::BypassSocket(descriptor, token)) => {
            &&& after == before
            &&& step.effects@ == seq![Effect::BypassSocket { descriptor, token }]
            &&& step.next == still_disconnected()
        },
        Some(TunnelCommand::SetExcludedApps(token)) => {
            &&& after == before
            &&& step.effects@ == seq![Effect::SetExcludedApps(token)]
            &&& step.next == still_disconnected()
        },
        None => {
            &&& after == before
            &&& step.effects@ == Seq::<Effect>::empty()
            &&& step.next == Next::Done(EventConsequence::Finished)
        },
    }
}

/// What the disconnected state answers to an event: `before` and `after`
/// are the shared values before and after, `step` is the answer.
pub open spec fn event_handled(
    event: EventResult,
    before: SharedView,
    after: SharedView,
    step: Step,
) -> bool {
    match event {
        EventResult::Command(command) => commands_handled(command, before, after, step),
        _ => {
            &&& after == before
            &&& step.effects@ == Seq::<Effect>::empty()
            &&& step.next == still_disconnected()
        },
    }
}

impl DisconnectedState {
    /// Begins to enter the disconnected state: the firewall is asked to
    /// block where traffic is blocked while disconnected, and to drop every
    /// policy where it is not.
    pub fn enter(shared_values: &SharedTunnelStateValues, effects: Vec<Effect>) -> (step: Step)
        ensures
            step.effects == effects,
            asks_firewall(step.next, shared_values@, AfterPolicy::EnterDisconnected),
    {
        ask_firewall(shared_values, effects, AfterPolicy::EnterDisconnected)
    }

    /// Enters the disconnected state once the firewall port has answered,
    /// whatever it answered.
    pub fn entered(shared_values: &SharedTunnelStateValues) -> (step: Step)
        ensures
            step.effects@ == Seq::<Effect>::empty(),
            step.next == disconnected_entered(shared_values@),
    {
        new_state(
            Vec::new(),
            TunnelState::Disconnected(DisconnectedState),
            TunnelStateTransition::Disconnected {
                locked_down: shared_values.block_when_disconnected,
            },
        )
    }

    /// Goes on after the firewall port has answered to the firewall being
    /// set anew in the disconnected state. The state stays live whatever the
    /// port answered. The command that led here is acknowledged where the
    /// port did what was asked, and only there.
    pub fn firewall_reset(token: CompletionToken, outcome: Result<(), Error>) -> (step: Step)
        ensures
            step.effects@ == acknowledged_if_taken(token, outcome),
            step.next == still_disconnected(),
    {
        match outcome {
            Ok(_) => Self::acknowledged(token),
            Err(_) => same_state(Vec::new(), TunnelState::Disconnected(DisconnectedState)),
        }
    }

    /// Stays in the disconnected state and acknowledges a command.
    pub fn acknowledged(token: CompletionToken) -> (step: Step)
        ensures
            step.effects@ == seq![Effect::Acknowledge(token)],
            step.next == still_disconnected(),
    {
        let mut effects: Vec<Effect> = Vec::new();
        acknowledge(&mut effects, Some(token));
        same_state(effects, TunnelState::Disconnected(DisconnectedState))
    }

    /// Handles a command in the disconnected state.
    ///
    /// A change of a setting that the firewall's policy in this state rests
    /// on has the firewall set anew, and is acknowledged only after the
    /// firewall has done so: of whether
    /// traffic is blocked while disconnected, and, where it is blocked, of
    /// the LAN setting and of the allowed endpoint. `Connect` begins a
    /// connection attempt and `Block` enters the error state. The end of the
    /// commands stops the machine.
    /// A command for the sockets or applications that go outside the tunnel
    /// is passed on to the port that carries it out.
    pub fn handle_commands(
        self,
        shared_values: &mut SharedTunnelStateValues,
        command: Option<TunnelCommand>,
    ) -> (step: Step)
        ensures
            commands_handled(command, old(shared_values)@, final(shared_values)@, step),
            coherent(TunnelStateView::Disconnected, old(shared_values)@) ==> step_coherent(
                step.next,
                final(shared_values)@,
            ),
    {
        let effects: Vec<Effect> = Vec::new();
        match command {
            Some(TunnelCommand::AllowLan(allow_lan, token)) => {
                if shared_values.set_allow_lan(allow_lan)
                    && shared_values.block_when_disconnected {
                    ask_firewall(shared_values, effects, AfterPolicy::KeepDisconnected { token })
                } else {
                    Self::acknowledged(token)
                }
            },
            Some(TunnelCommand::AllowEndpoint(endpoint, token)) => {
                let changed = shared_values.allowed_endpoint != endpoint;
                shared_values.allowed_endpoint = endpoint;
                if changed && shared_values.block_when_disconnected {
                    ask_firewall(shared_values, effects, AfterPolicy::KeepDisconnected { token })
                } else {
                    Self::acknowledged(token)
                }
            },
            Some(TunnelCommand::Dns(config, token)) => {
                let _ = shared_values.set_dns_config(config);
                Self::acknowledged(token)
            },
            Some(TunnelCommand::BlockWhenDisconnected(block, token)) => {
                if shared_values.block_when_disconnected != block {
                    shared_values.block_when_disconnected = block;
                    ask_firewall(shared_values, effects, AfterPolicy::KeepDisconnected { token })
                } else {
                    Self::acknowledged(token)
                }
            },
            Some(TunnelCommand::Connectivity(connectivity)) => {
                shared_values.connectivity = connectivity;
                same_state(effects, TunnelState::Disconnected(self))
            },
            Some(TunnelCommand::Connect) => ConnectingState::enter(shared_values, effects, 0),
            Some(TunnelCommand::Disconnect) => same_state(
                effects,
                TunnelState::Disconnected(self),
            ),
            Some(TunnelCommand::Block(reason)) => ErrorState::enter(
                shared_values,
                effects,
                reason,
            ),
            Some(TunnelCommand::BypassSocket(descriptor, token)) => bypass_socket(
                TunnelState::Disconnected(self),
                descriptor,
                token,
            ),
            Some(TunnelCommand::SetExcludedApps(token)) => set_excluded_apps(
                TunnelState::Disconnected(self),
                token,
            ),
            None => Step { effects, next: Next::Done(EventConsequence::Finished) },
        }
    }

    /// Handles an event in the disconnected state. There is no tunnel in
    /// this state: what still comes from one is passed over.
    pub fn handle_event(
        self,
        shared_values: &mut SharedTunnelStateValues,
        event: EventResult,
    ) -> (step: Step)
        ensures
            event_handled(event, old(shared_values)@, final(shared_values)@, step),
            coherent(TunnelStateView::Disconnected, old(shared_values)@) ==> step_coherent(
                step.next,
                final(shared_values)@,
            ),
    {
        match event {
            EventResult::Command(command) => self.handle_commands(shared_values, command),
            _ => same_state(Vec::new(), TunnelState::Disconnected(self)),
        }
    }
}

} // verus!
