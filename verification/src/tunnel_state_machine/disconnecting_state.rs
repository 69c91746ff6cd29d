//! The disconnecting state: the tunnel is closing.

use super::connecting_state::disconnecting;
use super::error_state::connecting_entered;
use super::laws::step_coherent;
use super::{
    acknowledge, acknowledgment, asks_firewall, command_view, passed_on, same_state,
    AfterDisconnect, AfterPolicy, CloseSignal, CompletionToken, ConnectingState, DisconnectedState,
    DisconnectingState, Effect, ErrorState, EventConsequence, EventResult, Next,
    SharedTunnelStateValues, SharedView, Step, TunnelCommand, TunnelCommandView, TunnelState,
    TunnelStateTransition, Warning,
};
use crate::tunnel::ErrorStateCause;
use vstd::prelude::*;

verus! {

/// The shared values after `command` has been noted.
pub open spec fn noted(shared: SharedView, command: Option<TunnelCommandView>) -> SharedView {
    match command {
        Some(TunnelCommandView::AllowLan(allow_lan, _)) => SharedView { allow_lan, ..shared },
        Some(TunnelCommandView::AllowEndpoint(endpoint, _)) => SharedView {
            allowed_endpoint: endpoint,
            ..shared
        },
        Some(TunnelCommandView::Dns(config, _)) => SharedView { dns_config: config, ..shared },
        Some(TunnelCommandView::BlockWhenDisconnected(block, _)) => SharedView {
            block_when_disconnected: block,
            ..shared
        },
        Some(TunnelCommandView::Connectivity(connectivity)) => SharedView {
            connectivity,
            ..shared
        },
        _ => shared,
    }
}

/// The token of `command`, where its sender waits for an acknowledgment.
pub open spec fn token_of(command: Option<TunnelCommandView>) -> Option<CompletionToken> {
    match command {
        Some(TunnelCommandView::AllowLan(_, token)) => Some(token),
        Some(TunnelCommandView::AllowEndpoint(_, token)) => Some(token),
        Some(TunnelCommandView::Dns(_, token)) => Some(token),
        Some(TunnelCommandView::BlockWhenDisconnected(_, token)) => Some(token),
        _ => None,
    }
}

/// The end of an event's handling that leaves the disconnecting state live.
pub open spec fn still_disconnecting(after_disconnect: AfterDisconnect) -> Next {
    Next::Done(
        EventConsequence::SameState(
            TunnelState::Disconnecting(DisconnectingState { after_disconnect }),
        ),
    )
}

/// What the disconnecting state answers to an event: `before` and `after`
/// are the shared values before and after, `step` is the answer.
pub open spec fn event_handled(
    state: DisconnectingState,
    event: EventResult,
    before: SharedView,
    after: SharedView,
    step: Step,
) -> bool {
    match event {
        EventResult::Command(command) => {
            &&& after == noted(before, command_view(command))
            &&& step.effects@ == acknowledgment(token_of(command_view(command))) + passed_on(
                command_view(command),
            )
            &&& step.next == still_disconnecting(
                state.after_disconnect.after_command(command_view(command)),
            )
        },
        EventResult::Event(_) => {
            &&& after == before
            &&& step.effects@ == Seq::<Effect>::empty()
            &&& step.next == still_disconnecting(state.after_disconnect)
        },
        EventResult::Close(signal) => {
            &&& after == before
            &&& step.effects@ == (match signal {
                CloseSignal::Reported(_) => Seq::<Effect>::empty(),
                CloseSignal::Dropped => seq![Effect::Warn(Warning::TunnelMonitorStopped)],
            })
            &&& match signal.block_reason() {
                Some(cause) => asks_firewall(
                    step.next,
                    after,
                    AfterPolicy::EnterError { cause },
                ),
                None => match state.after_disconnect {
                    AfterDisconnect::Nothing => asks_firewall(
                        step.next,
                        after,
                        AfterPolicy::EnterDisconnected,
                    ),
                    AfterDisconnect::Block(cause) => asks_firewall(
                        step.next,
                        after,
                        AfterPolicy::EnterError { cause },
                    ),
                    AfterDisconnect::Reconnect(retry_attempt) => connecting_entered(
                        step.next,
                        after,
                        retry_attempt,
                    ),
                },
            }
        },
    }
}

impl DisconnectingState {
    /// Enters the disconnecting state: the tunnel is told to stop, and
    /// observers learn what will follow its end.
    pub fn enter(effects: Vec<Effect>, after_disconnect: AfterDisconnect) -> (step: Step)
        ensures
            step.effects@ == effects@.push(Effect::CloseTunnel),
            step.next == disconnecting(after_disconnect),
    {
        let mut effects = effects;
        effects.push(Effect::CloseTunnel);
        Step {
            effects,
            next: Next::Done(
                EventConsequence::NewState(
                    TunnelState::Disconnecting(DisconnectingState { after_disconnect }),
                    TunnelStateTransition::Disconnecting(after_disconnect.action()),
                ),
            ),
        }
    }

    /// Handles a command while the tunnel closes: settings are noted and
    /// acknowledged at once, since the state that follows will set the
    /// firewall anew, and the plan for what follows is revised. A command
    /// for the sockets or applications that go outside the tunnel is passed
    /// on.
    pub fn handle_commands(
        self,
        command: Option<TunnelCommand>,
        shared_values: &mut SharedTunnelStateValues,
    ) -> (step: Step)
        ensures
            final(shared_values)@ == noted(old(shared_values)@, command_view(command)),
            step.effects@ == acknowledgment(token_of(command_view(command))) + passed_on(
                command_view(command),
            ),
            step.next == still_disconnecting(
                self.after_disconnect.after_command(command_view(command)),
            ),
    {
        let mut effects: Vec<Effect> = Vec::new();
        let after_disconnect = match command {
            Some(TunnelCommand::AllowLan(allow_lan, token)) => {
                let _ = shared_values.set_allow_lan(allow_lan);
                acknowledge(&mut effects, Some(token));
                self.after_disconnect
            },
            Some(TunnelCommand::AllowEndpoint(endpoint, token)) => {
                shared_values.allowed_endpoint = endpoint;
                acknowledge(&mut effects, Some(token));
                self.after_disconnect
            },
            Some(TunnelCommand::Dns(config, token)) => {
                let _ = shared_values.set_dns_config(config);
                acknowledge(&mut effects, Some(token));
                self.after_disconnect
            },
            Some(TunnelCommand::BlockWhenDisconnected(block, token)) => {
                shared_values.block_when_disconnected = block;
                acknowledge(&mut effects, Some(token));
                self.after_disconnect
            },
            Some(TunnelCommand::Connectivity(connectivity)) => {
                shared_values.connectivity = connectivity;
                match self.after_disconnect {
                    AfterDisconnect::Nothing => AfterDisconnect::Nothing,
                    AfterDisconnect::Block(reason) => {
                        if !connectivity.is_offline() && reason == ErrorStateCause::IsOffline {
                            AfterDisconnect::Reconnect(0)
                        } else {
                            AfterDisconnect::Block(reason)
                        }
                    },
                    AfterDisconnect::Reconnect(retry_attempt) => {
                        if connectivity.is_offline() {
                            AfterDisconnect::Block(ErrorStateCause::IsOffline)
                        } else {
                            AfterDisconnect::Reconnect(retry_attempt)
                        }
                    },
                }
            },
            Some(TunnelCommand::Connect) => match self.after_disconnect {
                AfterDisconnect::Reconnect(retry_attempt) => AfterDisconnect::Reconnect(
                    retry_attempt,
                ),
                _ => AfterDisconnect::Reconnect(0),
            },
            Some(TunnelCommand::Disconnect) => AfterDisconnect::Nothing,
            Some(TunnelCommand::Block(reason)) => AfterDisconnect::Block(reason),
            Some(TunnelCommand::BypassSocket(descriptor, token)) => {
                effects.push(Effect::BypassSocket { descriptor, token });
                self.after_disconnect
            },
            Some(TunnelCommand::SetExcludedApps(token)) => {
                effects.push(Effect::SetExcludedApps(token));
                self.after_disconnect
            },
            None => match self.after_disconnect {
                AfterDisconnect::Block(reason) => AfterDisconnect::Block(reason),
                _ => AfterDisconnect::Nothing,
            },
        };
        assert(effects@ == acknowledgment(token_of(command_view(command))) + passed_on(
            command_view(command),
        ));
        same_state(effects, TunnelState::Disconnecting(DisconnectingState { after_disconnect }))
    }

    /// Goes on once the tunnel has closed. Where it closed for a cause that
    /// blocks, the error state is entered with that cause. Else the plan is
    /// carried out: the disconnected state, the error state with the cause
    /// of the plan, or a connection attempt with the number of the plan.
    pub fn after_disconnect(
        self,
        block_reason: Option<ErrorStateCause>,
        shared_values: &SharedTunnelStateValues,
        effects: Vec<Effect>,
    ) -> (step: Step)
        ensures
            step.effects == effects,
            match block_reason {
                Some(cause) => asks_firewall(
                    step.next,
                    shared_values@,
                    AfterPolicy::EnterError { cause },
                ),
                None => match self.after_disconnect {
                    AfterDisconnect::Nothing => asks_firewall(
                        step.next,
                        shared_values@,
                        AfterPolicy::EnterDisconnected,
                    ),
                    AfterDisconnect::Block(cause) => asks_firewall(
                        step.next,
                        shared_values@,
                        AfterPolicy::EnterError { cause },
                    ),
                    AfterDisconnect::Reconnect(retry_attempt) => connecting_entered(
                        step.next,
                        shared_values@,
                        retry_attempt,
                    ),
                },
            },
    {
        match block_reason {
            Some(reason) => ErrorState::enter(shared_values, effects, reason),
            None => match self.after_disconnect {
                AfterDisconnect::Nothing => DisconnectedState::enter(shared_values, effects),
                AfterDisconnect::Block(cause) => ErrorState::enter(shared_values, effects, cause),
                AfterDisconnect::Reconnect(retry_attempt) => ConnectingState::enter(
                    shared_values,
                    effects,
                    retry_attempt,
                ),
            },
        }
    }

    /// Handles one event in the disconnecting state: a command or the
    /// tunnel's close signal. What the tunnel still reports is passed over.
    /// A close signal that was dropped is noted as a warning and then
    /// handled as the end of the tunnel without a cause.
    pub fn handle_event(
        self,
        shared_values: &mut SharedTunnelStateValues,
        event: EventResult,
    ) -> (step: Step)
        ensures
            event_handled(self, event, old(shared_values)@, final(shared_values)@, step),
            step_coherent(step.next, final(shared_values)@),
    {
        match event {
            EventResult::Command(command) => self.handle_commands(command, shared_values),
            EventResult::Event(_) => same_state(Vec::new(), TunnelState::Disconnecting(self)),
            EventResult::Close(signal) => {
                let mut effects: Vec<Effect> = Vec::new();
                match signal {
                    CloseSignal::Dropped => {
                        effects.push(Effect::Warn(Warning::TunnelMonitorStopped));
                    },
                    CloseSignal::Reported(_) => {},
                }
                self.after_disconnect(signal.block_reason(), shared_values, effects)
            },
        }
    }
}

impl AfterDisconnect {
    /// What is to follow the end of the tunnel once `command` has been
    /// heard while the tunnel closes.
    ///
    /// `Connect` asks for a new attempt, numbered 0 unless a reconnection
    /// was under way already, whose number stays. `Disconnect` asks for
    /// nothing to follow. `Block` asks for the error state, with its cause.
    /// The end of the commands asks for nothing to follow, unless the error
    /// state was to follow, which then still does. The news that the host is
    /// offline turns a reconnection into the error state; the news that it
    /// is no longer offline turns the error state into a new attempt where
    /// being offline was the cause. Every other command leaves the plan as
    /// it is.
    pub open spec fn after_command(self, command: Option<TunnelCommandView>) -> AfterDisconnect {
        match command {
            Some(TunnelCommandView::Connect) => match self {
                AfterDisconnect::Reconnect(retry_attempt) => AfterDisconnect::Reconnect(
                    retry_attempt,
                ),
                _ => AfterDisconnect::Reconnect(0),
            },
            Some(TunnelCommandView::Disconnect) => AfterDisconnect::Nothing,
            Some(TunnelCommandView::Block(reason)) => AfterDisconnect::Block(reason),
            Some(TunnelCommandView::Connectivity(connectivity)) => match self {
                AfterDisconnect::Nothing => AfterDisconnect::Nothing,
                AfterDisconnect::Block(reason) => if !connectivity.spec_is_offline() && reason
                    == ErrorStateCause::IsOffline {
                    AfterDisconnect::Reconnect(0)
                } else {
                    AfterDisconnect::Block(reason)
                },
                AfterDisconnect::Reconnect(retry_attempt) => if connectivity.spec_is_offline() {
                    AfterDisconnect::Block(ErrorStateCause::IsOffline)
                } else {
                    AfterDisconnect::Reconnect(retry_attempt)
                },
            },
            Some(_) => self,
            None => match self {
                AfterDisconnect::Block(reason) => AfterDisconnect::Block(reason),
                _ => AfterDisconnect::Nothing,
            },
        }
    }
}

} // verus!
