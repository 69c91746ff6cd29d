//! What holds of the state machine as a whole.

use super::connecting_state::{
    alive_time_padding, block_reason, event_handled, fresh_attempt, retried, MAX_ATTEMPT_CREATE_TUN,
    MIN_TUNNEL_ALIVE_TIME_MS, TunnelOutcome,
};
use super::error_state::connecting_entered;
use super::{
    asks_firewall, blocked_policy, AfterPolicy, CloseSignal, ConnectingState, ConnectingStateView,
    Effect, EventConsequence, EventResult, Next, SharedView, Step, TunnelStateView,
};
use crate::firewall::FirewallPolicyView;
use crate::net::AllowedTunnelTraffic;
use crate::tunnel::{
    ErrorStateCause, TunnelError, TunnelEventView, TunnelMetadata, TunnelMetadataView,
    TunnelParameters,
};
use vstd::prelude::*;

verus! {

/// What a state expects of the firewall.
pub ghost enum Expectation {
    /// The state expects nothing: the tunnel is closing, and the state that
    /// follows will set the firewall anew.
    Unconstrained,
    /// The firewall holds no policy.
    NoPolicy,
    /// The firewall enforces this policy.
    Policy(FirewallPolicyView),
}

/// The policy that is derived from a state's data and the shared values.
pub open spec fn expected_policy(state: TunnelStateView, shared: SharedView) -> Expectation {
    match state {
        TunnelStateView::Disconnected => if shared.block_when_disconnected {
            Expectation::Policy(blocked_policy(shared))
        } else {
            Expectation::NoPolicy
        },
        TunnelStateView::Connecting(state) => Expectation::Policy(state.policy(shared)),
        TunnelStateView::Connected(state) => Expectation::Policy(state.policy(shared)),
        TunnelStateView::Disconnecting(_) => Expectation::Unconstrained,
        TunnelStateView::Error(_) => Expectation::Policy(blocked_policy(shared)),
    }
}

/// Whether the firewall enforces exactly the policy that is derived from the
/// state, as far as the firewall port has not failed.
pub open spec fn coherent(state: TunnelStateView, shared: SharedView) -> bool {
    shared.firewall.faulted || match expected_policy(state, shared) {
        Expectation::Unconstrained => true,
        Expectation::NoPolicy => shared.firewall.policy is None,
        Expectation::Policy(policy) => shared.firewall.policy == Some(policy),
    }
}

/// Whether the firewall is coherent with the state in which a step leaves
/// the machine. A step that asks for a policy or for parameters leaves it in
/// no state yet; one that asks for the DNS settings leaves it on the
/// threshold of the connected state that the request belongs to.
pub open spec fn step_coherent(next: Next, shared: SharedView) -> bool {
    match next {
        Next::Done(EventConsequence::NewState(state, _)) => coherent(state@, shared),
        Next::Done(EventConsequence::SameState(state)) => coherent(state@, shared),
        Next::Done(EventConsequence::Finished) => true,
        Next::SetDns { then, .. } => coherent(TunnelStateView::Connected(then.state()), shared),
        _ => true,
    }
}

impl ConnectingStateView {
    /// The connecting state after the tunnel has reported that its interface
    /// is up.
    pub open spec fn interface_up(
        self,
        metadata: TunnelMetadataView,
        allowed_tunnel_traffic: AllowedTunnelTraffic,
    ) -> ConnectingStateView {
        ConnectingStateView {
            tunnel_metadata: Some(metadata),
            allowed_tunnel_traffic,
            ..self
        }
    }

    /// The connecting state after the tunnel has reported that it is down.
    pub open spec fn down(self) -> ConnectingStateView {
        ConnectingStateView {
            tunnel_metadata: None,
            allowed_tunnel_traffic: AllowedTunnelTraffic::Nothing,
            ..self
        }
    }

    /// The connecting state after a tunnel event that leaves it live. An
    /// event that leads out of the state leaves its data as it is.
    pub open spec fn after_event(self, event: TunnelEventView) -> ConnectingStateView {
        match event {
            TunnelEventView::InterfaceUp(metadata, traffic) => self.interface_up(metadata, traffic),
            TunnelEventView::Down => self.down(),
            _ => self,
        }
    }
}

/// The traffic allowed inside the tunnel is only ever widened while
/// connecting: as long as the tunnel reports no less than it reported before,
/// every event but `Down` leaves at least what was allowed, and `Down` allows
/// nothing any more.
pub proof fn allowed_tunnel_traffic_only_widens(state: ConnectingStateView, event: TunnelEventView)
    requires
        event matches TunnelEventView::InterfaceUp(_, traffic) ==> traffic.at_least(
            state.allowed_tunnel_traffic,
        ),
    ensures
        event is Down ==> state.after_event(event).allowed_tunnel_traffic
            == AllowedTunnelTraffic::Nothing,
        !(event is Down) ==> state.after_event(event).allowed_tunnel_traffic.at_least(
            state.allowed_tunnel_traffic,
        ),
{
}

/// Whatever the tunnel reports first widens what a fresh connection attempt
/// allows, which is nothing.
pub proof fn anything_widens_nothing(traffic: AllowedTunnelTraffic)
    ensures
        traffic.at_least(AllowedTunnelTraffic::Nothing),
{
}

/// A tunnel that fails to start with an error that is not retried ends the
/// attempts: the close of the attempt leads to the error state, with the
/// cause of that error, and asks for no parameters of a further attempt.
pub proof fn unrecoverable_error_ends_the_attempts(
    state: ConnectingState,
    error: TunnelError,
    shared: SharedView,
    step: Step,
)
    requires
        !retried(error, state.retry_attempt),
        event_handled(
            state,
            EventResult::Close(
                CloseSignal::Reported(
                    block_reason(TunnelOutcome::StartFailed(error), state.retry_attempt),
                ),
            ),
            shared,
            shared,
            step,
        ),
    ensures
        asks_firewall(
            step.next,
            shared,
            AfterPolicy::EnterError { cause: ErrorStateCause::of_tunnel_error(error) },
        ),
        !(step.next is GenerateParameters),
        step.effects@ == seq![Effect::ClearRoutes],
{
}

/// A tunnel that fails to start with an error that is retried is followed by
/// the next attempt, numbered exactly one higher: where the host is online,
/// the close of the attempt asks for the parameters of that attempt.
pub proof fn recoverable_error_begins_the_next_attempt(
    state: ConnectingState,
    error: TunnelError,
    shared: SharedView,
    step: Step,
)
    requires
        state.retry_attempt < u32::MAX,
        retried(error, state.retry_attempt),
        event_handled(
            state,
            EventResult::Close(
                CloseSignal::Reported(
                    block_reason(TunnelOutcome::StartFailed(error), state.retry_attempt),
                ),
            ),
            shared,
            shared,
            step,
        ),
    ensures
        connecting_entered(step.next, shared, (state.retry_attempt + 1) as u32),
        shared.connectivity.spec_availability() matches Some(availability) ==> step.next
            == (Next::GenerateParameters {
            retry_attempt: (state.retry_attempt + 1) as u32,
            availability,
        }),
{
}

/// A failure to create the tunnel device is retried during the first
/// `MAX_ATTEMPT_CREATE_TUN` attempts and by none after them.
pub proof fn device_errors_are_retried_a_bounded_number_of_times(
    error: TunnelError,
    retry_attempt: u32,
)
    requires
        error.spec_get_tunnel_device_error() is Some,
    ensures
        retried(error, retry_attempt) <==> retry_attempt < MAX_ATTEMPT_CREATE_TUN,
{
}

/// An attempt that ends without a cause to block takes at least the least
/// time of an attempt, once the time that its worker still waits is added
/// to the time that it took.
pub proof fn attempts_take_the_least_alive_time(elapsed: nat)
    ensures
        elapsed + alive_time_padding(false, elapsed) >= MIN_TUNNEL_ALIVE_TIME_MS * 1_000_000,
{
}

/// The number of requests that the handling of an event may still make
/// once `then` has run, and one more.
pub open spec fn policy_rank(then: AfterPolicy) -> nat {
    match then {
        AfterPolicy::StartTunnel { .. } => 2,
        AfterPolicy::EnterConnected { .. } => 2,
        AfterPolicy::KeepConnected { dns, .. } => if dns {
            2
        } else {
            1
        },
        _ => 1,
    }
}

/// The number of requests that the handling of an event may still make
/// from `next` on, `next` included.
pub open spec fn rank(next: Next) -> nat {
    match next {
        Next::Done(_) => 0,
        Next::ApplyPolicy(_, then) => policy_rank(then),
        Next::ResetPolicy(then) => policy_rank(then),
        Next::GenerateParameters { .. } => 3,
        Next::SetDns { .. } => 1,
    }
}

/// The handler of tunnel events changes the connecting state as
/// `after_event` says.
pub proof fn connecting_state_follows_tunnel_events(
    state: ConnectingState,
    metadata: TunnelMetadata,
    allowed_tunnel_traffic: AllowedTunnelTraffic,
)
    ensures
        state.interface_up(metadata, allowed_tunnel_traffic)@ == state@.after_event(
            TunnelEventView::InterfaceUp(metadata@, allowed_tunnel_traffic),
        ),
        state.down()@ == state@.after_event(TunnelEventView::Down),
{
}

/// A connection attempt begins with no traffic allowed inside the tunnel.
pub proof fn fresh_attempt_allows_no_tunnel_traffic(
    parameters: TunnelParameters,
    retry_attempt: u32,
)
    ensures
        fresh_attempt(parameters, retry_attempt).allowed_tunnel_traffic
            == AllowedTunnelTraffic::Nothing,
        fresh_attempt(parameters, retry_attempt).tunnel_metadata is None,
        fresh_attempt(parameters, retry_attempt).retry_attempt == retry_attempt,
{
}

/// A session begins coherent: with a firewall that holds no policy, the
/// disconnected state is coherent where traffic is not blocked while
/// disconnected; and with a firewall that was set up to block, it is
/// coherent where traffic is blocked while disconnected and the firewall
/// was set up with the LAN setting and the allowed endpoint of the session.
pub proof fn a_session_begins_coherent(shared: SharedView)
    requires
        !shared.firewall.faulted,
        if shared.block_when_disconnected {
            shared.firewall.policy == Some(
                FirewallPolicyView::Blocked {
                    allow_lan: shared.allow_lan,
                    allowed_endpoint: Some(shared.allowed_endpoint),
                },
            )
        } else {
            shared.firewall.policy is None
        },
    ensures
        coherent(TunnelStateView::Disconnected, shared),
{
}

} // verus!
