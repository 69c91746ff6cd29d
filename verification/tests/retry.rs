use talpid_core::time::{Duration, Instant};
use talpid_core::tunnel::{ErrorStateCause, OtherCause, TunnelError, WireguardError};
use talpid_core::tunnel_state_machine::connecting_state::{
    should_retry, TunnelOutcome, MAX_ATTEMPT_CREATE_TUN, MIN_TUNNEL_ALIVE_TIME_MS,
};
use talpid_core::tunnel_state_machine::ConnectingState;

fn wireguard(error: WireguardError) -> TunnelError {
    TunnelError::WireguardTunnelMonitoringError(error)
}

#[test]
fn device_errors_are_retried_up_to_the_bound() {
    let error = wireguard(WireguardError::SetupTunnelDevice(None));
    assert_eq!(MAX_ATTEMPT_CREATE_TUN, 4);
    for attempt in 0..4 {
        assert!(should_retry(&error, attempt));
    }
    assert!(!should_retry(&error, 4));
    assert!(!should_retry(&error, u32::MAX));
}

#[test]
fn other_errors_are_retried_if_they_are_recoverable() {
    assert!(should_retry(&wireguard(WireguardError::RecoverableStartWireguardError), 0));
    assert!(should_retry(&wireguard(WireguardError::RecoverableStartWireguardError), 1000));
    assert!(!should_retry(&wireguard(WireguardError::FatalStartWireguardError), 0));
    assert!(!should_retry(&TunnelError::OpenVpnTunnelMonitoringError, 0));
}

#[test]
fn monitor_blocks_only_for_wireguard_errors_that_are_not_retried() {
    assert_eq!(ConnectingState::wait_for_tunnel_monitor(Ok(()), 0), None);
    assert_eq!(
        ConnectingState::wait_for_tunnel_monitor(Err(wireguard(WireguardError::TimeoutError)), 0),
        None
    );
    assert_eq!(
        ConnectingState::wait_for_tunnel_monitor(
            Err(wireguard(WireguardError::FatalStartWireguardError)),
            0
        ),
        Some(ErrorStateCause::StartTunnelError)
    );
    assert_eq!(
        ConnectingState::wait_for_tunnel_monitor(
            Err(wireguard(WireguardError::RecoverableStartWireguardError)),
            0
        ),
        None
    );
    assert_eq!(
        ConnectingState::wait_for_tunnel_monitor(
            Err(wireguard(WireguardError::SetupTunnelDevice(None))),
            3
        ),
        None
    );
    assert_eq!(
        ConnectingState::wait_for_tunnel_monitor(
            Err(wireguard(WireguardError::SetupTunnelDevice(None))),
            4
        ),
        Some(ErrorStateCause::StartTunnelError)
    );
    assert_eq!(
        ConnectingState::wait_for_tunnel_monitor(Err(TunnelError::OpenVpnTunnelMonitoringError), 0),
        None
    );
}

#[test]
fn start_failure_blocks_unless_it_is_retried() {
    let device = wireguard(WireguardError::SetupTunnelDevice(Some(2)));
    assert_eq!(ConnectingState::tunnel_closed(TunnelOutcome::StartFailed(device), 0), None);
    assert_eq!(
        ConnectingState::tunnel_closed(TunnelOutcome::StartFailed(device), 4),
        Some(ErrorStateCause::Other(OtherCause::CreateTunnelDevice(Some(2))))
    );
    assert_eq!(
        ConnectingState::tunnel_closed(
            TunnelOutcome::StartFailed(TunnelError::EnableIpv6Error),
            0
        ),
        Some(ErrorStateCause::StartTunnelError)
    );
    assert_eq!(
        ConnectingState::tunnel_closed(
            TunnelOutcome::StartFailed(wireguard(WireguardError::ObfuscatorError)),
            9
        ),
        None
    );
    assert_eq!(ConnectingState::tunnel_closed(TunnelOutcome::Stopped(Ok(())), 9), None);
}

#[test]
fn attempts_are_padded_to_the_least_alive_time() {
    assert_eq!(MIN_TUNNEL_ALIVE_TIME_MS, 1000);
    let padding = |elapsed_ms: u64| {
        ConnectingState::remaining_alive_time(&None, &Duration::from_millis(elapsed_ms))
    };
    assert_eq!(padding(0), Some(Duration::from_millis(1000)));
    assert_eq!(padding(1), Some(Duration::from_millis(999)));
    assert_eq!(padding(400), Some(Duration::from_millis(600)));
    assert_eq!(padding(1000), Some(Duration::zero()));
    assert_eq!(padding(1001), None);
    assert_eq!(padding(60_000), None);
    // An attempt that ends with a cause to block is reported at once.
    assert_eq!(
        ConnectingState::remaining_alive_time(
            &Some(ErrorStateCause::StartTunnelError),
            &Duration::zero()
        ),
        None
    );
    // A tunnel that fails at once on every attempt: the attempts are at
    // least the least alive time apart.
    for elapsed_ms in [0u64, 3, 250, 999, 1000, 1500] {
        let elapsed = Duration::from_millis(elapsed_ms);
        let waited = match ConnectingState::remaining_alive_time(&None, &elapsed) {
            Some(wait) => wait.as_secs() * 1000 + u64::from(wait.subsec_nanos()) / 1_000_000,
            None => 0,
        };
        assert!(elapsed_ms + waited >= MIN_TUNNEL_ALIVE_TIME_MS);
    }
}

#[test]
fn durations() {
    let d = Duration::from_millis(1500);
    assert_eq!(d.as_secs(), 1);
    assert_eq!(d.subsec_nanos(), 500_000_000);
    assert_eq!(Duration::new(1, 500_000_000), Some(d));
    assert_eq!(Duration::zero().as_secs(), 0);
    assert_eq!(d.checked_sub(&Duration::from_millis(600)), Some(Duration::from_millis(900)));
    assert_eq!(d.checked_sub(&d), Some(Duration::zero()));
    assert_eq!(d.checked_sub(&Duration::from_millis(1501)), None);
    assert_eq!(
        Duration::new(2, 1).unwrap().checked_sub(&Duration::new(1, 2).unwrap()),
        Duration::new(0, 999_999_999)
    );
    assert_eq!(Duration::from_millis(u64::MAX).as_secs(), u64::MAX / 1000);
}

#[test]
fn instants() {
    assert_eq!(Instant::new(0, 1_000_000_000), None);
    assert_eq!(Instant::new(0, -1), None);
    let earlier = Instant::new(10, 900_000_000).unwrap();
    let later = Instant::new(12, 100_000_000).unwrap();
    assert_eq!(Some(later.duration_since(earlier)), Duration::new(1, 200_000_000));
    assert_eq!(earlier.duration_since(later), Duration::zero());
    assert_eq!(earlier.duration_since(earlier), Duration::zero());
    assert_eq!(later.checked_duration_since(earlier), Duration::new(1, 200_000_000));
    assert_eq!(earlier.checked_duration_since(later), None);
    let far = Instant::new(i64::MAX, 999_999_999).unwrap();
    let long_ago = Instant::new(i64::MIN, 0).unwrap();
    assert_eq!(Some(far.duration_since(long_ago)), Duration::new(u64::MAX, 999_999_999));
    assert_eq!(long_ago.duration_since(far), Duration::zero());
}

#[test]
fn readings_of_the_clock_become_instants() {
    let zero = Instant::new(0, 0).unwrap();
    assert_eq!(Instant::from_timespec(5, 250), Instant::new(5, 250).unwrap());
    assert_eq!(Instant::from_timespec(-3, 999_999_999), Instant::new(-3, 999_999_999).unwrap());
    assert_eq!(
        Some(Instant::from_timespec(5, 250).duration_since(zero)),
        Duration::new(5, 250)
    );
    // Nanoseconds that are no part of a second count as none.
    assert_eq!(Instant::from_timespec(5, 1_000_000_000), Instant::new(5, 0).unwrap());
    assert_eq!(Instant::from_timespec(5, -1), Instant::new(5, 0).unwrap());
    assert_eq!(Instant::from_timespec(i64::MAX, i64::MAX), Instant::new(i64::MAX, 0).unwrap());
}

#[test]
fn the_clock_does_not_run_backwards() {
    let first = Instant::now();
    let second = Instant::now();
    assert_eq!(first.duration_since(second), Duration::zero());
    assert!(second.checked_duration_since(first).is_some());
    // The clock has counted since the machine started.
    let zero = Instant::new(0, 0).unwrap();
    assert!(second.duration_since(zero) != Duration::zero());
}
