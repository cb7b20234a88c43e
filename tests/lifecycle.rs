use bootstrap_node::node::{exit_code, relay_readiness, NodeError, RelayReadiness};
use bootstrap_node::identity::IdentityError;
use bootstrap_node::network::ConfigError;
use bootstrap_node::observer::{EventObserver, ObserverAction, Received};
use bootstrap_node::shutdown::{ShutdownAction, ShutdownController, ShutdownEvent, ShutdownPhase};

#[test]
fn second_interrupt_during_teardown_is_ignored() {
    let mut c = ShutdownController::new();
    assert_eq!(c.on_event(ShutdownEvent::Interrupt), ShutdownAction::BeginTeardown);
    assert_eq!(c.phase, ShutdownPhase::TearingDown);
    assert_eq!(c.on_event(ShutdownEvent::Interrupt), ShutdownAction::Ignore);
    assert_eq!(c.phase, ShutdownPhase::TearingDown);
    assert_eq!(c.on_event(ShutdownEvent::TeardownComplete), ShutdownAction::Exit);
    assert_eq!(c.phase, ShutdownPhase::Stopped);
    assert_eq!(c.on_event(ShutdownEvent::Interrupt), ShutdownAction::Ignore);
    assert_eq!(c.phase, ShutdownPhase::Stopped);
}

#[test]
fn teardown_complete_before_interrupt_is_ignored() {
    let mut c = ShutdownController::new();
    assert_eq!(c.on_event(ShutdownEvent::TeardownComplete), ShutdownAction::Ignore);
    assert_eq!(c.phase, ShutdownPhase::Running);
}

#[test]
fn observer_logs_until_the_channel_closes() {
    let mut o = EventObserver::new();
    assert_eq!(o.on_received(Received::Event), ObserverAction::Log);
    assert_eq!(o.on_received(Received::Event), ObserverAction::Log);
    assert_eq!(o.on_received(Received::Lagged(7)), ObserverAction::ReportDropped(7));
    assert_eq!(o.on_received(Received::Event), ObserverAction::Log);
    assert_eq!(o.logged, 3);
    assert_eq!(o.dropped, 7);
    assert_eq!(o.on_received(Received::Closed), ObserverAction::Stop);
    assert!(o.stopped);
    assert_eq!(o.on_received(Received::Event), ObserverAction::Stop);
    assert_eq!(o.logged, 3);
}

#[test]
fn observer_counters_saturate() {
    let mut o = EventObserver::new();
    assert_eq!(o.on_received(Received::Lagged(u64::MAX)), ObserverAction::ReportDropped(u64::MAX));
    assert_eq!(o.on_received(Received::Lagged(5)), ObserverAction::ReportDropped(5));
    assert_eq!(o.dropped, u64::MAX);
}

#[test]
fn exit_code_is_zero_only_on_clean_shutdown() {
    assert_eq!(exit_code(&Ok(())), 0);
    assert_eq!(exit_code(&Err(NodeError::Identity(IdentityError::Malformed))), 2);
    assert_eq!(exit_code(&Err(NodeError::Config(ConfigError::InvalidRelayUrl))), 3);
    assert_eq!(exit_code(&Err(NodeError::Connectivity)), 4);
    assert_eq!(exit_code(&Err(NodeError::Runtime)), 5);
}

#[test]
fn relay_readiness_waits_then_times_out() {
    assert_eq!(relay_readiness(None, 0, 1000), RelayReadiness::Waiting);
    assert_eq!(relay_readiness(None, 999, 1000), RelayReadiness::Waiting);
    assert_eq!(relay_readiness(None, 1000, 1000), RelayReadiness::TimedOut);
    assert_eq!(
        relay_readiness(Some("https://relay.example.org/".to_string()), 5000, 1000),
        RelayReadiness::Ready("https://relay.example.org/".to_string())
    );
}
