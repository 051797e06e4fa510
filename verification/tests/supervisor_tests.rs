use serial_bridge::error::BridgeError;
use serial_bridge::supervisor::{Supervisor, SupervisorEvent, SupervisorState};

#[test]
fn reconnect_retries_after_device_failure() {
    let mut sup = Supervisor::new(true);
    assert_eq!(sup.state, SupervisorState::Resolving);
    sup.step(SupervisorEvent::Resolved);
    assert_eq!(sup.state, SupervisorState::Opening);
    sup.step(SupervisorEvent::Opened);
    assert_eq!(sup.state, SupervisorState::Relaying);
    sup.step(SupervisorEvent::RelayFailed);
    assert_eq!(sup.state, SupervisorState::Pausing);
    assert_eq!(sup.retries, 1);
    sup.step(SupervisorEvent::PauseOver);
    assert_eq!(sup.state, SupervisorState::Resolving);
}

#[test]
fn retry_counter_strictly_increases_per_failed_cycle() {
    let mut sup = Supervisor::new(true);
    sup.step(SupervisorEvent::ResolveFailed);
    assert_eq!(sup.retries, 1);
    sup.step(SupervisorEvent::PauseOver);
    sup.step(SupervisorEvent::Resolved);
    sup.step(SupervisorEvent::OpenFailed);
    assert_eq!(sup.retries, 2);
    sup.step(SupervisorEvent::PauseOver);
    sup.step(SupervisorEvent::Resolved);
    sup.step(SupervisorEvent::Opened);
    sup.step(SupervisorEvent::RelayFailed);
    assert_eq!(sup.retries, 3);
}

#[test]
fn no_reconnect_open_failure_is_fatal_without_retry() {
    let mut sup = Supervisor::new(false);
    sup.step(SupervisorEvent::Resolved);
    sup.step(SupervisorEvent::OpenFailed);
    assert_eq!(sup.state, SupervisorState::Failed);
    assert_eq!(sup.retries, 0);
}

#[test]
fn no_reconnect_resolve_failure_is_fatal() {
    let mut sup = Supervisor::new(false);
    sup.step(SupervisorEvent::ResolveFailed);
    assert_eq!(sup.state, SupervisorState::Failed);
    assert_eq!(sup.retries, 0);
}

#[test]
fn clean_eof_without_reconnect_is_done() {
    let mut sup = Supervisor::new(false);
    sup.step(SupervisorEvent::Resolved);
    sup.step(SupervisorEvent::Opened);
    sup.step(SupervisorEvent::RelayClean);
    assert_eq!(sup.state, SupervisorState::Done);
    assert_eq!(sup.retries, 0);
}

#[test]
fn resolution_errors_fail_the_resolving_step() {
    let mut sup = Supervisor::new(true);
    sup.step_open_failure(BridgeError::PortNotFound);
    assert_eq!(sup.state, SupervisorState::Pausing);
    assert_eq!(sup.retries, 1);
    sup.step(SupervisorEvent::PauseOver);
    sup.step_open_failure(BridgeError::EnumerationFailed);
    assert_eq!(sup.state, SupervisorState::Pausing);
    assert_eq!(sup.retries, 2);
}

#[test]
fn open_errors_pass_resolution_and_fail_the_open() {
    let mut sup = Supervisor::new(true);
    sup.step_open_failure(BridgeError::OpenFailed);
    assert_eq!(sup.state, SupervisorState::Pausing);
    assert_eq!(sup.retries, 1);
}

#[test]
fn open_error_without_reconnect_is_fatal_at_once() {
    let mut sup = Supervisor::new(false);
    sup.step_open_failure(BridgeError::OpenFailed);
    assert_eq!(sup.state, SupervisorState::Failed);
    assert_eq!(sup.retries, 0);
}

#[test]
fn clean_eof_with_reconnect_resolves_again() {
    let mut sup = Supervisor::new(true);
    sup.step(SupervisorEvent::Resolved);
    sup.step(SupervisorEvent::Opened);
    sup.step(SupervisorEvent::RelayClean);
    assert_eq!(sup.state, SupervisorState::Resolving);
    assert_eq!(sup.retries, 0);
}
