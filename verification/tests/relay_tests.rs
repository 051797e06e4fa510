use serial_bridge::device::{classify_read, ReadFailure};
use serial_bridge::relay::{
    InputAction, InputEvent, InputForwarder, InputOutcome, OutputAction, OutputForwarder,
    ReadOutcome, RelayOutcome,
};

#[test]
fn data_is_forwarded_unchanged_with_flush() {
    let mut fwd = OutputForwarder::new(true);
    let a = fwd.step(ReadOutcome::Data(vec![1, 2, 3]));
    match a {
        OutputAction::Forward { bytes, flush } => {
            assert_eq!(bytes, vec![1, 2, 3]);
            assert!(flush);
        }
        _ => panic!("data must be forwarded"),
    }
    assert!(fwd.outcome.is_none());
    assert!(fwd.pending);
}

#[test]
fn data_is_forwarded_unchanged_without_flush() {
    let mut fwd = OutputForwarder::new(false);
    let a = fwd.step(ReadOutcome::Data(vec![9]));
    match a {
        OutputAction::Forward { bytes, flush } => {
            assert_eq!(bytes, vec![9]);
            assert!(!flush);
        }
        _ => panic!("data must be forwarded"),
    }
}

#[test]
fn a_chunk_stays_pending_until_confirmed() {
    let mut fwd = OutputForwarder::new(true);
    assert!(!fwd.pending);
    match fwd.step(ReadOutcome::Data(vec![1])) {
        OutputAction::Forward { .. } => {}
        _ => panic!("data must be forwarded"),
    }
    assert!(fwd.pending);
    fwd.confirm_forwarded();
    assert!(!fwd.pending);
    assert!(matches!(fwd.step(ReadOutcome::TimedOut), OutputAction::Poll));
}

#[test]
fn timeout_neither_ends_nor_forwards() {
    let mut fwd = OutputForwarder::new(true);
    let a = fwd.step(ReadOutcome::TimedOut);
    assert!(matches!(a, OutputAction::Poll));
    assert!(fwd.outcome.is_none());
    let a = fwd.step(ReadOutcome::TimedOut);
    assert!(matches!(a, OutputAction::Poll));
    assert!(fwd.outcome.is_none());
}

#[test]
fn zero_bytes_end_the_path_cleanly() {
    let mut fwd = OutputForwarder::new(false);
    let a = fwd.step(ReadOutcome::EndOfStream);
    assert!(matches!(a, OutputAction::Finish(RelayOutcome::CleanEof)));
    assert_eq!(fwd.outcome, Some(RelayOutcome::CleanEof));
}

#[test]
fn hard_failure_ends_the_path_distinctly() {
    let mut fwd = OutputForwarder::new(false);
    let a = fwd.step(ReadOutcome::Failed);
    assert!(matches!(a, OutputAction::Finish(RelayOutcome::DeviceFailure)));
    assert_eq!(fwd.outcome, Some(RelayOutcome::DeviceFailure));
    assert_ne!(fwd.outcome, Some(RelayOutcome::CleanEof));
}

#[test]
fn chunks_stay_in_order() {
    let mut fwd = OutputForwarder::new(false);
    let mut collected: Vec<u8> = Vec::new();
    for chunk in [vec![1, 2], vec![3], vec![4, 5, 6]] {
        match fwd.step(ReadOutcome::Data(chunk)) {
            OutputAction::Forward { bytes, .. } => collected.extend_from_slice(&bytes),
            _ => panic!("data must be forwarded"),
        }
        fwd.confirm_forwarded();
    }
    assert_eq!(collected, vec![1, 2, 3, 4, 5, 6]);
}

#[test]
fn input_data_goes_to_the_device_unchanged() {
    let mut fwd = InputForwarder::new();
    let a = fwd.step(InputEvent::Data(vec![7, 8]));
    match a {
        InputAction::Forward(bytes) => assert_eq!(bytes, vec![7, 8]),
        _ => panic!("data must be forwarded"),
    }
    assert!(fwd.outcome.is_none());
}

#[test]
fn input_eof_stops_quietly() {
    let mut fwd = InputForwarder::new();
    let a = fwd.step(InputEvent::Eof);
    assert!(matches!(a, InputAction::Stop));
    assert_eq!(fwd.outcome, Some(InputOutcome::SourceClosed));
}

#[test]
fn input_read_failure_aborts() {
    let mut fwd = InputForwarder::new();
    let a = fwd.step(InputEvent::ReadFailed);
    assert!(matches!(a, InputAction::Abort));
    assert_eq!(fwd.outcome, Some(InputOutcome::Fatal));
}

#[test]
fn device_write_failure_aborts() {
    let mut fwd = InputForwarder::new();
    match fwd.step(InputEvent::Data(vec![1])) {
        InputAction::Forward(_) => {}
        _ => panic!("data must be forwarded"),
    }
    let a = fwd.step(InputEvent::WriteFailed);
    assert!(matches!(a, InputAction::Abort));
    assert_eq!(fwd.outcome, Some(InputOutcome::Fatal));
}

#[test]
fn classification_tells_the_four_outcomes_apart() {
    assert!(matches!(classify_read(Ok(vec![])), ReadOutcome::EndOfStream));
    match classify_read(Ok(vec![1, 2])) {
        ReadOutcome::Data(v) => assert_eq!(v, vec![1, 2]),
        _ => panic!("bytes must classify as data"),
    }
    assert!(matches!(classify_read(Err(ReadFailure::TimedOut)), ReadOutcome::TimedOut));
    assert!(matches!(classify_read(Err(ReadFailure::Other)), ReadOutcome::Failed));
}
