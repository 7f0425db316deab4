use multinode::{
    channel_closed_line, select_worker_binary, termination_lines, SpawnError, Supervisor,
    WorkerLocation,
};

#[test]
fn debug_binary_comes_first() {
    assert!(matches!(select_worker_binary(true, true), Ok(WorkerLocation::DebugLocal)));
    assert!(matches!(select_worker_binary(true, false), Ok(WorkerLocation::DebugLocal)));
}

#[test]
fn packaged_binary_is_the_fallback() {
    assert!(matches!(select_worker_binary(false, true), Ok(WorkerLocation::Packaged)));
}

#[test]
fn missing_binary_is_a_spawn_error() {
    assert!(matches!(select_worker_binary(false, false), Err(SpawnError::BinaryMissing)));
}

#[test]
fn handoff_of_a_handle_builds_a_running_supervisor() {
    let sup = Supervisor::from_handoff(Some(Ok(42u32))).ok().unwrap();
    assert!(sup.is_running());
}

#[test]
fn handoff_of_an_error_fails_construction() {
    let r = Supervisor::<u32>::from_handoff(Some(Err(SpawnError::Refused("denied".to_string()))));
    match r {
        Err(SpawnError::Refused(e)) => assert_eq!(e, "denied"),
        _ => panic!("expected the spawn error"),
    }
}

#[test]
fn lost_handoff_fails_construction() {
    assert!(matches!(Supervisor::<u32>::from_handoff(None), Err(SpawnError::HandoffLost)));
}

#[test]
fn terminate_twice_is_a_no_op() {
    let mut sup = Supervisor::from_handoff(Some(Ok(7u32))).ok().unwrap();
    assert_eq!(sup.take_for_termination(), Some(7));
    assert!(!sup.is_running());
    assert_eq!(sup.take_for_termination(), None);
    assert_eq!(sup.take_for_termination(), None);
    assert!(!sup.is_running());
}

#[test]
fn clean_exit_logs_the_status() {
    assert_eq!(termination_lines(None, Ok("exit status: 0".to_string())), vec!["Node exited: exit status: 0"]);
}

#[test]
fn failed_signal_is_logged_and_shutdown_goes_on() {
    assert_eq!(
        termination_lines(Some("no such process".to_string()), Ok("signal: 9".to_string())),
        vec!["Failed to stop node: no such process", "Node exited: signal: 9"]
    );
}

#[test]
fn failed_wait_is_logged() {
    assert_eq!(
        termination_lines(None, Err("interrupted".to_string())),
        vec!["Failed to wait for node: interrupted"]
    );
}

#[test]
fn closed_channel_is_an_anomaly_only_while_alive() {
    assert_eq!(
        channel_closed_line(true),
        Some("Output channel closed while the node is still running".to_string())
    );
    assert_eq!(channel_closed_line(false), None);
}
