use backend_supervisor::json::u64_to_string;
use backend_supervisor::supervisor::{
    readiness_step, wait_for_backend_ready, KillOutcome, PollOutcome, ProcessError,
    ProcessManager, SpawnOutcome, WaitDecision, MAX_READY_ATTEMPTS,
};

#[test]
fn test_process_manager_creation() {
    let manager = ProcessManager::new();
    assert_eq!(manager.get_port(), 8008);
}

#[test]
fn test_start_succeeds_on_third_probe() {
    let mut manager = ProcessManager::new();
    let probes = vec![false, false, true];
    let attempts = manager
        .start_python_backend(
            PollOutcome::Exited,
            KillOutcome::Delivered,
            SpawnOutcome::Spawned(4242),
            &probes,
            100,
        )
        .unwrap();
    assert_eq!(attempts, 3);
    assert_eq!(manager.python_process, Some(4242));
    assert_eq!(manager.start_time, Some(100));
}

#[test]
fn test_start_times_out_and_leaves_process_tracked() {
    let mut manager = ProcessManager::new();
    let probes = vec![false; MAX_READY_ATTEMPTS as usize];
    let result = manager.start_python_backend(
        PollOutcome::Exited,
        KillOutcome::Delivered,
        SpawnOutcome::Spawned(7),
        &probes,
        5,
    );
    match result {
        Err(ProcessError::CommunicationFailed(m)) => {
            assert_eq!(m, "Backend failed to become ready within timeout");
        }
        other => panic!("expected a readiness timeout, got {:?}", other),
    }
    assert_eq!(manager.python_process, Some(7));
}

#[test]
fn test_start_ignores_probes_past_the_budget() {
    let mut manager = ProcessManager::new();
    let mut probes = vec![false; MAX_READY_ATTEMPTS as usize];
    probes.push(true);
    let result = manager.start_python_backend(
        PollOutcome::Exited,
        KillOutcome::Delivered,
        SpawnOutcome::Spawned(7),
        &probes,
        5,
    );
    assert!(result.is_err());
}

#[test]
fn test_start_spawn_failure() {
    let mut manager = ProcessManager::new();
    let result = manager.start_python_backend(
        PollOutcome::Exited,
        KillOutcome::Delivered,
        SpawnOutcome::SpawnError("no such interpreter".to_string()),
        &vec![],
        5,
    );
    match result {
        Err(ProcessError::StartFailed(m)) => {
            assert_eq!(m, "Failed to spawn process: no such interpreter");
        }
        other => panic!("expected a spawn failure, got {:?}", other),
    }
    assert_eq!(manager.python_process, None);
}

#[test]
fn test_restart_replaces_the_tracked_process() {
    let mut manager = ProcessManager::new();
    manager
        .start_python_backend(
            PollOutcome::Exited,
            KillOutcome::Delivered,
            SpawnOutcome::Spawned(1),
            &vec![true],
            10,
        )
        .unwrap();
    assert_eq!(manager.python_process, Some(1));
    manager
        .start_python_backend(
            PollOutcome::StillRunning,
            KillOutcome::Delivered,
            SpawnOutcome::Spawned(2),
            &vec![true],
            20,
        )
        .unwrap();
    assert_eq!(manager.python_process, Some(2));
    assert_eq!(manager.start_time, Some(20));
}

#[test]
fn test_stop_is_idempotent_when_nothing_tracked() {
    let mut manager = ProcessManager::new();
    assert!(manager.stop_python_backend(KillOutcome::Delivered).is_ok());
    assert!(manager.stop_python_backend(KillOutcome::Delivered).is_ok());
    assert_eq!(manager.python_process, None);
    assert_eq!(manager.start_time, None);
}

#[test]
fn test_stop_surfaces_kill_failure() {
    let mut manager = ProcessManager::new();
    manager
        .start_python_backend(
            PollOutcome::Exited,
            KillOutcome::Delivered,
            SpawnOutcome::Spawned(9),
            &vec![true],
            10,
        )
        .unwrap();
    let result = manager.stop_python_backend(KillOutcome::KillError("no permission".to_string()));
    match result {
        Err(ProcessError::CommunicationFailed(m)) => {
            assert_eq!(m, "Kill failed: no permission");
        }
        other => panic!("expected a kill failure, got {:?}", other),
    }
}

#[test]
fn test_crash_is_observed_on_next_check() {
    let mut manager = ProcessManager::new();
    manager
        .start_python_backend(
            PollOutcome::Exited,
            KillOutcome::Delivered,
            SpawnOutcome::Spawned(9),
            &vec![true],
            10,
        )
        .unwrap();
    assert!(manager.is_backend_running(PollOutcome::StillRunning));
    assert!(!manager.is_backend_running(PollOutcome::Exited));
    assert_eq!(manager.python_process, None);
    let status = manager.get_backend_status(PollOutcome::Exited, 50);
    assert!(!status.is_running);
    assert_eq!(status.pid, None);
    assert_eq!(status.uptime_seconds, None);
}

#[test]
fn test_status_reports_uptime_and_port() {
    let mut manager = ProcessManager::new();
    manager.set_port(9001);
    manager
        .start_python_backend(
            PollOutcome::Exited,
            KillOutcome::Delivered,
            SpawnOutcome::Spawned(3),
            &vec![true],
            100,
        )
        .unwrap();
    let status = manager.get_backend_status(PollOutcome::StillRunning, 160);
    assert!(status.is_running);
    assert_eq!(status.pid, Some(3));
    assert_eq!(status.port, 9001);
    assert_eq!(status.uptime_seconds, Some(60));
    assert_eq!(status.health_status, None);
}

#[test]
fn test_wait_for_backend_ready_bounds() {
    assert_eq!(wait_for_backend_ready(&vec![true]).unwrap(), 1);
    assert_eq!(wait_for_backend_ready(&vec![false, true]).unwrap(), 2);
    assert!(wait_for_backend_ready(&vec![]).is_err());
    assert!(wait_for_backend_ready(&vec![false; 30]).is_err());
}

#[test]
fn test_readiness_step_decisions() {
    assert_eq!(readiness_step(0, true), WaitDecision::Ready);
    assert_eq!(readiness_step(0, false), WaitDecision::Retry);
    assert_eq!(readiness_step(28, false), WaitDecision::Retry);
    assert_eq!(readiness_step(29, false), WaitDecision::GiveUp);
}

#[test]
fn test_process_error_messages() {
    assert_eq!(ProcessError::ProcessNotFound.message(), "Process not found");
    assert_eq!(
        ProcessError::IoError("disk gone".to_string()).message(),
        "IO error: disk gone"
    );
    assert_eq!(
        ProcessError::StartFailed("x".to_string()).message(),
        "Failed to start process: x"
    );
    assert_eq!(
        ProcessError::CommunicationFailed("y".to_string()).message(),
        "Process communication failed: y"
    );
}

#[test]
fn test_u64_decimal_text() {
    assert_eq!(u64_to_string(0), "0");
    assert_eq!(u64_to_string(8008), "8008");
    assert_eq!(u64_to_string(18446744073709551615), "18446744073709551615");
}
