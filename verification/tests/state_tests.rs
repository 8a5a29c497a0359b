use sidecar_supervisor::probe::HealthCheckResult;
use sidecar_supervisor::pump::{PumpEvent, PumpState, StreamKind};
use sidecar_supervisor::state::{AppState, InstallReport, SupervisorState};
use sidecar_supervisor::worker::{WorkerHandle, WorkerStatus};

fn handle(pid: u32, status: WorkerStatus) -> WorkerHandle {
    WorkerHandle { pid, status }
}

#[test]
fn new_state_is_empty() {
    let state = SupervisorState::new();
    assert_eq!(state.current(), None);
    assert!(!state.is_worker_running());
}

#[test]
fn app_state_starts_with_its_name_and_no_worker() {
    let state = AppState::new();
    assert_eq!(state.app_name, "My Tauri App");
    assert_eq!(state.sidecar_child.current(), None);
}

#[test]
fn install_then_current() {
    let mut state = SupervisorState::new();
    let h = WorkerHandle::starting(41);
    let report = state.install(h);
    assert_eq!(report, InstallReport { previous: None, double_install: false });
    assert_eq!(state.current(), Some(&handle(41, WorkerStatus::Starting)));
    assert_eq!(state.current(), Some(&h));
}

#[test]
fn install_over_a_live_worker_is_reported() {
    let mut state = SupervisorState::new();
    state.install(handle(1, WorkerStatus::Running));
    let report = state.install(handle(2, WorkerStatus::Starting));
    assert_eq!(
        report,
        InstallReport { previous: Some(handle(1, WorkerStatus::Running)), double_install: true }
    );
    assert_eq!(state.current(), Some(&handle(2, WorkerStatus::Starting)));
}

#[test]
fn install_over_an_ended_worker_is_silent() {
    let mut state = SupervisorState::new();
    state.install(handle(1, WorkerStatus::Exited(Some(0))));
    let report = state.install(handle(2, WorkerStatus::Starting));
    assert_eq!(report.previous, Some(handle(1, WorkerStatus::Exited(Some(0)))));
    assert!(!report.double_install);
    let mut killed = SupervisorState::new();
    killed.install(handle(3, WorkerStatus::Killed));
    assert!(!killed.install(handle(4, WorkerStatus::Starting)).double_install);
}

#[test]
fn take_twice_is_empty_the_second_time() {
    let mut state = SupervisorState::new();
    state.install(handle(7, WorkerStatus::Running));
    assert_eq!(state.take(), Some(handle(7, WorkerStatus::Running)));
    assert_eq!(state.take(), None);
    assert_eq!(state.take(), None);
    assert_eq!(state.current(), None);
}

#[test]
fn take_from_empty_state() {
    let mut state = SupervisorState::new();
    assert_eq!(state.take(), None);
}

#[test]
fn is_worker_running_follows_the_status() {
    let mut state = SupervisorState::new();
    state.install(handle(7, WorkerStatus::Starting));
    assert!(!state.is_worker_running());
    state.install(handle(7, WorkerStatus::Running));
    assert!(state.is_worker_running());
    state.install(handle(7, WorkerStatus::Exited(None)));
    assert!(!state.is_worker_running());
    state.install(handle(7, WorkerStatus::Killed));
    assert!(!state.is_worker_running());
}

#[test]
fn successful_probe_makes_a_starting_worker_running() {
    let mut state = SupervisorState::new();
    state.install(WorkerHandle::starting(9));
    state.record_probe(HealthCheckResult { reachable: false, observed_at: 1 });
    assert_eq!(state.current(), Some(&handle(9, WorkerStatus::Starting)));
    state.record_probe(HealthCheckResult { reachable: true, observed_at: 2 });
    assert_eq!(state.current(), Some(&handle(9, WorkerStatus::Running)));
    assert!(state.is_worker_running());
    state.record_probe(HealthCheckResult { reachable: false, observed_at: 3 });
    assert_eq!(state.current(), Some(&handle(9, WorkerStatus::Running)));
}

#[test]
fn probe_on_empty_or_ended_worker_changes_nothing() {
    let mut state = SupervisorState::new();
    state.record_probe(HealthCheckResult { reachable: true, observed_at: 2 });
    assert_eq!(state.current(), None);
    state.install(handle(3, WorkerStatus::Exited(Some(1))));
    state.record_probe(HealthCheckResult { reachable: true, observed_at: 2 });
    assert_eq!(state.current(), Some(&handle(3, WorkerStatus::Exited(Some(1)))));
}

#[test]
fn worker_exit_is_recorded_and_not_cleared() {
    let mut state = SupervisorState::new();
    state.install(handle(12, WorkerStatus::Running));
    assert!(state.is_worker_running());
    assert!(state.observe_exit(12, Some(3)));
    assert!(!state.is_worker_running());
    assert_eq!(state.current(), Some(&handle(12, WorkerStatus::Exited(Some(3)))));
    assert_eq!(state.take(), Some(handle(12, WorkerStatus::Exited(Some(3)))));
    assert_eq!(state.current(), None);
}

#[test]
fn exit_of_another_process_changes_nothing() {
    let mut state = SupervisorState::new();
    state.install(handle(12, WorkerStatus::Running));
    assert!(!state.observe_exit(13, Some(0)));
    assert_eq!(state.current(), Some(&handle(12, WorkerStatus::Running)));
    let mut empty = SupervisorState::new();
    assert!(!empty.observe_exit(13, Some(0)));
    assert_eq!(empty.current(), None);
}

#[test]
fn exit_after_kill_does_not_change_the_status() {
    let mut state = SupervisorState::new();
    state.install(handle(12, WorkerStatus::Killed));
    assert!(state.observe_exit(12, Some(9)));
    assert_eq!(state.current(), Some(&handle(12, WorkerStatus::Killed)));
}

#[test]
fn pump_end_is_recorded_once_both_streams_are_closed() {
    let mut state = SupervisorState::new();
    state.install(handle(12, WorkerStatus::Running));
    let mut pump = PumpState::new();
    pump.on_event(PumpEvent::Terminated { code: Some(7) }, 1);
    pump.on_event(PumpEvent::Closed { stream: StreamKind::Stdout }, 2);
    assert!(!state.record_pump_end(12, &pump));
    assert_eq!(state.current(), Some(&handle(12, WorkerStatus::Running)));
    assert!(state.is_worker_running());
    pump.on_event(PumpEvent::Closed { stream: StreamKind::Stderr }, 3);
    assert!(state.record_pump_end(12, &pump));
    assert_eq!(state.current(), Some(&handle(12, WorkerStatus::Exited(Some(7)))));
    assert!(!state.is_worker_running());
}

#[test]
fn pump_end_of_another_process_is_not_recorded() {
    let mut state = SupervisorState::new();
    state.install(handle(12, WorkerStatus::Running));
    let drained = PumpState { stdout_open: false, stderr_open: false, exit_code: None };
    assert!(!state.record_pump_end(99, &drained));
    assert_eq!(state.current(), Some(&handle(12, WorkerStatus::Running)));
    let mut empty = SupervisorState::new();
    assert!(!empty.record_pump_end(12, &drained));
}
