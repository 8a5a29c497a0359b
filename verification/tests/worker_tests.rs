use sidecar_supervisor::worker::{WorkerHandle, WorkerStatus};

#[test]
fn starting_handle() {
    let h = WorkerHandle::starting(5);
    assert_eq!(h.pid, 5);
    assert_eq!(h.status, WorkerStatus::Starting);
}

#[test]
fn terminal_statuses() {
    assert!(!WorkerStatus::Starting.is_terminal());
    assert!(!WorkerStatus::Running.is_terminal());
    assert!(WorkerStatus::Exited(None).is_terminal());
    assert!(WorkerStatus::Exited(Some(0)).is_terminal());
    assert!(WorkerStatus::Killed.is_terminal());
}

#[test]
fn only_running_is_running() {
    assert!(WorkerStatus::Running.is_running());
    assert!(!WorkerStatus::Starting.is_running());
    assert!(!WorkerStatus::Exited(Some(0)).is_running());
    assert!(!WorkerStatus::Killed.is_running());
}

#[test]
fn lifecycle_starting_running_exited() {
    let mut h = WorkerHandle::starting(5);
    h.mark_running();
    assert_eq!(h.status, WorkerStatus::Running);
    h.observe_exit(Some(2));
    assert_eq!(h.status, WorkerStatus::Exited(Some(2)));
    assert_eq!(h.pid, 5);
}

#[test]
fn lifecycle_starting_killed() {
    let mut h = WorkerHandle::starting(5);
    h.mark_killed();
    assert_eq!(h.status, WorkerStatus::Killed);
}

#[test]
fn starting_worker_may_exit_before_it_runs() {
    let mut h = WorkerHandle::starting(5);
    h.observe_exit(None);
    assert_eq!(h.status, WorkerStatus::Exited(None));
}

#[test]
fn ended_worker_is_never_revived() {
    let ended = [WorkerStatus::Exited(Some(1)), WorkerStatus::Exited(None), WorkerStatus::Killed];
    for status in ended {
        let mut h = WorkerHandle { pid: 8, status };
        h.mark_running();
        assert_eq!(h.status, status);
        h.observe_exit(Some(77));
        assert_eq!(h.status, status);
        h.mark_killed();
        assert_eq!(h.status, status);
    }
}

#[test]
fn mark_running_keeps_a_running_worker() {
    let mut h = WorkerHandle { pid: 8, status: WorkerStatus::Running };
    h.mark_running();
    assert_eq!(h.status, WorkerStatus::Running);
}
