use sidecar_supervisor::probe::{
    check, is_sidecar_nougat_running, is_success, HealthCheckResult, ProbeResponse,
    HEALTH_ENDPOINT, PROBE_TIMEOUT_MS,
};
use sidecar_supervisor::record::Severity;

#[test]
fn success_statuses_are_200_to_299() {
    assert!(!is_success(199));
    assert!(is_success(200));
    assert!(is_success(204));
    assert!(is_success(299));
    assert!(!is_success(300));
    assert!(!is_success(0));
    assert!(!is_success(404));
    assert!(!is_success(500));
    assert!(!is_success(u16::MAX));
}

#[test]
fn check_reads_the_answer() {
    assert_eq!(
        check(ProbeResponse::Status(200), 17),
        HealthCheckResult { reachable: true, observed_at: 17 }
    );
    assert_eq!(
        check(ProbeResponse::Status(503), 18),
        HealthCheckResult { reachable: false, observed_at: 18 }
    );
    assert_eq!(
        check(ProbeResponse::TransportError, 19),
        HealthCheckResult { reachable: false, observed_at: 19 }
    );
    assert_eq!(
        check(ProbeResponse::TimedOut, u64::MAX),
        HealthCheckResult { reachable: false, observed_at: u64::MAX }
    );
}

#[test]
fn sidecar_runs_only_on_a_success_status() {
    assert!(is_sidecar_nougat_running(ProbeResponse::Status(200)));
    assert!(!is_sidecar_nougat_running(ProbeResponse::Status(301)));
    assert!(!is_sidecar_nougat_running(ProbeResponse::TransportError));
    assert!(!is_sidecar_nougat_running(ProbeResponse::TimedOut));
}

#[test]
fn probe_answers_are_logged_by_kind() {
    assert_eq!(ProbeResponse::Status(200).severity(), Severity::Info);
    assert_eq!(ProbeResponse::Status(500).severity(), Severity::Info);
    assert_eq!(ProbeResponse::TransportError.severity(), Severity::Warn);
    assert_eq!(ProbeResponse::TimedOut.severity(), Severity::Warn);
}

#[test]
fn probe_constants() {
    assert_eq!(HEALTH_ENDPOINT, "http://127.0.0.1:7771/health");
    assert_eq!(PROBE_TIMEOUT_MS, 3000);
}
