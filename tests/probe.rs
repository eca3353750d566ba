use fluxa::model::{HealthStatus, MonitoredService};
use fluxa::probe::{diagnostic_text, is_success_status, AttemptOutcome, HealthCheck, ProbeResult, ProbeStep};

fn service(url: &str, max_retries: usize, retry_interval: u64) -> MonitoredService {
    MonitoredService::new(url.to_string(), 60, HealthStatus::Healthy, max_retries, retry_interval).unwrap()
}

fn status(code: u16) -> AttemptOutcome {
    AttemptOutcome::Response { status: code, latency_ms: 12 }
}

/// Drives one cycle against an endpoint that answers `reply` to every attempt;
/// returns the verdict, the number of attempts and the total wait.
fn run_cycle(svc: &MonitoredService, reply: impl Fn() -> AttemptOutcome) -> (ProbeResult, usize, u64) {
    let mut check = HealthCheck::new(svc);
    let mut attempts = 0;
    let mut waited = 0;
    loop {
        attempts += 1;
        match check.observe(reply()) {
            ProbeStep::Retry { delay_seconds } => waited += delay_seconds,
            ProbeStep::Done(r) => return (r, attempts, waited),
        }
    }
}

#[test]
fn permanently_failing_target_is_tried_max_retries_plus_one_times() {
    for r in 0..5usize {
        let svc = service("http://x/broken", r, 1);
        let (result, attempts, waited) = run_cycle(&svc, || AttemptOutcome::TransportError {
            cause: "connection refused".to_string(),
        });
        assert_eq!(attempts, r + 1);
        assert_eq!(waited, r as u64);
        assert_eq!(result.status, HealthStatus::Unhealthy);
        assert_eq!(result.response_time_ms, None);
        assert_eq!(result.retry_count, r);
        assert_eq!(result.error, Some("Request failed: connection refused".to_string()));
    }
}

#[test]
fn healthy_target_ends_healthy_without_diagnostic() {
    let svc = service("http://x/healthy", 3, 5);
    let (result, attempts, waited) = run_cycle(&svc, || status(200));
    assert_eq!(attempts, 1);
    assert_eq!(waited, 0);
    assert_eq!(result.status, HealthStatus::Healthy);
    assert_eq!(result.error, None);
    assert_eq!(result.response_time_ms, Some(12));
    assert_eq!(result.retry_count, 0);
}

#[test]
fn broken_target_waits_between_attempts_and_reports_status() {
    let svc = service("http://x/broken", 2, 1);
    let (result, attempts, waited) = run_cycle(&svc, || status(500));
    assert_eq!(attempts, 3);
    assert!(waited >= 2);
    assert_eq!(result.status, HealthStatus::Unhealthy);
    assert_eq!(result.error, Some("HTTP 500: Internal Server Error".to_string()));
    assert_eq!(result.response_time_ms, None);
}

#[test]
fn zero_retries_means_one_attempt_and_no_wait() {
    let svc = service("http://x/broken", 0, 30);
    let (result, attempts, waited) = run_cycle(&svc, || status(404));
    assert_eq!(attempts, 1);
    assert_eq!(waited, 0);
    assert_eq!(result.error, Some("HTTP 404: Not Found".to_string()));
}

#[test]
fn success_after_failures_stops_early() {
    let svc = service("http://x/flaky", 4, 7);
    let mut check = HealthCheck::new(&svc);
    match check.observe(AttemptOutcome::TransportError { cause: "reset".to_string() }) {
        ProbeStep::Retry { delay_seconds } => assert_eq!(delay_seconds, 7),
        ProbeStep::Done(_) => panic!("stopped after a failure with retries left"),
    }
    match check.observe(status(503)) {
        ProbeStep::Retry { delay_seconds } => assert_eq!(delay_seconds, 7),
        ProbeStep::Done(_) => panic!("stopped after a failure with retries left"),
    }
    match check.observe(AttemptOutcome::Response { status: 204, latency_ms: 31 }) {
        ProbeStep::Done(r) => {
            assert_eq!(r.status, HealthStatus::Healthy);
            assert_eq!(r.response_time_ms, Some(31));
            assert_eq!(r.error, None);
            assert_eq!(r.retry_count, 2);
        }
        ProbeStep::Retry { .. } => panic!("retried after a success"),
    }
}

#[test]
fn success_class_is_2xx() {
    assert!(!is_success_status(199));
    assert!(is_success_status(200));
    assert!(is_success_status(299));
    assert!(!is_success_status(300));
    assert!(!is_success_status(500));
}

#[test]
fn diagnostics_name_code_and_reason() {
    assert_eq!(diagnostic_text(&status(503)), "HTTP 503: Service Unavailable");
    assert_eq!(diagnostic_text(&status(418)), "HTTP 418: I'm a teapot");
    assert_eq!(diagnostic_text(&status(599)), "HTTP 599: Unknown");
    assert_eq!(diagnostic_text(&status(42)), "HTTP 42: Unknown");
    assert_eq!(
        diagnostic_text(&AttemptOutcome::TransportError { cause: "dns error".to_string() }),
        "Request failed: dns error"
    );
}
