use fluxa::model::{HealthStatus, MonitoredService};
use fluxa::monitoring::{check_services_configured, create_services_from_config};
use fluxa::probe::{AttemptOutcome, HealthCheck, ProbeResult, ProbeStep};
use fluxa::service::build_services;
use fluxa::error::ServiceError;
use fluxa::model::MonitoredServiceError;
use fluxa::settings::{Fluxa, FluxaConfig, ServiceConfig};
use fluxa::state::MonitoringState;

fn verdict(status: HealthStatus) -> ProbeResult {
    ProbeResult {
        status,
        response_time_ms: if status == HealthStatus::Healthy { Some(5) } else { None },
        error: if status == HealthStatus::Healthy { None } else { Some("HTTP 500: Internal Server Error".to_string()) },
        retry_count: 0,
    }
}

fn target(url: &str, remembered: HealthStatus) -> MonitoredService {
    MonitoredService::new(url.to_string(), 30, remembered, 1, 2).unwrap()
}

fn config(url: &str) -> ServiceConfig {
    ServiceConfig { url: url.to_string(), interval_seconds: 300, max_retries: 3, retry_interval: 3 }
}

#[test]
fn same_verdict_twice_sends_nothing() {
    let mut svc = target("http://x/a", HealthStatus::Healthy);
    let report = svc.complete_cycle(verdict(HealthStatus::Healthy));
    assert!(report.notification.is_none());
    assert_eq!(svc.health_status, HealthStatus::Healthy);
}

#[test]
fn healthy_to_unhealthy_sends_one_alert() {
    let mut svc = target("http://x/a", HealthStatus::Healthy);
    let report = svc.complete_cycle(verdict(HealthStatus::Unhealthy));
    assert_eq!(report.notification, Some("http://x/a is unhealthy!".to_string()));
    assert_eq!(svc.health_status, HealthStatus::Unhealthy);
    assert_eq!(report.next_check_in_seconds, 30);
    assert_eq!(report.error, Some("HTTP 500: Internal Server Error".to_string()));
}

#[test]
fn unhealthy_to_healthy_sends_one_recovery() {
    let mut svc = target("http://x/a", HealthStatus::Unhealthy);
    let report = svc.complete_cycle(verdict(HealthStatus::Healthy));
    assert_eq!(report.notification, Some("http://x/a is now healthy!".to_string()));
    assert_eq!(svc.health_status, HealthStatus::Healthy);
}

#[test]
fn repeated_verdict_writes_every_cycle_and_notifies_once() {
    let mut svc = target("http://x/down", HealthStatus::Healthy);
    let mut store = MonitoringState::new();
    let mut writes = 0;
    let mut notifications = 0;
    for cycle in 0..6u64 {
        let report = svc.complete_cycle(verdict(HealthStatus::Unhealthy));
        store.record_check(
            svc.url.clone(),
            report.status,
            report.response_time_ms,
            report.error,
            report.retry_count,
            report.next_check_in_seconds,
            1_000 + cycle,
        );
        writes += 1;
        if report.notification.is_some() {
            notifications += 1;
        }
    }
    assert_eq!(writes, 6);
    assert_eq!(notifications, 1);
    let all = store.get_all_services();
    assert_eq!(all.len(), 1);
    let s = store.get_service("http://x/down").unwrap();
    assert_eq!(s.last_check_timestamp, 1_005);
    assert_eq!(s.next_check_timestamp, 1_035);
}

#[test]
fn healthy_cycle_records_healthy_snapshot_without_error() {
    let mut svc = target("http://x/healthy", HealthStatus::Healthy);
    let mut check = HealthCheck::new(&svc);
    let result = match check.observe(AttemptOutcome::Response { status: 200, latency_ms: 8 }) {
        ProbeStep::Done(r) => r,
        ProbeStep::Retry { .. } => panic!("retried after success"),
    };
    let report = svc.complete_cycle(result);
    let mut store = MonitoringState::new();
    store.record_check(
        svc.url.clone(),
        report.status,
        report.response_time_ms,
        report.error,
        report.retry_count,
        report.next_check_in_seconds,
        50,
    );
    let s = store.get_service("http://x/healthy").unwrap();
    assert_eq!(s.status, HealthStatus::Healthy);
    assert_eq!(s.last_error, None);
    assert_eq!(s.last_response_time_ms, Some(8));
    assert!(report.notification.is_none());
}

#[test]
fn handle_status_change_remembers_verdict() {
    let mut svc = target("http://x/a", HealthStatus::Healthy);
    assert_eq!(svc.handle_status_change(HealthStatus::Unhealthy), Some("http://x/a is unhealthy!".to_string()));
    assert_eq!(svc.handle_status_change(HealthStatus::Unhealthy), None);
    assert_eq!(svc.handle_status_change(HealthStatus::Healthy), Some("http://x/a is now healthy!".to_string()));
}

#[test]
fn every_valid_entry_becomes_a_target_in_order() {
    let configs = vec![config("http://a.example"), config("http://b.example")];
    let services = create_services_from_config(&configs).unwrap();
    assert_eq!(services.len(), 2);
    assert_eq!(services[0].url, "http://a.example");
    assert_eq!(services[1].url, "http://b.example");
    assert_eq!(services[1].health_status, HealthStatus::Healthy);
}

#[test]
fn an_invalid_entry_stops_startup() {
    let configs = vec![config("http://a.example"), config(""), config("also bad")];
    match create_services_from_config(&configs) {
        Err(ServiceError::MonitoredService(MonitoredServiceError::InvalidUrl(u))) => assert_eq!(u, ""),
        _ => panic!("expected the first invalid url"),
    }
}

#[test]
fn empty_target_list_is_a_configuration_error() {
    let none: Vec<MonitoredService> = Vec::new();
    let e = check_services_configured(&none).unwrap_err();
    assert_eq!(e.message(), "Configuration error No services configured for monitoring");
    let one = vec![target("http://a.example", HealthStatus::Healthy)];
    assert!(check_services_configured(&one).is_ok());
}

fn fluxa_config(services: Vec<ServiceConfig>) -> FluxaConfig {
    FluxaConfig {
        pushover_api_key: String::new(),
        pushover_user_key: String::new(),
        telegram: None,
        services,
        fluxa: Fluxa { listen: "127.0.0.1:8080".to_string() },
    }
}

#[test]
fn build_services_keeps_every_valid_target() {
    let conf = fluxa_config(vec![config("http://localhost:3000"), config("https://example.com")]);
    let services = build_services(&conf).unwrap();
    assert_eq!(services.len(), 2);
    assert_eq!(services[0].url, "http://localhost:3000");
    assert_eq!(services[1].url, "https://example.com");
    assert_eq!(services[1].retry_interval, 3);
}

#[test]
fn build_services_fails_on_first_invalid_url() {
    let conf = fluxa_config(vec![config("http://ok.example"), config("bad one"), config("bad two")]);
    match build_services(&conf) {
        Err(ServiceError::MonitoredService(MonitoredServiceError::InvalidUrl(u))) => assert_eq!(u, "bad one"),
        _ => panic!("expected the first invalid url"),
    }
}
