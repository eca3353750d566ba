use fluxa::error::ServiceError;
use fluxa::model::{HealthStatus, MonitoredService, MonitoredServiceError, MonitoringStats};
use fluxa::settings::ServiceConfig;

#[test]
fn test_configuration_error_when_url_is_invalid() {
    let config = ServiceConfig {
        url: "".to_string(),
        interval_seconds: 3,
        max_retries: 3,
        retry_interval: 333,
    };

    let actual = MonitoredService::try_from(&config);

    assert!(actual.is_err());
}

#[test]
fn test_monitored_service_to_service_info() {
    let service = MonitoredService::new(
        "https://test.com".to_string(),
        120,
        HealthStatus::Healthy,
        2,
        10,
    )
    .unwrap();

    let stats = MonitoringStats {
        status: HealthStatus::Unhealthy,
        last_response_time_ms: Some(300),
        last_check_timestamp: 1672531200,
        next_check_timestamp: 1672531320,
        last_error: Some("Timeout".to_string()),
        current_retry_count: 1,
    };

    let service_info = service.to_service_info(stats.clone());

    assert_eq!(service_info.url, "https://test.com");
    assert_eq!(service_info.interval_seconds, 120);
    assert_eq!(service_info.max_retries, 2);
    assert_eq!(service_info.retry_interval_seconds, 10);
    assert_eq!(service_info.stats.status, HealthStatus::Unhealthy);
    assert_eq!(service_info.stats.current_retry_count, 1);
}

#[test]
fn valid_config_entry_becomes_a_healthy_target() {
    let config = ServiceConfig {
        url: "http://localhost:3000".to_string(),
        interval_seconds: 300,
        max_retries: 3,
        retry_interval: 3,
    };
    let service = MonitoredService::try_from(&config).unwrap();
    assert_eq!(service.url, "http://localhost:3000");
    assert_eq!(service.interval_seconds, 300);
    assert_eq!(service.max_retries, 3);
    assert_eq!(service.retry_interval, 3);
    assert_eq!(service.health_status, HealthStatus::Healthy);
}

#[test]
fn relative_url_is_rejected_with_its_text() {
    let r = MonitoredService::new("not a url".to_string(), 5, HealthStatus::Healthy, 0, 1);
    match r {
        Err(MonitoredServiceError::InvalidUrl(u)) => assert_eq!(u, "not a url"),
        Ok(_) => panic!("accepted an invalid url"),
    }
}

#[test]
fn stats_clone_keeps_every_field() {
    let stats = MonitoringStats {
        status: HealthStatus::Unhealthy,
        last_response_time_ms: None,
        last_check_timestamp: 10,
        next_check_timestamp: 70,
        last_error: Some("HTTP 500: Internal Server Error".to_string()),
        current_retry_count: 2,
    };
    let copy = stats.clone();
    assert_eq!(copy.status, stats.status);
    assert_eq!(copy.last_response_time_ms, None);
    assert_eq!(copy.last_check_timestamp, 10);
    assert_eq!(copy.next_check_timestamp, 70);
    assert_eq!(copy.last_error, stats.last_error);
    assert_eq!(copy.current_retry_count, 2);
}

#[test]
fn default_stats_are_healthy_and_taken_now() {
    let stats = MonitoringStats::default();
    assert_eq!(stats.status, HealthStatus::Healthy);
    assert_eq!(stats.last_response_time_ms, None);
    assert_eq!(stats.last_error, None);
    assert_eq!(stats.current_retry_count, 0);
    assert_eq!(stats.last_check_timestamp, stats.next_check_timestamp);
    assert!(stats.last_check_timestamp > 1_600_000_000);
}

#[test]
fn test_service_error_from_monitored_service_error() {
    let monitored_error = MonitoredServiceError::InvalidUrl("invalid".to_string());
    let service_error = ServiceError::from(monitored_error);

    assert!(matches!(service_error, ServiceError::MonitoredService(_)));
    assert_eq!(
        service_error.message(),
        "Monitored service error: invalid is not valid url"
    );
}
