use fluxa::model::{HealthStatus, MonitoringStats};
use fluxa::state::MonitoringState;

fn has_key(all: &[(String, MonitoringStats)], url: &str) -> bool {
    all.iter().any(|(k, _)| k == url)
}

#[test]
fn test_monitoring_state_update_and_retrieval() {
    let mut state = MonitoringState::new();

    state.update_service_stats(
        "https://example.com".to_string(),
        HealthStatus::Healthy,
        Some(250),
        None,
        0,
        300,
    );

    let service_state = state.get_service("https://example.com");
    assert!(service_state.is_some());

    let stats = service_state.unwrap();
    assert_eq!(stats.status, HealthStatus::Healthy);
    assert_eq!(stats.last_response_time_ms, Some(250));
    assert_eq!(stats.last_error, None);
    assert_eq!(stats.current_retry_count, 0);

    let all_states = state.get_all_services();
    assert_eq!(all_states.len(), 1);
    assert!(has_key(&all_states, "https://example.com"));
}

#[test]
fn test_monitoring_state_update_with_error() {
    let mut state = MonitoringState::new();

    state.update_service_stats(
        "https://example.com".to_string(),
        HealthStatus::Unhealthy,
        None,
        Some("HTTP 500 - Internal Server Error".to_string()),
        2,
        60,
    );

    let service_state = state.get_service("https://example.com");
    assert!(service_state.is_some());

    let stats = service_state.unwrap();
    assert_eq!(stats.status, HealthStatus::Unhealthy);
    assert_eq!(stats.last_response_time_ms, None);
    assert_eq!(stats.last_error, Some("HTTP 500 - Internal Server Error".to_string()));
    assert_eq!(stats.current_retry_count, 2);
}

#[test]
fn test_monitoring_state_multiple_services() {
    let mut state = MonitoringState::new();

    state.update_service_stats(
        "https://service1.com".to_string(),
        HealthStatus::Healthy,
        Some(100),
        None,
        0,
        300,
    );

    state.update_service_stats(
        "https://service2.com".to_string(),
        HealthStatus::Unhealthy,
        None,
        Some("Connection timeout".to_string()),
        1,
        60,
    );

    let all_states = state.get_all_services();
    assert_eq!(all_states.len(), 2);

    let service1 = state.get_service("https://service1.com").unwrap();
    assert_eq!(service1.status, HealthStatus::Healthy);
    assert_eq!(service1.current_retry_count, 0);

    let service2 = state.get_service("https://service2.com").unwrap();
    assert_eq!(service2.status, HealthStatus::Unhealthy);
    assert_eq!(service2.current_retry_count, 1);
}

#[test]
fn lookup_of_unwritten_key_is_absent() {
    let state = MonitoringState::new();
    assert!(state.get_service("https://never.example").is_none());
    assert!(state.get_all_services().is_empty());
}

#[test]
fn read_after_write_returns_the_written_fields() {
    let mut state = MonitoringState::new();
    state.record_check(
        "https://a.example".to_string(),
        HealthStatus::Unhealthy,
        None,
        Some("Request failed: refused".to_string()),
        3,
        60,
        1_000,
    );
    let s = state.get_service("https://a.example").unwrap();
    assert_eq!(s.status, HealthStatus::Unhealthy);
    assert_eq!(s.last_response_time_ms, None);
    assert_eq!(s.last_check_timestamp, 1_000);
    assert_eq!(s.next_check_timestamp, 1_060);
    assert_eq!(s.last_error, Some("Request failed: refused".to_string()));
    assert_eq!(s.current_retry_count, 3);
}

#[test]
fn second_write_replaces_the_whole_record() {
    let mut state = MonitoringState::new();
    state.record_check(
        "https://a.example".to_string(),
        HealthStatus::Unhealthy,
        None,
        Some("Request failed: refused".to_string()),
        3,
        60,
        1_000,
    );
    state.record_check(
        "https://b.example".to_string(),
        HealthStatus::Healthy,
        Some(9),
        None,
        0,
        30,
        1_001,
    );
    state.record_check(
        "https://a.example".to_string(),
        HealthStatus::Healthy,
        Some(42),
        None,
        0,
        60,
        1_100,
    );
    let all = state.get_all_services();
    assert_eq!(all.len(), 2);
    let a = state.get_service("https://a.example").unwrap();
    assert_eq!(a.status, HealthStatus::Healthy);
    assert_eq!(a.last_response_time_ms, Some(42));
    assert_eq!(a.last_error, None);
    assert_eq!(a.current_retry_count, 0);
    assert_eq!(a.last_check_timestamp, 1_100);
    assert_eq!(a.next_check_timestamp, 1_160);
    let b = state.get_service("https://b.example").unwrap();
    assert_eq!(b.last_response_time_ms, Some(9));
    assert_eq!(b.next_check_timestamp, 1_031);
}

#[test]
fn next_check_is_held_at_the_largest_timestamp() {
    let mut state = MonitoringState::new();
    state.record_check(
        "https://a.example".to_string(),
        HealthStatus::Healthy,
        Some(1),
        None,
        0,
        u64::MAX,
        5,
    );
    let a = state.get_service("https://a.example").unwrap();
    assert_eq!(a.last_check_timestamp, 5);
    assert_eq!(a.next_check_timestamp, u64::MAX);
}

#[test]
fn upsert_then_snapshot_holds_whole_records() {
    let mut state = MonitoringState::new();
    let first = MonitoringStats {
        status: HealthStatus::Healthy,
        last_response_time_ms: Some(5),
        last_check_timestamp: 100,
        next_check_timestamp: 160,
        last_error: None,
        current_retry_count: 0,
    };
    state.upsert("k".to_string(), first);
    let before = state.get_all_services();
    let second = MonitoringStats {
        status: HealthStatus::Unhealthy,
        last_response_time_ms: None,
        last_check_timestamp: 200,
        next_check_timestamp: 260,
        last_error: Some("HTTP 503: Service Unavailable".to_string()),
        current_retry_count: 1,
    };
    state.upsert("k".to_string(), second);
    let after = state.get_all_services();
    assert_eq!(before.len(), 1);
    assert_eq!(before[0].1.last_check_timestamp, 100);
    assert_eq!(before[0].1.last_error, None);
    assert_eq!(after.len(), 1);
    assert_eq!(after[0].1.last_check_timestamp, 200);
    assert_eq!(after[0].1.status, HealthStatus::Unhealthy);
    assert_eq!(after[0].1.last_error, Some("HTTP 503: Service Unavailable".to_string()));
}

#[test]
fn update_stamps_with_the_clock() {
    let mut state = MonitoringState::new();
    state.update_service_stats("https://a.example".to_string(), HealthStatus::Healthy, Some(1), None, 0, 60);
    let a = state.get_service("https://a.example").unwrap();
    assert!(a.last_check_timestamp > 1_600_000_000);
    assert_eq!(a.next_check_timestamp, a.last_check_timestamp + 60);
}
