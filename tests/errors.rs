use fluxa::error::{NotificationError, ServiceError};
use fluxa::settings::ServiceConfigurationError;

#[test]
fn test_notification_error_send_failed() {
    let notification_error = NotificationError::SendFailed {
        message: "server error".to_string(),
    };

    assert_eq!(
        notification_error.message(),
        "Failed to send notification: server error"
    );
}

#[test]
fn notification_error_texts() {
    assert_eq!(
        NotificationError::HttpRequest("timed out".to_string()).message(),
        "HTTP request failed: timed out"
    );
    assert_eq!(
        NotificationError::Io("broken pipe".to_string()).message(),
        "IO error: broken pipe"
    );
}

#[test]
fn service_error_wraps_notification_error() {
    let e = ServiceError::from(NotificationError::Io("x".to_string()));
    assert!(matches!(e, ServiceError::Notification(_)));
    assert_eq!(e.message(), "Notification error: IO error: x");
    assert_eq!(
        ServiceError::HttpRequest("dns".to_string()).message(),
        "HTTP request failed: dns"
    );
}

#[test]
fn configuration_error_text() {
    let e = ServiceConfigurationError::ErrorInConfiguration("test error".to_string());
    assert_eq!(e.message(), "Configuration error test error");
}
