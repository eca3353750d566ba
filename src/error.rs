use vstd::prelude::*;

use crate::model::MonitoredServiceError;

verus! {

/// Failure of one notification provider.
#[derive(Debug)]
pub enum NotificationError {
    /// The request could not be carried out; holds the transport's description.
    HttpRequest(String),
    /// The provider answered, but refused the message.
    SendFailed { message: String },
    /// Local input/output failed; holds its description.
    Io(String),
}

impl NotificationError {
    pub open spec fn spec_message(&self) -> Seq<char> {
        match self {
            NotificationError::HttpRequest(t) => "HTTP request failed: "@ + t@,
            NotificationError::SendFailed { message } => "Failed to send notification: "@ + message@,
            NotificationError::Io(t) => "IO error: "@ + t@,
        }
    }

    /// The human-readable text of the error.
    pub fn message(&self) -> (r: String)
        ensures
            r@ == self.spec_message(),
    {
        match self {
            NotificationError::HttpRequest(t) => {
                let mut r = String::from_str("HTTP request failed: ");
                r.append(t.as_str());
                r
            },
            NotificationError::SendFailed { message } => {
                let mut r = String::from_str("Failed to send notification: ");
                r.append(message.as_str());
                r
            },
            NotificationError::Io(t) => {
                let mut r = String::from_str("IO error: ");
                r.append(t.as_str());
                r
            },
        }
    }
}

/// Failure of a monitor: a defect, never an unhealthy verdict.
#[derive(Debug)]
pub enum ServiceError {
    MonitoredService(MonitoredServiceError),
    /// Holds the transport's description of the failed request.
    HttpRequest(String),
    Notification(NotificationError),
}

impl ServiceError {
    pub open spec fn spec_message(&self) -> Seq<char> {
        match self {
            ServiceError::MonitoredService(e) => "Monitored service error: "@ + e.spec_message(),
            ServiceError::HttpRequest(t) => "HTTP request failed: "@ + t@,
            ServiceError::Notification(e) => "Notification error: "@ + e.spec_message(),
        }
    }

    /// The human-readable text of the error.
    pub fn message(&self) -> (r: String)
        ensures
            r@ == self.spec_message(),
    {
        match self {
            ServiceError::MonitoredService(e) => {
                let mut r = String::from_str("Monitored service error: ");
                r.append(e.message().as_str());
                r
            },
            ServiceError::HttpRequest(t) => {
                let mut r = String::from_str("HTTP request failed: ");
                r.append(t.as_str());
                r
            },
            ServiceError::Notification(e) => {
                let mut r = String::from_str("Notification error: ");
                r.append(e.message().as_str());
                r
            },
        }
    }
}

impl From<MonitoredServiceError> for ServiceError {
    fn from(e: MonitoredServiceError) -> (r: ServiceError) {
        ServiceError::MonitoredService(e)
    }
}

impl vstd::std_specs::convert::FromSpecImpl<MonitoredServiceError> for ServiceError {
    open spec fn obeys_from_spec() -> bool {
        true
    }

    open spec fn from_spec(e: MonitoredServiceError) -> ServiceError {
        ServiceError::MonitoredService(e)
    }
}

impl From<NotificationError> for ServiceError {
    fn from(e: NotificationError) -> (r: ServiceError) {
        ServiceError::Notification(e)
    }
}

impl vstd::std_specs::convert::FromSpecImpl<NotificationError> for ServiceError {
    open spec fn obeys_from_spec() -> bool {
        true
    }

    open spec fn from_spec(e: NotificationError) -> ServiceError {
        ServiceError::Notification(e)
    }
}

} // verus!
