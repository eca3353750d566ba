use vstd::prelude::*;

use crate::settings::ServiceConfig;

verus! {

/// The two-valued health of a target.
#[derive(Debug, Clone, Copy, PartialEq, Eq, Structural)]
pub enum HealthStatus {
    Healthy,
    Unhealthy,
}

#[derive(Debug, PartialEq)]
pub enum MonitoredServiceError {
    InvalidUrl(String),
}

impl MonitoredServiceError {
    pub open spec fn spec_message(&self) -> Seq<char> {
        match self {
            MonitoredServiceError::InvalidUrl(u) => u@ + " is not valid url"@,
        }
    }

    /// The human-readable text of the error.
    pub fn message(&self) -> (r: String)
        ensures
            r@ == self.spec_message(),
    {
        match self {
            MonitoredServiceError::InvalidUrl(u) => {
                let mut r = u.clone();
                r.append(" is not valid url");
                r
            },
        }
    }
}

/// Whether `s` is accepted as an absolute URL by the URL parser.
pub uninterp spec fn url_parses(s: Seq<char>) -> bool;

/// Relies on `reqwest::Url::parse` (the `url` crate's parser): whether the text
/// parses as an absolute URL; the answer depends on the text alone.
#[verifier::external_body]
fn is_valid_url(input: &str) -> (r: bool)
    ensures
        r == url_parses(input@),
{
    reqwest::Url::parse(input).is_ok()
}

/// The immutable description of one monitored target, together with the
/// health status remembered from its previous cycle.
#[derive(Debug, Clone)]
pub struct MonitoredService {
    pub url: String,
    pub interval_seconds: u64,
    pub health_status: HealthStatus,
    pub max_retries: usize,
    /// Seconds to wait between two attempts of one cycle.
    pub retry_interval: u64,
}

impl MonitoredService {
    /// Builds a target; fails exactly when the URL does not parse.
    pub fn new(
        url: String,
        interval_seconds: u64,
        health_status: HealthStatus,
        max_retries: usize,
        retry_interval: u64,
    ) -> (r: Result<MonitoredService, MonitoredServiceError>)
        ensures
            url_parses(url@) ==> r == Ok::<MonitoredService, MonitoredServiceError>(
                MonitoredService { url, interval_seconds, health_status, max_retries, retry_interval },
            ),
            !url_parses(url@) ==> r == Err::<MonitoredService, MonitoredServiceError>(
                MonitoredServiceError::InvalidUrl(url),
            ),
    {
        if !is_valid_url(url.as_str()) {
            return Err(MonitoredServiceError::InvalidUrl(url));
        }
        Ok(MonitoredService { url, interval_seconds, health_status, max_retries, retry_interval })
    }
}

/// Relies on `std::time::SystemTime::now`: the current time in whole seconds
/// since the Unix epoch (0 when the clock reads earlier). It depends on the
/// clock, so nothing is stated of it.
#[verifier::external_body]
pub(crate) fn unix_now_secs() -> (r: u64) {
    std::time::SystemTime::now()
        .duration_since(std::time::UNIX_EPOCH)
        .unwrap_or_default()
        .as_secs()
}

/// The latest observation of one target.
#[derive(Debug)]
pub struct MonitoringStats {
    pub status: HealthStatus,
    /// Latency of the last cycle's deciding attempt, when it succeeded.
    pub last_response_time_ms: Option<u64>,
    /// Seconds since the Unix epoch.
    pub last_check_timestamp: u64,
    /// Seconds since the Unix epoch.
    pub next_check_timestamp: u64,
    pub last_error: Option<String>,
    pub current_retry_count: usize,
}

impl Clone for MonitoringStats {
    fn clone(&self) -> (r: MonitoringStats)
        ensures
            r == *self,
    {
        MonitoringStats {
            status: self.status,
            last_response_time_ms: self.last_response_time_ms,
            last_check_timestamp: self.last_check_timestamp,
            next_check_timestamp: self.next_check_timestamp,
            last_error: match &self.last_error {
                Some(e) => Some(e.clone()),
                None => None,
            },
            current_retry_count: self.current_retry_count,
        }
    }
}

impl Default for MonitoringStats {
    /// A healthy snapshot taken now, with nothing scheduled after it.
    fn default() -> (r: MonitoringStats)
        ensures
            r.status == HealthStatus::Healthy,
            r.last_response_time_ms is None,
            r.next_check_timestamp == r.last_check_timestamp,
            r.last_error is None,
            r.current_retry_count == 0,
    {
        let now = unix_now_secs();
        MonitoringStats {
            status: HealthStatus::Healthy,
            last_response_time_ms: None,
            last_check_timestamp: now,
            next_check_timestamp: now,
            last_error: None,
            current_retry_count: 0,
        }
    }
}

/// A target's configuration together with its latest snapshot.
#[derive(Debug)]
pub struct ServiceInfo {
    pub url: String,
    pub interval_seconds: u64,
    pub max_retries: usize,
    pub retry_interval_seconds: u64,
    pub stats: MonitoringStats,
}

impl Clone for ServiceInfo {
    fn clone(&self) -> (r: ServiceInfo)
        ensures
            r == *self,
    {
        ServiceInfo {
            url: self.url.clone(),
            interval_seconds: self.interval_seconds,
            max_retries: self.max_retries,
            retry_interval_seconds: self.retry_interval_seconds,
            stats: self.stats.clone(),
        }
    }
}

impl MonitoredService {
    /// The target described together with `stats`.
    pub fn to_service_info(&self, stats: MonitoringStats) -> (r: ServiceInfo)
        ensures
            r == (ServiceInfo {
                url: self.url,
                interval_seconds: self.interval_seconds,
                max_retries: self.max_retries,
                retry_interval_seconds: self.retry_interval,
                stats,
            }),
    {
        ServiceInfo {
            url: self.url.clone(),
            interval_seconds: self.interval_seconds,
            max_retries: self.max_retries,
            retry_interval_seconds: self.retry_interval,
            stats,
        }
    }
}

/// The target a configuration entry describes, starting healthy; an error
/// exactly when its URL does not parse.
pub open spec fn service_from_config(config: ServiceConfig) -> Result<
    MonitoredService,
    MonitoredServiceError,
> {
    if url_parses(config.url@) {
        Ok(
            MonitoredService {
                url: config.url,
                interval_seconds: config.interval_seconds,
                health_status: HealthStatus::Healthy,
                max_retries: config.max_retries,
                retry_interval: config.retry_interval,
            },
        )
    } else {
        Err(MonitoredServiceError::InvalidUrl(config.url))
    }
}

impl<'a> TryFrom<&'a ServiceConfig> for MonitoredService {
    type Error = MonitoredServiceError;

    fn try_from(config: &'a ServiceConfig) -> (r: Result<MonitoredService, MonitoredServiceError>)
        ensures
            r == service_from_config(*config),
    {
        MonitoredService::new(
            config.url.clone(),
            config.interval_seconds,
            HealthStatus::Healthy,
            config.max_retries,
            config.retry_interval,
        )
    }
}

impl<'a> vstd::std_specs::convert::TryFromSpecImpl<&'a ServiceConfig> for MonitoredService {
    open spec fn obeys_try_from_spec() -> bool {
        true
    }

    open spec fn try_from_spec(config: &'a ServiceConfig) -> Result<
        MonitoredService,
        MonitoredServiceError,
    > {
        service_from_config(*config)
    }
}

} // verus!
