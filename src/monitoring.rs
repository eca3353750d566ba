use vstd::prelude::*;

use crate::error::ServiceError;
use crate::model::{service_from_config, url_parses, HealthStatus, MonitoredService, MonitoredServiceError};
use crate::probe::ProbeResult;
use crate::settings::{ServiceConfig, ServiceConfigurationError};

verus! {

/// A verdict that differs from the remembered status is a transition, and
/// only a transition is notified.
pub open spec fn notifies(previous: HealthStatus, verdict: HealthStatus) -> bool {
    previous != verdict
}

/// The notification text of a transition of `url` into `verdict`.
pub open spec fn transition_message(url: Seq<char>, verdict: HealthStatus) -> Seq<char> {
    match verdict {
        HealthStatus::Healthy => url + " is now healthy!"@,
        HealthStatus::Unhealthy => url + " is unhealthy!"@,
    }
}

/// Notifications sent over consecutive cycles with these verdicts, by a
/// monitor that remembers `previous`.
pub open spec fn notification_count(previous: HealthStatus, verdicts: Seq<HealthStatus>) -> nat
    decreases verdicts.len(),
{
    if verdicts.len() == 0 {
        0
    } else {
        (if notifies(previous, verdicts[0]) {
            1nat
        } else {
            0nat
        }) + notification_count(verdicts[0], verdicts.drop_first())
    }
}

/// What one finished cycle asks of the caller: the snapshot to record (always)
/// and the notification to send (only on a transition).
#[derive(Debug)]
pub struct CycleReport {
    pub status: HealthStatus,
    pub response_time_ms: Option<u64>,
    pub error: Option<String>,
    pub retry_count: usize,
    /// Seconds until the next cycle starts.
    pub next_check_in_seconds: u64,
    pub notification: Option<String>,
}

impl MonitoredService {
    /// Compares the verdict with the remembered status, remembers the verdict,
    /// and returns the message to send when the two differ.
    pub fn handle_status_change(&mut self, current: HealthStatus) -> (r: Option<String>)
        ensures
            final(self).health_status == current,
            final(self).url == old(self).url,
            final(self).interval_seconds == old(self).interval_seconds,
            final(self).max_retries == old(self).max_retries,
            final(self).retry_interval == old(self).retry_interval,
            (r is Some) == notifies(old(self).health_status, current),
            r is Some ==> r->0@ == transition_message(old(self).url@, current),
    {
        if current != self.health_status {
            let mut message = self.url.clone();
            match current {
                HealthStatus::Healthy => message.append(" is now healthy!"),
                HealthStatus::Unhealthy => message.append(" is unhealthy!"),
            }
            self.health_status = current;
            Some(message)
        } else {
            None
        }
    }

    /// Evaluates the verdict of one finished cycle: the snapshot detail is
    /// always passed on for recording, a notification only on a transition.
    pub fn complete_cycle(&mut self, result: ProbeResult) -> (r: CycleReport)
        ensures
            final(self).health_status == result.status,
            final(self).url == old(self).url,
            final(self).interval_seconds == old(self).interval_seconds,
            final(self).max_retries == old(self).max_retries,
            final(self).retry_interval == old(self).retry_interval,
            r.status == result.status,
            r.response_time_ms == result.response_time_ms,
            r.error == result.error,
            r.retry_count == result.retry_count,
            r.next_check_in_seconds == old(self).interval_seconds,
            (r.notification is Some) == notifies(old(self).health_status, result.status),
            r.notification is Some ==> r.notification->0@ == transition_message(
                old(self).url@,
                result.status,
            ),
    {
        let notification = self.handle_status_change(result.status);
        CycleReport {
            status: result.status,
            response_time_ms: result.response_time_ms,
            error: result.error,
            retry_count: result.retry_count,
            next_check_in_seconds: self.interval_seconds,
            notification,
        }
    }
}

/// One cycle notifies exactly when its verdict differs from the previous
/// one: `[Healthy, Healthy]` and `[Unhealthy, Unhealthy]` send nothing,
/// `[Healthy, Unhealthy]` and `[Unhealthy, Healthy]` send one message.
pub proof fn lemma_transition_notifies_once(previous: HealthStatus, verdict: HealthStatus)
    ensures
        notification_count(previous, seq![verdict]) == (if previous == verdict {
            0nat
        } else {
            1nat
        }),
{
    assert(seq![verdict].drop_first() =~= Seq::<HealthStatus>::empty());
    assert(notification_count(verdict, Seq::<HealthStatus>::empty()) == 0);
}

/// Repeating one verdict over `n` cycles sends at most one notification: the
/// one for the transition into it, if the remembered status differed.
pub proof fn lemma_repeated_verdict_notifies_once(previous: HealthStatus, verdict: HealthStatus, n: nat)
    ensures
        notification_count(previous, Seq::new(n, |i: int| verdict)) == (if n > 0 && previous
            != verdict {
            1nat
        } else {
            0nat
        }),
    decreases n,
{
    if n > 0 {
        let vs = Seq::new(n, |i: int| verdict);
        assert(vs.drop_first() =~= Seq::new((n - 1) as nat, |i: int| verdict));
        lemma_repeated_verdict_notifies_once(verdict, verdict, (n - 1) as nat);
    }
}

pub open spec fn all_urls_parse(configs: Seq<ServiceConfig>) -> bool {
    forall|i: int| 0 <= i < configs.len() ==> url_parses((#[trigger] configs[i]).url@)
}

/// Entry `i` is the first one whose URL does not parse.
pub open spec fn first_invalid(configs: Seq<ServiceConfig>, i: int) -> bool {
    &&& 0 <= i < configs.len()
    &&& !url_parses(configs[i].url@)
    &&& all_urls_parse(configs.take(i))
}

/// One target per configuration entry, in order. An entry whose URL does not
/// parse is a configuration error: the first such entry is reported and no
/// target is made.
pub fn create_services_from_config(configs: &Vec<ServiceConfig>) -> (r: Result<
    Vec<MonitoredService>,
    ServiceError,
>)
    ensures
        (r is Ok) == all_urls_parse(configs@),
        match r {
            Ok(services) => {
                &&& services@.len() == configs@.len()
                &&& forall|i: int|
                    0 <= i < services@.len() ==> service_from_config(configs@[i]) == Ok::<
                        MonitoredService,
                        MonitoredServiceError,
                    >(#[trigger] services@[i])
            },
            Err(e) => exists|i: int|
                first_invalid(configs@, i) && e == ServiceError::MonitoredService(
                    MonitoredServiceError::InvalidUrl(configs@[i].url),
                ),
        },
{
    let mut services: Vec<MonitoredService> = Vec::new();
    let mut i: usize = 0;
    while i < configs.len()
        invariant
            i <= configs@.len(),
            services@.len() == i,
            all_urls_parse(configs@.take(i as int)),
            forall|j: int|
                0 <= j < i ==> service_from_config(configs@[j]) == Ok::<
                    MonitoredService,
                    MonitoredServiceError,
                >(#[trigger] services@[j]),
        decreases configs@.len() - i,
    {
        match MonitoredService::try_from(&configs[i]) {
            Ok(s) => {
                services.push(s);
                proof {
                    let next = configs@.take(i + 1);
                    assert forall|j: int| 0 <= j < next.len() implies url_parses(
                        (#[trigger] next[j]).url@,
                    ) by {
                        if j < i {
                            assert(next[j] == configs@.take(i as int)[j]);
                        }
                    }
                }
            },
            Err(e) => {
                proof {
                    assert(first_invalid(configs@, i as int));
                    assert(!all_urls_parse(configs@)) by {
                        assert(!url_parses(configs@[i as int].url@));
                    }
                }
                return Err(ServiceError::from(e));
            },
        }
        i = i + 1;
    }
    proof {
        assert(configs@.take(i as int) =~= configs@);
    }
    Ok(services)
}

/// The engine refuses to start without targets.
pub fn check_services_configured(services: &Vec<MonitoredService>) -> (r: Result<
    (),
    ServiceConfigurationError,
>)
    ensures
        (r is Err) == (services@.len() == 0),
        r is Err ==> r->Err_0.spec_message() == "Configuration error "@
            + "No services configured for monitoring"@,
{
    if services.len() == 0 {
        Err(
            ServiceConfigurationError::ErrorInConfiguration(
                String::from_str("No services configured for monitoring"),
            ),
        )
    } else {
        Ok(())
    }
}

} // verus!
