use vstd::prelude::*;

use crate::model::{HealthStatus, MonitoredService};
use crate::text::{decimal, push_decimal};

verus! {

/// What one attempt to reach a target came back with.
#[derive(Debug, Clone)]
pub enum AttemptOutcome {
    /// A response arrived with this HTTP status code after `latency_ms` milliseconds.
    Response { status: u16, latency_ms: u64 },
    /// The request failed before any response; `cause` describes the failure.
    TransportError { cause: String },
}

/// The verdict of one cycle with its diagnostic detail.
#[derive(Debug)]
pub struct ProbeResult {
    pub status: HealthStatus,
    /// Latency of the deciding attempt; present only when that attempt succeeded.
    pub response_time_ms: Option<u64>,
    /// Diagnostic of the deciding attempt; absent when that attempt succeeded.
    pub error: Option<String>,
    /// Zero-based index of the deciding attempt: the retries this cycle used.
    pub retry_count: usize,
}

/// What the caller does after reporting an attempt.
#[derive(Debug)]
pub enum ProbeStep {
    /// Wait this many seconds, then make the next attempt.
    Retry { delay_seconds: u64 },
    /// The cycle is over with this verdict.
    Done(ProbeResult),
}

/// The standard reason phrase of an HTTP status code, if it has one.
pub uninterp spec fn reason_phrase(code: u16) -> Option<Seq<char>>;

/// Relies on `reqwest::StatusCode::from_u16` and `StatusCode::canonical_reason`
/// (from the `http` crate): the registered reason phrase of a status code, or
/// nothing for an unregistered or out-of-range code.
#[verifier::external_body]
fn canonical_reason(code: u16) -> (r: Option<String>)
    ensures
        match r {
            Some(s) => reason_phrase(code) == Some(s@),
            None => reason_phrase(code) is None,
        },
{
    match reqwest::StatusCode::from_u16(code) {
        Ok(s) => s.canonical_reason().map(|p| p.to_string()),
        Err(_) => None,
    }
}

/// A status code in the success class (2xx).
pub open spec fn is_success_code(code: u16) -> bool {
    200 <= code < 300
}

pub open spec fn attempt_succeeded(o: AttemptOutcome) -> bool {
    match o {
        AttemptOutcome::Response { status, .. } => is_success_code(status),
        AttemptOutcome::TransportError { .. } => false,
    }
}

pub open spec fn attempt_latency(o: AttemptOutcome) -> u64 {
    match o {
        AttemptOutcome::Response { latency_ms, .. } => latency_ms,
        AttemptOutcome::TransportError { .. } => 0,
    }
}

pub open spec fn reason_text(code: u16) -> Seq<char> {
    match reason_phrase(code) {
        Some(p) => p,
        None => "Unknown"@,
    }
}

/// The diagnostic recorded for a failed attempt:
/// `HTTP <code>: <reason>` or `Request failed: <cause>`.
pub open spec fn diagnostic(o: AttemptOutcome) -> Seq<char> {
    match o {
        AttemptOutcome::Response { status, .. } => "HTTP "@ + decimal(status as nat) + ": "@
            + reason_text(status),
        AttemptOutcome::TransportError { cause } => "Request failed: "@ + cause@,
    }
}

/// The attempts `outs` make a whole cycle: the last one succeeded, or all
/// `max_retries + 1` allowed attempts have been made.
pub open spec fn cycle_complete(max_retries: nat, outs: Seq<AttemptOutcome>) -> bool {
    0 < outs.len() && (attempt_succeeded(outs.last()) || outs.len() == max_retries + 1)
}

/// `r` is the verdict that the attempts `outs` of a complete cycle give.
pub open spec fn probe_reports(r: ProbeResult, outs: Seq<AttemptOutcome>) -> bool {
    let last = outs.last();
    &&& r.retry_count == outs.len() - 1
    &&& if attempt_succeeded(last) {
        &&& r.status == HealthStatus::Healthy
        &&& r.response_time_ms == Some(attempt_latency(last))
        &&& r.error is None
    } else {
        &&& r.status == HealthStatus::Unhealthy
        &&& r.response_time_ms is None
        &&& r.error is Some
        &&& r.error->0@ == diagnostic(last)
    }
}

/// Whether an HTTP status code is in the success class.
pub fn is_success_status(code: u16) -> (r: bool)
    ensures
        r == is_success_code(code),
{
    200 <= code && code < 300
}

/// The diagnostic text of an attempt.
pub fn diagnostic_text(o: &AttemptOutcome) -> (r: String)
    ensures
        r@ == diagnostic(*o),
{
    match o {
        AttemptOutcome::Response { status, .. } => {
            let mut r = String::from_str("HTTP ");
            push_decimal(&mut r, *status as u64);
            r.append(": ");
            match canonical_reason(*status) {
                Some(p) => r.append(p.as_str()),
                None => r.append("Unknown"),
            }
            r
        },
        AttemptOutcome::TransportError { cause } => {
            let mut r = String::from_str("Request failed: ");
            r.append(cause.as_str());
            r
        },
    }
}

/// One cycle of the bounded-retry probe protocol for one target. The caller
/// makes each attempt and reports it; the protocol says whether to wait and
/// try again or what the cycle's verdict is.
pub struct HealthCheck {
    max_retries: usize,
    retry_interval: u64,
    attempts: usize,
    history: Ghost<Seq<AttemptOutcome>>,
}

impl HealthCheck {
    /// The attempts reported so far in this cycle.
    pub closed spec fn history(&self) -> Seq<AttemptOutcome> {
        self.history@
    }

    pub closed spec fn max_retries(&self) -> nat {
        self.max_retries as nat
    }

    pub closed spec fn retry_interval(&self) -> u64 {
        self.retry_interval
    }

    /// What a running cycle shows: no more attempts than retries allowed, and
    /// every one of them failed, so at least one more attempt is allowed.
    pub open spec fn running(&self) -> bool {
        &&& self.history().len() <= self.max_retries()
        &&& forall|i: int|
            0 <= i < self.history().len() ==> !attempt_succeeded(#[trigger] self.history()[i])
    }

    /// The cycle is still running: every attempt so far failed and at least
    /// one more is allowed.
    pub closed spec fn wf(&self) -> bool {
        &&& self.attempts == self.history@.len()
        &&& self.attempts <= self.max_retries
        &&& forall|i: int| 0 <= i < self.history@.len() ==> !attempt_succeeded(#[trigger] self.history@[i])
    }

    /// Starts a cycle for `service`.
    pub fn new(service: &MonitoredService) -> (r: HealthCheck)
        ensures
            r.wf(),
            r.running(),
            r.history() == Seq::<AttemptOutcome>::empty(),
            r.max_retries() == service.max_retries,
            r.retry_interval() == service.retry_interval,
    {
        HealthCheck {
            max_retries: service.max_retries,
            retry_interval: service.retry_interval,
            attempts: 0,
            history: Ghost(Seq::empty()),
        }
    }

    /// Reports the outcome of the next attempt. The cycle ends on the first
    /// success or after `max_retries + 1` attempts; otherwise the caller waits
    /// the retry interval and tries again.
    pub fn observe(&mut self, outcome: AttemptOutcome) -> (r: ProbeStep)
        requires
            old(self).wf(),
        ensures
            final(self).history() == old(self).history().push(outcome),
            final(self).max_retries() == old(self).max_retries(),
            final(self).retry_interval() == old(self).retry_interval(),
            (r is Done) == cycle_complete(final(self).max_retries(), final(self).history()),
            match r {
                ProbeStep::Retry { delay_seconds } => {
                    &&& delay_seconds == old(self).retry_interval()
                    &&& final(self).wf()
                    &&& final(self).running()
                },
                ProbeStep::Done(res) => probe_reports(res, final(self).history()),
            },
    {
        let ghost outs = self.history@.push(outcome);
        let index = self.attempts;
        self.history = Ghost(outs);
        let step = match &outcome {
            AttemptOutcome::Response { status, latency_ms } if is_success_status(*status) => {
                ProbeStep::Done(
                    ProbeResult {
                        status: HealthStatus::Healthy,
                        response_time_ms: Some(*latency_ms),
                        error: None,
                        retry_count: index,
                    },
                )
            },
            _ => {
                if index == self.max_retries {
                    ProbeStep::Done(
                        ProbeResult {
                            status: HealthStatus::Unhealthy,
                            response_time_ms: None,
                            error: Some(diagnostic_text(&outcome)),
                            retry_count: index,
                        },
                    )
                } else {
                    self.attempts = index + 1;
                    ProbeStep::Retry { delay_seconds: self.retry_interval }
                }
            },
        };
        proof {
            assert(outs.last() == outcome);
            assert forall|i: int| 0 <= i < outs.len() - 1 implies !attempt_succeeded(#[trigger] outs[i]) by {
                assert(outs[i] == old(self).history()[i]);
            }
        }
        step
    }
}

/// A target that fails every attempt is tried exactly `max_retries + 1` times
/// in one cycle: no shorter run of failures completes the cycle (each one is
/// followed by a wait and a retry), the full run does, and its verdict is
/// unhealthy with no latency and `max_retries` retries recorded.
pub proof fn lemma_failing_target_exhausts_retries(
    max_retries: nat,
    outs: Seq<AttemptOutcome>,
    r: ProbeResult,
)
    requires
        outs.len() == max_retries + 1,
        forall|i: int| 0 <= i < outs.len() ==> !attempt_succeeded(#[trigger] outs[i]),
        probe_reports(r, outs),
    ensures
        forall|k: int| 1 <= k <= max_retries ==> !cycle_complete(max_retries, #[trigger] outs.take(k)),
        cycle_complete(max_retries, outs),
        r.status == HealthStatus::Unhealthy,
        r.response_time_ms is None,
        r.retry_count == max_retries,
{
    assert forall|k: int| 1 <= k <= max_retries implies !cycle_complete(
        max_retries,
        #[trigger] outs.take(k),
    ) by {
        assert(outs.take(k).last() == outs[k - 1]);
    }
    assert(!attempt_succeeded(outs[outs.len() - 1]));
}

} // verus!
