use vstd::prelude::*;

use crate::keyed::{entries_map, find_key, keys_unique, lemma_entries_map_at, upsert_entry};
use crate::model::{unix_now_secs, HealthStatus, MonitoringStats};

verus! {

/// What a point lookup of `k` in `m` returns.
pub open spec fn lookup(m: Map<Seq<char>, MonitoringStats>, k: Seq<char>) -> Option<MonitoringStats> {
    if m.contains_key(k) {
        Some(m[k])
    } else {
        None
    }
}

/// The next scheduled check, `interval` seconds after `now`, held at the
/// largest timestamp rather than wrapping.
pub open spec fn next_check_at(now: u64, interval: u64) -> u64 {
    if now + interval <= u64::MAX {
        (now + interval) as u64
    } else {
        u64::MAX
    }
}

/// The latest snapshot of every target, keyed by URL. Writes replace a
/// target's whole snapshot; reads hand out copies.
#[derive(Debug)]
pub struct MonitoringState {
    services: Vec<(String, MonitoringStats)>,
}

impl View for MonitoringState {
    type V = Map<Seq<char>, MonitoringStats>;

    closed spec fn view(&self) -> Map<Seq<char>, MonitoringStats> {
        entries_map(self.services@)
    }
}

impl Default for MonitoringState {
    fn default() -> (r: MonitoringState)
        ensures
            r@ == Map::<Seq<char>, MonitoringStats>::empty(),
    {
        MonitoringState::new()
    }
}

impl MonitoringState {
    #[verifier::type_invariant]
    closed spec fn entries_unique(&self) -> bool {
        keys_unique(self.services@)
    }

    /// An empty store.
    pub fn new() -> (r: MonitoringState)
        ensures
            r@ == Map::<Seq<char>, MonitoringStats>::empty(),
    {
        let r = MonitoringState { services: Vec::new() };
        proof {
            assert(r@ =~= Map::<Seq<char>, MonitoringStats>::empty());
        }
        r
    }

    /// Stores `stats` as the snapshot of `url`, replacing any earlier one whole.
    pub fn upsert(&mut self, url: String, stats: MonitoringStats)
        ensures
            final(self)@ == old(self)@.insert(url@, stats),
    {
        proof {
            use_type_invariant(&*self);
        }
        let mut services: Vec<(String, MonitoringStats)> = Vec::new();
        std::mem::swap(&mut services, &mut self.services);
        upsert_entry(&mut services, url, stats);
        self.services = services;
    }

    /// Records the cycle that finished at `now` (seconds since the Unix epoch).
    pub fn record_check(
        &mut self,
        url: String,
        status: HealthStatus,
        response_time_ms: Option<u64>,
        error: Option<String>,
        retry_count: usize,
        next_check_in_seconds: u64,
        now: u64,
    )
        ensures
            final(self)@ == old(self)@.insert(
                url@,
                MonitoringStats {
                    status,
                    last_response_time_ms: response_time_ms,
                    last_check_timestamp: now,
                    next_check_timestamp: next_check_at(now, next_check_in_seconds),
                    last_error: error,
                    current_retry_count: retry_count,
                },
            ),
    {
        let next = if now <= u64::MAX - next_check_in_seconds {
            now + next_check_in_seconds
        } else {
            u64::MAX
        };
        let stats = MonitoringStats {
            status,
            last_response_time_ms: response_time_ms,
            last_check_timestamp: now,
            next_check_timestamp: next,
            last_error: error,
            current_retry_count: retry_count,
        };
        self.upsert(url, stats);
    }

    /// Records the cycle that just finished, stamped with the current time.
    pub fn update_service_stats(
        &mut self,
        url: String,
        status: HealthStatus,
        response_time_ms: Option<u64>,
        error: Option<String>,
        retry_count: usize,
        next_check_in_seconds: u64,
    )
        ensures
            exists|now: u64|
                final(self)@ == old(self)@.insert(
                    url@,
                    MonitoringStats {
                        status,
                        last_response_time_ms: response_time_ms,
                        last_check_timestamp: now,
                        next_check_timestamp: next_check_at(now, next_check_in_seconds),
                        last_error: error,
                        current_retry_count: retry_count,
                    },
                ),
    {
        let now = unix_now_secs();
        self.record_check(url, status, response_time_ms, error, retry_count, next_check_in_seconds, now);
    }

    /// A copy of every entry, with unique keys, holding exactly what the store holds.
    pub fn get_all_services(&self) -> (r: Vec<(String, MonitoringStats)>)
        ensures
            keys_unique(r@),
            entries_map(r@) == self@,
    {
        proof {
            use_type_invariant(self);
        }
        let mut r: Vec<(String, MonitoringStats)> = Vec::new();
        let mut i: usize = 0;
        while i < self.services.len()
            invariant
                i <= self.services@.len(),
                r@ == self.services@.take(i as int),
            decreases self.services@.len() - i,
        {
            let entry = &self.services[i];
            r.push((entry.0.clone(), entry.1.clone()));
            i = i + 1;
            proof {
                assert(r@ =~= self.services@.take(i as int));
            }
        }
        proof {
            assert(r@ =~= self.services@);
        }
        r
    }

    /// A copy of the snapshot of `url`, if one was ever written.
    pub fn get_service(&self, url: &str) -> (r: Option<MonitoringStats>)
        ensures
            r == lookup(self@, url@),
    {
        proof {
            use_type_invariant(self);
        }
        match find_key(&self.services, url) {
            Some(i) => {
                proof {
                    lemma_entries_map_at(self.services@, i as int);
                }
                Some(self.services[i].1.clone())
            },
            None => None,
        }
    }
}

/// Reading a key right after writing it returns exactly the record written,
/// every field as given: there is no staleness between a write and the next
/// read.
pub proof fn lemma_read_after_write(
    before: MonitoringState,
    after: MonitoringState,
    k: Seq<char>,
    stats: MonitoringStats,
)
    requires
        after@ == before@.insert(k, stats),
    ensures
        lookup(after@, k) == Some(stats),
{
}

/// A write replaces one record whole. A full read taken on either side of it
/// holds, for the written key, the old record (or none) or the new record,
/// never one mixing their fields; every other key reads as before the write.
pub proof fn lemma_write_replaces_whole_record(
    before: MonitoringState,
    after: MonitoringState,
    k: Seq<char>,
    stats: MonitoringStats,
    snapshot: Seq<(String, MonitoringStats)>,
)
    requires
        after@ == before@.insert(k, stats),
        entries_map(snapshot) == before@ || entries_map(snapshot) == after@,
    ensures
        lookup(entries_map(snapshot), k) == lookup(before@, k) || lookup(entries_map(snapshot), k)
            == Some(stats),
        forall|k2: Seq<char>|
            k2 != k ==> #[trigger] lookup(entries_map(snapshot), k2) == lookup(before@, k2),
{
}

} // verus!
