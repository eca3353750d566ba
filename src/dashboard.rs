use vstd::prelude::*;

use crate::keyed::{entries_map, has_key, keys_unique, upsert_entry};
use crate::model::{HealthStatus, ServiceInfo};
use crate::text::{
    decimal, lemma_text_lt_irreflexive, lemma_text_lt_transitive, push_decimal, text_less, text_lt,
};

verus! {

/// A message from a monitor to the status view.
#[derive(Debug, Clone)]
pub enum DashboardEvent {
    /// The target with this URL has this configuration and latest snapshot.
    ServiceUpdate(String, ServiceInfo),
}

#[derive(Debug, Clone, Copy, PartialEq, Eq, Structural)]
pub enum FilterMode {
    All,
    HealthyOnly,
    UnhealthyOnly,
}

#[derive(Debug, Clone, Copy, PartialEq, Eq, Structural)]
pub enum SortMode {
    Url,
    Status,
    ResponseTime,
    NextCheck,
}

/// The target is shown under the filter.
pub open spec fn passes(mode: FilterMode, s: ServiceInfo) -> bool {
    match mode {
        FilterMode::All => true,
        FilterMode::HealthyOnly => s.stats.status == HealthStatus::Healthy,
        FilterMode::UnhealthyOnly => s.stats.status == HealthStatus::Unhealthy,
    }
}

/// The targets shown under the filter, in the order they were first reported.
pub open spec fn filtered(entries: Seq<(String, ServiceInfo)>, mode: FilterMode) -> Seq<ServiceInfo>
    decreases entries.len(),
{
    if entries.len() == 0 {
        Seq::empty()
    } else {
        let rest = filtered(entries.drop_last(), mode);
        if passes(mode, entries.last().1) {
            rest.push(entries.last().1)
        } else {
            rest
        }
    }
}

/// `a` is listed strictly before `b` under the sort mode. By URL; by status,
/// unhealthy first, then by URL; by response time, fastest first, targets
/// without one last and among themselves by URL; by next check, soonest first.
pub open spec fn sorts_before(mode: SortMode, a: ServiceInfo, b: ServiceInfo) -> bool {
    match mode {
        SortMode::Url => text_lt(a.url@, b.url@),
        SortMode::Status => match (a.stats.status, b.stats.status) {
            (HealthStatus::Unhealthy, HealthStatus::Healthy) => true,
            (HealthStatus::Healthy, HealthStatus::Unhealthy) => false,
            _ => text_lt(a.url@, b.url@),
        },
        SortMode::ResponseTime => match (a.stats.last_response_time_ms, b.stats.last_response_time_ms) {
            (Some(x), Some(y)) => x < y,
            (Some(_), None) => true,
            (None, Some(_)) => false,
            (None, None) => text_lt(a.url@, b.url@),
        },
        SortMode::NextCheck => a.stats.next_check_timestamp < b.stats.next_check_timestamp,
    }
}

/// No target is listed after one it sorts before.
pub open spec fn sorted_by(mode: SortMode, s: Seq<ServiceInfo>) -> bool {
    forall|i: int, j: int| 0 <= i < j < s.len() ==> !sorts_before(mode, #[trigger] s[j], #[trigger] s[i])
}

pub proof fn lemma_sorts_before_irreflexive(mode: SortMode, a: ServiceInfo)
    ensures
        !sorts_before(mode, a, a),
{
    lemma_text_lt_irreflexive(a.url@);
}

pub proof fn lemma_sorts_before_transitive(mode: SortMode, a: ServiceInfo, b: ServiceInfo, c: ServiceInfo)
    requires
        sorts_before(mode, a, b),
        sorts_before(mode, b, c),
    ensures
        sorts_before(mode, a, c),
{
    if text_lt(a.url@, b.url@) && text_lt(b.url@, c.url@) {
        lemma_text_lt_transitive(a.url@, b.url@, c.url@);
    }
}

fn passes_filter(mode: FilterMode, s: &ServiceInfo) -> (r: bool)
    ensures
        r == passes(mode, *s),
{
    match mode {
        FilterMode::All => true,
        FilterMode::HealthyOnly => s.stats.status == HealthStatus::Healthy,
        FilterMode::UnhealthyOnly => s.stats.status == HealthStatus::Unhealthy,
    }
}

fn listed_before(mode: SortMode, a: &ServiceInfo, b: &ServiceInfo) -> (r: bool)
    ensures
        r == sorts_before(mode, *a, *b),
{
    match mode {
        SortMode::Url => text_less(a.url.as_str(), b.url.as_str()),
        SortMode::Status => match (a.stats.status, b.stats.status) {
            (HealthStatus::Unhealthy, HealthStatus::Healthy) => true,
            (HealthStatus::Healthy, HealthStatus::Unhealthy) => false,
            _ => text_less(a.url.as_str(), b.url.as_str()),
        },
        SortMode::ResponseTime => match (a.stats.last_response_time_ms, b.stats.last_response_time_ms) {
            (Some(x), Some(y)) => x < y,
            (Some(_), None) => true,
            (None, Some(_)) => false,
            (None, None) => text_less(a.url.as_str(), b.url.as_str()),
        },
        SortMode::NextCheck => a.stats.next_check_timestamp < b.stats.next_check_timestamp,
    }
}

/// Inserts `item` into the sorted `list` after every element it does not sort
/// before, keeping the list sorted and adding exactly `item`.
fn insert_sorted(mode: SortMode, list: &mut Vec<ServiceInfo>, item: ServiceInfo)
    requires
        sorted_by(mode, old(list)@),
    ensures
        sorted_by(mode, final(list)@),
        final(list)@.to_multiset() == old(list)@.to_multiset().insert(item),
{
    let mut p: usize = 0;
    while p < list.len()
        invariant
            p <= list@.len(),
            forall|i: int| 0 <= i < p ==> !sorts_before(mode, item, #[trigger] list@[i]),
        ensures
            p <= list@.len(),
            forall|i: int| 0 <= i < p ==> !sorts_before(mode, item, #[trigger] list@[i]),
            p < list@.len() ==> sorts_before(mode, item, list@[p as int]),
        decreases list@.len() - p,
    {
        if listed_before(mode, &item, &list[p]) {
            break;
        }
        p = p + 1;
    }
    let ghost before = list@;
    list.insert(p, item);
    proof {
        let after = list@;
        assert forall|i: int, j: int| 0 <= i < j < after.len() implies !sorts_before(
            mode,
            #[trigger] after[j],
            #[trigger] after[i],
        ) by {
            if j < p {
                assert(after[i] == before[i] && after[j] == before[j]);
            } else if j == p {
                assert(after[i] == before[i]);
            } else if i == p {
                let o = before[j - 1];
                assert(after[j] == o);
                if sorts_before(mode, o, item) {
                    lemma_sorts_before_transitive(mode, o, item, before[p as int]);
                    if j - 1 == p {
                        lemma_sorts_before_irreflexive(mode, o);
                    }
                }
            } else if i < p {
                assert(after[i] == before[i] && after[j] == before[j - 1]);
            } else {
                assert(after[i] == before[i - 1] && after[j] == before[j - 1]);
            }
        }
        assert(after.remove(p as int) =~= before);
        broadcast use vstd::seq_lib::group_to_multiset_ensures;
        assert(after.to_multiset().remove(item) == before.to_multiset());
        assert(after.to_multiset().count(item) > 0) by {
            assert(after.contains(item)) by {
                assert(after[p as int] == item);
            }
        }
        assert(after.to_multiset() =~= before.to_multiset().insert(item));
    }
}

/// What the status view shows: the latest report of each target, the
/// filter and sort in force, and the selected row.
pub struct DashboardState {
    services: Vec<(String, ServiceInfo)>,
    filter_mode: FilterMode,
    sort_mode: SortMode,
    selected_index: usize,
}

impl DashboardState {
    #[verifier::type_invariant]
    closed spec fn well_formed(&self) -> bool {
        &&& keys_unique(self.services@)
        &&& self.selected_index < usize::MAX
    }

    /// The reports in the order the targets were first seen.
    pub closed spec fn entries(&self) -> Seq<(String, ServiceInfo)> {
        self.services@
    }

    /// The latest report of each target, by URL.
    pub open spec fn reports(&self) -> Map<Seq<char>, ServiceInfo> {
        entries_map(self.entries())
    }

    pub closed spec fn spec_filter_mode(&self) -> FilterMode {
        self.filter_mode
    }

    pub closed spec fn spec_sort_mode(&self) -> SortMode {
        self.sort_mode
    }

    pub closed spec fn spec_selected_index(&self) -> usize {
        self.selected_index
    }

    /// The rows shown, before sorting.
    pub open spec fn shown(&self) -> Seq<ServiceInfo> {
        filtered(self.entries(), self.spec_filter_mode())
    }

    /// Nothing reported yet, every target shown, sorted by URL, first row selected.
    pub fn new() -> (r: DashboardState)
        ensures
            r.entries() == Seq::<(String, ServiceInfo)>::empty(),
            r.spec_filter_mode() == FilterMode::All,
            r.spec_sort_mode() == SortMode::Url,
            r.spec_selected_index() == 0,
    {
        DashboardState {
            services: Vec::new(),
            filter_mode: FilterMode::All,
            sort_mode: SortMode::Url,
            selected_index: 0,
        }
    }

    /// Takes the latest report of `url`, replacing the previous one.
    pub fn update_service(&mut self, url: String, service: ServiceInfo)
        ensures
            final(self).reports() == old(self).reports().insert(url@, service),
            has_key(old(self).entries(), url@) ==> exists|i: int|
                0 <= i < old(self).entries().len() && old(self).entries()[i].0@ == url@
                    && final(self).entries() == old(self).entries().update(i, (url, service)),
            !has_key(old(self).entries(), url@) ==> final(self).entries() == old(self).entries().push(
                (url, service),
            ),
            final(self).spec_filter_mode() == old(self).spec_filter_mode(),
            final(self).spec_sort_mode() == old(self).spec_sort_mode(),
            final(self).spec_selected_index() == old(self).spec_selected_index(),
    {
        proof {
            use_type_invariant(&*self);
        }
        let mut services: Vec<(String, ServiceInfo)> = Vec::new();
        std::mem::swap(&mut services, &mut self.services);
        upsert_entry(&mut services, url, service);
        self.services = services;
    }

    /// The rows to show: the reports that pass the filter, sorted.
    pub fn get_filtered_services(&self) -> (r: Vec<ServiceInfo>)
        ensures
            r@.to_multiset() == self.shown().to_multiset(),
            sorted_by(self.spec_sort_mode(), r@),
    {
        let mut r: Vec<ServiceInfo> = Vec::new();
        let mut i: usize = 0;
        while i < self.services.len()
            invariant
                i <= self.services@.len(),
                sorted_by(self.sort_mode, r@),
                r@.to_multiset() == filtered(self.services@.take(i as int), self.filter_mode).to_multiset(),
            decreases self.services@.len() - i,
        {
            let info = &self.services[i].1;
            proof {
                assert(self.services@.take(i + 1).drop_last() =~= self.services@.take(i as int));
                assert(self.services@.take(i + 1).last() == self.services@[i as int]);
            }
            if passes_filter(self.filter_mode, info) {
                proof {
                    broadcast use vstd::seq_lib::group_to_multiset_ensures;
                    let rest = filtered(self.services@.take(i as int), self.filter_mode);
                    assert(rest.push(*info).to_multiset() == rest.to_multiset().insert(*info));
                }
                insert_sorted(self.sort_mode, &mut r, info.clone());
            }
            i = i + 1;
        }
        proof {
            assert(self.services@.take(self.services@.len() as int) =~= self.services@);
        }
        r
    }

    /// The number of rows shown.
    pub fn filtered_count(&self) -> (r: usize)
        ensures
            r == self.shown().len(),
    {
        let mut count: usize = 0;
        let mut i: usize = 0;
        while i < self.services.len()
            invariant
                i <= self.services@.len(),
                count == filtered(self.services@.take(i as int), self.filter_mode).len(),
                count <= i,
            decreases self.services@.len() - i,
        {
            proof {
                assert(self.services@.take(i + 1).drop_last() =~= self.services@.take(i as int));
                assert(self.services@.take(i + 1).last() == self.services@[i as int]);
            }
            if passes_filter(self.filter_mode, &self.services[i].1) {
                count = count + 1;
            }
            i = i + 1;
        }
        proof {
            assert(self.services@.take(self.services@.len() as int) =~= self.services@);
        }
        count
    }

    /// Cycles the filter All, HealthyOnly, UnhealthyOnly and selects the first row.
    pub fn toggle_filter(&mut self)
        ensures
            final(self).spec_filter_mode() == match old(self).spec_filter_mode() {
                FilterMode::All => FilterMode::HealthyOnly,
                FilterMode::HealthyOnly => FilterMode::UnhealthyOnly,
                FilterMode::UnhealthyOnly => FilterMode::All,
            },
            final(self).spec_selected_index() == 0,
            final(self).entries() == old(self).entries(),
            final(self).spec_sort_mode() == old(self).spec_sort_mode(),
    {
        proof {
            use_type_invariant(&*self);
        }
        self.filter_mode = match self.filter_mode {
            FilterMode::All => FilterMode::HealthyOnly,
            FilterMode::HealthyOnly => FilterMode::UnhealthyOnly,
            FilterMode::UnhealthyOnly => FilterMode::All,
        };
        self.selected_index = 0;
    }

    /// Cycles the sort Url, Status, ResponseTime, NextCheck and selects the first row.
    pub fn toggle_sort(&mut self)
        ensures
            final(self).spec_sort_mode() == match old(self).spec_sort_mode() {
                SortMode::Url => SortMode::Status,
                SortMode::Status => SortMode::ResponseTime,
                SortMode::ResponseTime => SortMode::NextCheck,
                SortMode::NextCheck => SortMode::Url,
            },
            final(self).spec_selected_index() == 0,
            final(self).entries() == old(self).entries(),
            final(self).spec_filter_mode() == old(self).spec_filter_mode(),
    {
        proof {
            use_type_invariant(&*self);
        }
        self.sort_mode = match self.sort_mode {
            SortMode::Url => SortMode::Status,
            SortMode::Status => SortMode::ResponseTime,
            SortMode::ResponseTime => SortMode::NextCheck,
            SortMode::NextCheck => SortMode::Url,
        };
        self.selected_index = 0;
    }

    /// Moves the selection up one row, wrapping from the first to the last.
    pub fn select_previous(&mut self)
        ensures
            final(self).spec_selected_index() == if old(self).shown().len() == 0 {
                old(self).spec_selected_index() as int
            } else if old(self).spec_selected_index() == 0 {
                old(self).shown().len() - 1
            } else {
                old(self).spec_selected_index() - 1
            },
            final(self).entries() == old(self).entries(),
            final(self).spec_filter_mode() == old(self).spec_filter_mode(),
            final(self).spec_sort_mode() == old(self).spec_sort_mode(),
    {
        proof {
            use_type_invariant(&*self);
        }
        let count = self.filtered_count();
        proof {
            lemma_filtered_len(self.services@, self.filter_mode);
        }
        if count > 0 {
            self.selected_index = if self.selected_index == 0 {
                count - 1
            } else {
                self.selected_index - 1
            };
        }
    }

    /// Moves the selection down one row, wrapping from the last to the first.
    pub fn select_next(&mut self)
        ensures
            final(self).spec_selected_index() == if old(self).shown().len() == 0 {
                old(self).spec_selected_index() as int
            } else {
                (old(self).spec_selected_index() + 1) % (old(self).shown().len() as int)
            },
            final(self).entries() == old(self).entries(),
            final(self).spec_filter_mode() == old(self).spec_filter_mode(),
            final(self).spec_sort_mode() == old(self).spec_sort_mode(),
    {
        proof {
            use_type_invariant(&*self);
        }
        let count = self.filtered_count();
        proof {
            lemma_filtered_len(self.services@, self.filter_mode);
        }
        if count > 0 {
            self.selected_index = (self.selected_index + 1) % count;
        }
    }

    pub fn filter_mode(&self) -> (r: FilterMode)
        ensures
            r == self.spec_filter_mode(),
    {
        self.filter_mode
    }

    pub fn sort_mode(&self) -> (r: SortMode)
        ensures
            r == self.spec_sort_mode(),
    {
        self.sort_mode
    }

    pub fn selected_index(&self) -> (r: usize)
        ensures
            r == self.spec_selected_index(),
    {
        self.selected_index
    }

    /// The number of targets reported, shown or not.
    pub fn service_count(&self) -> (r: usize)
        ensures
            r == self.entries().len(),
    {
        self.services.len()
    }
}

/// No more rows are shown than there are reports.
pub proof fn lemma_filtered_len(entries: Seq<(String, ServiceInfo)>, mode: FilterMode)
    ensures
        filtered(entries, mode).len() <= entries.len(),
    decreases entries.len(),
{
    if entries.len() > 0 {
        lemma_filtered_len(entries.drop_last(), mode);
    }
}

/// A wait of `secs` seconds in its two largest units: `42s`, `3m5s`, `2h10m`.
pub open spec fn duration_text(secs: u64) -> Seq<char> {
    if secs < 60 {
        decimal(secs as nat) + "s"@
    } else if secs < 3600 {
        decimal((secs / 60) as nat) + "m"@ + decimal((secs % 60) as nat) + "s"@
    } else {
        decimal((secs / 3600) as nat) + "h"@ + decimal(((secs % 3600) / 60) as nat) + "m"@
    }
}

/// `s` cut to at most `max_len` characters, marked with `...` where cut.
/// Lengths count characters, not UTF-8 bytes, so a cut never falls inside a
/// character; for ASCII text the two counts agree.
pub open spec fn truncated(s: Seq<char>, max_len: usize) -> Seq<char> {
    if s.len() <= max_len {
        s
    } else {
        s.take(if max_len >= 3 { max_len - 3 } else { 0 }) + "..."@
    }
}

/// Writes a wait of `secs` seconds for a table cell.
pub fn format_duration(secs: u64) -> (r: String)
    ensures
        r@ == duration_text(secs),
{
    let mut r = String::new();
    if secs < 60 {
        push_decimal(&mut r, secs);
        r.append("s");
    } else if secs < 3600 {
        push_decimal(&mut r, secs / 60);
        r.append("m");
        push_decimal(&mut r, secs % 60);
        r.append("s");
    } else {
        push_decimal(&mut r, secs / 3600);
        r.append("h");
        push_decimal(&mut r, (secs % 3600) / 60);
        r.append("m");
    }
    proof {
        assert(r@ =~= duration_text(secs));
    }
    r
}

/// Cuts `s` to at most `max_len` characters for a table cell. It counts
/// characters, not bytes, so multi-byte text is never cut inside a character.
pub fn truncate_string(s: &str, max_len: usize) -> (r: String)
    ensures
        r@ == truncated(s@, max_len),
{
    let n = s.unicode_len();
    if n <= max_len {
        String::from_str(s)
    } else {
        let keep = if max_len >= 3 {
            max_len - 3
        } else {
            0
        };
        let mut r = String::from_str(s.substring_char(0, keep));
        r.append("...");
        r
    }
}

} // verus!
