use vstd::prelude::*;

verus! {

/// No two entries share a key.
pub open spec fn keys_unique<V>(s: Seq<(String, V)>) -> bool {
    forall|i: int, j: int|
        0 <= i < s.len() && 0 <= j < s.len() && (#[trigger] s[i]).0@ == (#[trigger] s[j]).0@ ==> i == j
}

pub open spec fn has_key<V>(s: Seq<(String, V)>, k: Seq<char>) -> bool {
    exists|i: int| 0 <= i < s.len() && (#[trigger] s[i]).0@ == k
}

/// The map from each key of `s` to its value.
pub open spec fn entries_map<V>(s: Seq<(String, V)>) -> Map<Seq<char>, V> {
    Map::new(
        |k: Seq<char>| has_key(s, k),
        |k: Seq<char>| s[choose|i: int| 0 <= i < s.len() && (#[trigger] s[i]).0@ == k].1,
    )
}

/// In an entry list with unique keys, each entry is what the map holds for its key.
pub proof fn lemma_entries_map_at<V>(s: Seq<(String, V)>, i: int)
    requires
        keys_unique(s),
        0 <= i < s.len(),
    ensures
        entries_map(s).contains_key(s[i].0@),
        entries_map(s)[s[i].0@] == s[i].1,
{
    let k = s[i].0@;
    assert(has_key(s, k));
    let j = choose|j: int| 0 <= j < s.len() && (#[trigger] s[j]).0@ == k;
    assert(j == i);
}

/// The position of `key` among the entries, if it is there.
pub fn find_key<V>(entries: &Vec<(String, V)>, key: &str) -> (r: Option<usize>)
    requires
        keys_unique(entries@),
    ensures
        match r {
            Some(i) => i < entries@.len() && entries@[i as int].0@ == key@,
            None => !has_key(entries@, key@),
        },
{
    let wanted = String::from_str(key);
    let mut i: usize = 0;
    while i < entries.len()
        invariant
            wanted@ == key@,
            i <= entries@.len(),
            forall|j: int| 0 <= j < i ==> (#[trigger] entries@[j]).0@ != key@,
        decreases entries@.len() - i,
    {
        if entries[i].0 == wanted {
            return Some(i);
        }
        i = i + 1;
    }
    None
}

/// Gives `key` the value `value`: an existing entry keeps its place and is
/// replaced whole, a new key is appended.
pub fn upsert_entry<V>(entries: &mut Vec<(String, V)>, key: String, value: V)
    requires
        keys_unique(old(entries)@),
    ensures
        keys_unique(final(entries)@),
        entries_map(final(entries)@) == entries_map(old(entries)@).insert(key@, value),
        has_key(old(entries)@, key@) ==> exists|i: int|
            0 <= i < old(entries)@.len() && old(entries)@[i].0@ == key@ && final(entries)@
                == old(entries)@.update(i, (key, value)),
        !has_key(old(entries)@, key@) ==> final(entries)@ == old(entries)@.push((key, value)),
{
    let ghost s0 = entries@;
    let ghost k = key@;
    match find_key(entries, key.as_str()) {
        Some(i) => {
            entries.set(i, (key, value));
            proof {
                let s1 = entries@;
                assert(s1 == s0.update(i as int, (key, value)));
                assert(keys_unique(s1)) by {
                    assert forall|a: int, b: int|
                        0 <= a < s1.len() && 0 <= b < s1.len() && (#[trigger] s1[a]).0@
                            == (#[trigger] s1[b]).0@ implies a == b by {
                        assert(s1[a].0@ == s0[a].0@);
                        assert(s1[b].0@ == s0[b].0@);
                    }
                }
                assert forall|k2: Seq<char>| has_key(s1, k2) == has_key(s0, k2) by {
                    if has_key(s1, k2) {
                        let a = choose|a: int| 0 <= a < s1.len() && (#[trigger] s1[a]).0@ == k2;
                        assert(s0[a].0@ == k2);
                    }
                    if has_key(s0, k2) {
                        let a = choose|a: int| 0 <= a < s0.len() && (#[trigger] s0[a]).0@ == k2;
                        assert(s1[a].0@ == k2);
                    }
                }
                assert forall|k2: Seq<char>| #[trigger] has_key(s1, k2) implies entries_map(s1)[k2]
                    == entries_map(s0).insert(k, value)[k2] by {
                    let a = choose|a: int| 0 <= a < s1.len() && (#[trigger] s1[a]).0@ == k2;
                    lemma_entries_map_at(s1, a);
                    if a != i {
                        lemma_entries_map_at(s0, a);
                    }
                }
                assert(entries_map(s1) =~= entries_map(s0).insert(k, value));
            }
        },
        None => {
            entries.push((key, value));
            proof {
                let s1 = entries@;
                let n = s0.len() as int;
                assert(keys_unique(s1)) by {
                    assert forall|a: int, b: int|
                        0 <= a < s1.len() && 0 <= b < s1.len() && (#[trigger] s1[a]).0@
                            == (#[trigger] s1[b]).0@ implies a == b by {
                        if a < n && b == n {
                            assert(s0[a].0@ == k);
                        }
                        if b < n && a == n {
                            assert(s0[b].0@ == k);
                        }
                    }
                }
                assert forall|k2: Seq<char>| has_key(s1, k2) == (has_key(s0, k2) || k2 == k) by {
                    if has_key(s1, k2) {
                        let a = choose|a: int| 0 <= a < s1.len() && (#[trigger] s1[a]).0@ == k2;
                        if a < n {
                            assert(s0[a].0@ == k2);
                        }
                    }
                    if has_key(s0, k2) {
                        let a = choose|a: int| 0 <= a < s0.len() && (#[trigger] s0[a]).0@ == k2;
                        assert(s1[a].0@ == k2);
                    }
                    if k2 == k {
                        assert(s1[n].0@ == k2);
                    }
                }
                assert forall|k2: Seq<char>| #[trigger] has_key(s1, k2) implies entries_map(s1)[k2]
                    == entries_map(s0).insert(k, value)[k2] by {
                    let a = choose|a: int| 0 <= a < s1.len() && (#[trigger] s1[a]).0@ == k2;
                    lemma_entries_map_at(s1, a);
                    if a < n {
                        lemma_entries_map_at(s0, a);
                    }
                }
                assert(entries_map(s1) =~= entries_map(s0).insert(k, value));
            }
        },
    }
}

} // verus!
