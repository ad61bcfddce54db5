use std::collections::HashMap;
use vstd::prelude::*;
use vstd::std_specs::iter::IteratorSpec;

verus! {

broadcast use vstd::std_specs::hash::group_hash_axioms;

/// A record that is given up after it has been idle for too long.
pub trait Expires {
    /// Whether the record has been idle for longer than its limit at `now`.
    spec fn expired(&self, now: u64) -> bool;

    fn timeout(&self, now: u64) -> (expired: bool)
        ensures
            expired == self.expired(now),
    ;
}

/// The keys of the records that have expired at `now`.
pub open spec fn spec_expired<R: Expires>(table: Map<usize, R>, now: u64) -> Set<usize> {
    Set::new(|k: usize| table.contains_key(k) && table[k].expired(now))
}

/// The table without the records that have expired at `now`.
pub open spec fn spec_kept<R: Expires>(table: Map<usize, R>, now: u64) -> Map<usize, R> {
    Map::new(|k: usize| table.contains_key(k) && !table[k].expired(now), |k: usize| table[k])
}

/// The keys of a table, each once, in no promised order.
pub fn live_keys<R>(map: &HashMap<usize, R>) -> (keys: Vec<usize>)
    ensures
        keys@.no_duplicates(),
        keys@.to_set() == map@.dom(),
{
    let mut keys: Vec<usize> = Vec::new();
    let ghost all = map.keys().remaining();
    for k in it: map.keys()
        invariant
            keys@ == it.seq().take(it.index()).unref(),
            it.seq() == all,
    {
        keys.push(*k);
        assert(it.seq().take(it.index() + 1).unref() =~= it.seq().take(it.index()).unref().push(
            *k,
        ));
    }
    assert(keys@ == all.unref());
    keys
}

/// Removes every record that has expired at `now` from the table, and names
/// the keys that were removed, each once, in no promised order.
pub fn sweep<R: Expires>(map: &mut HashMap<usize, R>, now: u64) -> (closed: Vec<usize>)
    ensures
        final(map)@ == spec_kept(old(map)@, now),
        closed@.no_duplicates(),
        closed@.to_set() == spec_expired(old(map)@, now),
{
    let keys = live_keys(map);
    let mut closed: Vec<usize> = Vec::new();
    let mut i: usize = 0;
    let ghost before = map@;
    while i < keys.len()
        invariant
            i <= keys@.len(),
            keys@.no_duplicates(),
            keys@.to_set() == before.dom(),
            before == old(map)@,
            forall|k: usize| #[trigger]
                map@.contains_key(k) ==> before.contains_key(k) && map@[k]
                    == before[k],
            forall|j: int|
                0 <= j < i ==> (map@.contains_key(#[trigger] keys@[j])
                    <==> !before[keys@[j]].expired(now)),
            forall|j: int| i <= j < keys@.len() ==> map@.contains_key(#[trigger] keys@[j]),
            closed@.no_duplicates(),
            forall|x: usize| #[trigger]
                closed@.contains(x) <==> (exists|j: int|
                    0 <= j < i && #[trigger] keys@[j] == x && before[x].expired(now)),
        decreases keys@.len() - i,
    {
        let k = keys[i];
        assert(keys@.to_set().contains(k));
        let expired = match map.get(&k) {
            Some(record) => record.timeout(now),
            None => false,
        };
        if expired {
            proof {
                if closed@.contains(k) {
                    let j = choose|j: int| 0 <= j < i && #[trigger] keys@[j] == k;
                    assert(keys@[j] == keys@[i as int]);
                }
            }
            let ghost prev = closed@;
            closed.push(k);
            map.remove(&k);
            assert forall|x: usize| #[trigger]
                closed@.contains(x) <==> (exists|j: int|
                    0 <= j < i + 1 && #[trigger] keys@[j] == x && before[x].expired(
                        now,
                    )) by {
                if closed@.contains(x) {
                    let p = choose|p: int| 0 <= p < closed@.len() && closed@[p] == x;
                    if p < prev.len() {
                        assert(prev[p] == x);
                        assert(prev.contains(x));
                    } else {
                        assert(keys@[i as int] == x);
                    }
                }
                if exists|j: int|
                    0 <= j < i + 1 && #[trigger] keys@[j] == x && before[x].expired(now) {
                    let j = choose|j: int|
                        0 <= j < i + 1 && #[trigger] keys@[j] == x && before[x].expired(
                            now,
                        );
                    if j < i {
                        assert(prev.contains(x));
                        let p = choose|p: int| 0 <= p < prev.len() && prev[p] == x;
                        assert(closed@[p] == x);
                    } else {
                        assert(closed@[prev.len() as int] == x);
                    }
                }
            }
        } else {
            assert forall|x: usize| #[trigger]
                closed@.contains(x) <==> (exists|j: int|
                    0 <= j < i + 1 && #[trigger] keys@[j] == x && before[x].expired(
                        now,
                    )) by {
                if exists|j: int|
                    0 <= j < i + 1 && #[trigger] keys@[j] == x && before[x].expired(now) {
                    let j = choose|j: int|
                        0 <= j < i + 1 && #[trigger] keys@[j] == x && before[x].expired(
                            now,
                        );
                    assert(j < i);
                }
            }
        }
        i = i + 1;
    }
    proof {
        assert forall|k: usize|
            map@.contains_key(k) <==> (#[trigger] before.contains_key(k)
                && !before[k].expired(now)) by {
            if before.contains_key(k) {
                assert(keys@.to_set().contains(k));
                let j = choose|j: int| 0 <= j < keys@.len() && keys@[j] == k;
                assert(keys@[j] == k);
            }
        }
        assert(map@ =~= spec_kept(old(map)@, now));
        assert forall|x: usize|
            closed@.to_set().contains(x) <==> spec_expired(old(map)@, now).contains(x) by {
            if spec_expired(old(map)@, now).contains(x) {
                assert(keys@.to_set().contains(x));
                let j = choose|j: int| 0 <= j < keys@.len() && keys@[j] == x;
                assert(keys@[j] == x);
            }
        }
        assert(closed@.to_set() =~= spec_expired(old(map)@, now));
    }
    closed
}

} // verus!
