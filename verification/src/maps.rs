//! The three protocols for maps from numbers to values. The keys of the
//! intermediate value are the numbers written in decimal.
use std::collections::HashMap;
use vstd::prelude::*;
use vstd::std_specs::hash::*;
use crate::deserialize::Deserialize;
use crate::error::{Error, ErrorView};
use crate::intermediate::{Intermediate, Value};
use crate::object::{distinct_keys, insert_entry, Object};
use crate::update::Update;
use crate::serialize::Serialize;
use crate::text::{decimal, parse_u64, parsed_u64, str_eq, u64_to_decimal};

verus! {

broadcast use vstd::std_specs::hash::group_hash_axioms;

/// The number that a key of the intermediate value stands for: the key is
/// the number written in decimal, without sign and without leading zeros.
pub open spec fn key_of(key: Seq<char>) -> Option<u64> {
    match parsed_u64(key) {
        Ok(n) => if decimal(n as nat) == key {
            Some(n)
        } else {
            None
        },
        Err(_) => None,
    }
}

/// Read a key of the intermediate value as a number.
pub fn parse_key(key: &str) -> (r: Option<u64>)
    ensures
        r == key_of(key@),
{
    match parse_u64(key) {
        Ok(n) => {
            let written = u64_to_decimal(n);
            if str_eq(written.as_str(), key) {
                Some(n)
            } else {
                None
            }
        },
        Err(_) => None,
    }
}

/// The pairs of a map in the order in which the map hands them out.
pub open spec fn pairs_of<V>(m: &HashMap<u64, V>) -> Seq<(u64, V)> {
    into_iter(spec_hash_map_iter(m))
}

/// The entries that the first `n` pairs are serialized to, up to the first
/// value that fails.
pub open spec fn pairs_serialized<V: Serialize>(pairs: Seq<(u64, V)>, n: nat) -> Result<
    Seq<(Seq<char>, Value)>,
    ErrorView,
>
    decreases n,
{
    if n == 0 || n > pairs.len() {
        Ok(Seq::empty())
    } else {
        match pairs_serialized(pairs, (n - 1) as nat) {
            Err(e) => Err(e),
            Ok(entries) => match pairs[n - 1].1.serialized() {
                Err(e) => Err(e),
                Ok(v) => Ok(insert_entry(entries, decimal(pairs[n - 1].0 as nat), v)),
            },
        }
    }
}

/// Once a value has failed, its error stays.
pub proof fn lemma_pairs_serialized_failed<V: Serialize>(pairs: Seq<(u64, V)>, at: nat, n: nat)
    requires
        pairs_serialized(pairs, at) is Err,
        at <= n <= pairs.len(),
    ensures
        pairs_serialized(pairs, n) == pairs_serialized(pairs, at),
    decreases n,
{
    if n > at {
        lemma_pairs_serialized_failed(pairs, at, (n - 1) as nat);
    }
}

impl<V> Serialize for HashMap<u64, V> where V: Serialize {
    open spec fn serialized(&self) -> Result<Value, ErrorView> {
        match pairs_serialized(pairs_of(self), pairs_of(self).len()) {
            Ok(entries) => Ok(Value::Object(entries)),
            Err(e) => Err(e),
        }
    }

    fn serialize(&self) -> (r: Result<Intermediate, Error>) {
        let mut res = Object::with_capacity(self.len());
        let ghost pairs = pairs_of(self);
        for pair in it: self.iter()
            invariant
                pairs == pairs_of(self),
                it.seq().unref() == pairs,
                pairs_serialized(pairs, it.index() as nat) == Ok::<
                    Seq<(Seq<char>, Value)>,
                    ErrorView,
                >(res@),
        {
            let (k, v) = pair;
            let ghost at = it.index();
            proof {
                assert(pairs[at] == (*k, *v));
            }
            match v.serialize() {
                Ok(value) => {
                    res.insert_with_owned_key(u64_to_decimal(*k), value);
                },
                Err(e) => {
                    proof {
                        lemma_pairs_serialized_failed(pairs, (at + 1) as nat, pairs.len());
                    }
                    return Err(e);
                },
            }
        }
        Ok(Intermediate::Object(res))
    }
}

/// The error of making an entry of a map from an entry of the
/// intermediate value: the key is no number, or the value fails.
pub open spec fn entry_error<V: Deserialize>(entry: (Seq<char>, Value)) -> Option<ErrorView> {
    match key_of(entry.0) {
        None => Some(ErrorView::InvalidKey(entry.0)),
        Some(_) => V::deserialize_error(entry.1),
    }
}

/// The error of the first of the first `n` entries that fails.
pub open spec fn entries_error<V: Deserialize>(entries: Seq<(Seq<char>, Value)>, n: nat) -> Option<
    ErrorView,
>
    decreases n,
{
    if n == 0 || n > entries.len() {
        None
    } else {
        match entries_error::<V>(entries, (n - 1) as nat) {
            Some(e) => Some(e),
            None => entry_error::<V>(entries[n - 1]),
        }
    }
}

/// The place of the last of the first `n` entries whose key stands for the
/// number `k`.
pub open spec fn entry_for(entries: Seq<(Seq<char>, Value)>, n: nat, k: u64) -> Option<int>
    decreases n,
{
    if n == 0 || n > entries.len() {
        None
    } else if key_of(entries[n - 1].0) == Some(k) {
        Some(n - 1)
    } else {
        entry_for(entries, (n - 1) as nat, k)
    }
}

/// Where an entry stands for a number, it is one of the entries, and its
/// key stands for the number.
pub proof fn lemma_entry_for(entries: Seq<(Seq<char>, Value)>, n: nat, k: u64)
    requires
        n <= entries.len(),
    ensures
        match entry_for(entries, n, k) {
            Some(j) => 0 <= j < n && key_of(entries[j].0) == Some(k),
            None => forall|j: int| 0 <= j < n ==> key_of(#[trigger] entries[j].0) != Some(k),
        },
    decreases n,
{
    if n > 0 {
        lemma_entry_for(entries, (n - 1) as nat, k);
    }
}

/// Once an entry has failed, its error stays.
pub proof fn lemma_entries_error<V: Deserialize>(entries: Seq<(Seq<char>, Value)>, at: nat, n: nat)
    requires
        entries_error::<V>(entries, at) is Some,
        at <= n <= entries.len(),
    ensures
        entries_error::<V>(entries, n) == entries_error::<V>(entries, at),
    decreases n,
{
    if n > at {
        lemma_entries_error::<V>(entries, at, (n - 1) as nat);
    }
}

/// The error that names a key that is no number.
fn invalid_key(key: &str) -> (r: Error)
    ensures
        r@ == ErrorView::InvalidKey(key@),
{
    Error::InvalidKey(key.to_owned())
}

impl<V> Deserialize for HashMap<u64, V> where V: Deserialize {
    open spec fn deserialize_error(val: Value) -> Option<ErrorView> {
        match val {
            Value::Object(entries) => entries_error::<V>(entries, entries.len()),
            _ => Some(ErrorView::InvalidValue("map"@)),
        }
    }

    open spec fn deserializes_to(val: Value, out: Self) -> bool {
        val is Object && forall|k: u64|
            match #[trigger] entry_for(val->Object_0, val->Object_0.len(), k) {
                Some(j) => out@.contains_key(k) && V::deserializes_to(val->Object_0[j].1, out@[k]),
                None => !out@.contains_key(k),
            }
    }

    fn deserialize(val: &Intermediate) -> (r: Result<Self, Error>) {
        let map = match val.as_map() {
            Some(map) => map,
            None => {
                return Err(Error::invalid_value_static("map"));
            },
        };
        let ghost entries = map@;
        let mut res: HashMap<u64, V> = HashMap::with_capacity(map.len());
        let mut i: usize = 0;
        while i < map.len()
            invariant
                i <= entries.len(),
                entries == map@,
                val@ == Value::Object(entries),
                entries_error::<V>(entries, i as nat) is None,
                forall|k: u64|
                    match #[trigger] entry_for(entries, i as nat, k) {
                        Some(j) => res@.contains_key(k) && V::deserializes_to(
                            entries[j].1,
                            res@[k],
                        ),
                        None => !res@.contains_key(k),
                    },
            decreases entries.len() - i,
        {
            match map.get_index(i) {
                Some((name, value)) => {
                    let key = match parse_key(name.as_str()) {
                        Some(key) => key,
                        None => {
                            proof {
                                lemma_entries_error::<V>(entries, (i + 1) as nat, entries.len());
                            }
                            return Err(invalid_key(name.as_str()));
                        },
                    };
                    let item = match V::deserialize(value) {
                        Ok(item) => item,
                        Err(e) => {
                            proof {
                                lemma_entries_error::<V>(entries, (i + 1) as nat, entries.len());
                            }
                            return Err(e);
                        },
                    };
                    let ghost before = res@;
                    let _ = res.insert(key, item);
                    proof {
                        assert forall|k: u64|
                            match #[trigger] entry_for(entries, (i + 1) as nat, k) {
                                Some(j) => res@.contains_key(k) && V::deserializes_to(
                                    entries[j].1,
                                    res@[k],
                                ),
                                None => !res@.contains_key(k),
                            } by {
                            if k != key {
                                assert(entry_for(entries, (i + 1) as nat, k) == entry_for(
                                    entries,
                                    i as nat,
                                    k,
                                ));
                            }
                        }
                    }
                },
                None => {},
            }
            i += 1;
        }
        Ok(res)
    }
}

/// The error of merging an entry of the intermediate value into a map: the
/// key is no number, the value of the key fails to be updated, or a new
/// value fails to be deserialized.
pub open spec fn entry_update_error<V: Update>(cur: Map<u64, V>, entry: (Seq<char>, Value)) -> Option<
    ErrorView,
> {
    match key_of(entry.0) {
        None => Some(ErrorView::InvalidKey(entry.0)),
        Some(k) => if cur.contains_key(k) {
            cur[k].update_error(entry.1)
        } else {
            V::deserialize_error(entry.1)
        },
    }
}

/// How many of the first `n` entries are merged before the first error.
pub open spec fn entries_merged<V: Update>(
    cur: Map<u64, V>,
    entries: Seq<(Seq<char>, Value)>,
    n: nat,
) -> nat
    decreases n,
{
    if n == 0 || n > entries.len() {
        0
    } else {
        let before = entries_merged(cur, entries, (n - 1) as nat);
        if before == n - 1 && entry_update_error(cur, entries[n - 1]) is None {
            n
        } else {
            before
        }
    }
}

/// Once an entry fails, no later entry is merged.
pub proof fn lemma_entries_merged_stops<V: Update>(
    cur: Map<u64, V>,
    entries: Seq<(Seq<char>, Value)>,
    at: nat,
    n: nat,
)
    requires
        entries_merged(cur, entries, at) == at,
        entry_update_error(cur, entries[at as int]) is Some,
        at < n <= entries.len(),
    ensures
        entries_merged(cur, entries, n) == at,
    decreases n,
{
    if n > at + 1 {
        lemma_entries_merged_stops(cur, entries, at, (n - 1) as nat);
    }
}

/// Whether `out` is what merging the entries of the intermediate value
/// leaves of a map: the value of a key that an entry names, up to the first
/// entry that fails, is updated with the value of the entry, or made of it
/// where the map had no such key; the value of any other key is untouched,
/// and no key leaves the map.
pub open spec fn map_merges_to<V: Update>(
    cur: Map<u64, V>,
    entries: Seq<(Seq<char>, Value)>,
    out: Map<u64, V>,
) -> bool {
    let done = entries_merged(cur, entries, entries.len());
    forall|k: u64|
        match #[trigger] entry_for(entries, entries.len(), k) {
            Some(j) => if j < done {
                out.contains_key(k) && if cur.contains_key(k) {
                    cur[k].updates_to(entries[j].1, out[k])
                } else {
                    V::deserializes_to(entries[j].1, out[k])
                }
            } else if j == done && cur.contains_key(k) {
                out.contains_key(k) && cur[k].updates_to(entries[j].1, out[k])
            } else {
                out.contains_key(k) == cur.contains_key(k) && (cur.contains_key(k) ==> out[k]
                    == cur[k])
            },
            None => out.contains_key(k) == cur.contains_key(k) && (cur.contains_key(k) ==> out[k]
                == cur[k]),
        }
}

impl<V> Update for HashMap<u64, V> where V: Deserialize + Update {
    open spec fn update_error(&self, val: Value) -> Option<ErrorView> {
        match val {
            Value::Object(entries) => {
                let done = entries_merged(self@, entries, entries.len());
                if done < entries.len() {
                    entry_update_error(self@, entries[done as int])
                } else {
                    None
                }
            },
            _ => Some(ErrorView::InvalidValue("map"@)),
        }
    }

    open spec fn updates_to(&self, val: Value, out: Self) -> bool {
        match val {
            Value::Object(entries) => distinct_keys(entries) ==> map_merges_to(
                self@,
                entries,
                out@,
            ),
            _ => out@ == self@,
        }
    }

    fn update(&mut self, val: &Intermediate) -> (r: Result<(), Error>) {
        let map = match val.as_map() {
            Some(map) => map,
            None => {
                return Err(Error::invalid_value_static("map"));
            },
        };
        let ghost entries = map@;
        let ghost cur = self@;
        let mut i: usize = 0;
        while i < map.len()
            invariant
                i <= entries.len(),
                entries == map@,
                cur == old(self)@,
                val@ == Value::Object(entries),
                entries_merged(cur, entries, i as nat) == i,
                forall|k: u64|
                    match #[trigger] entry_for(entries, i as nat, k) {
                        Some(j) => self@.contains_key(k) && if cur.contains_key(k) {
                            cur[k].updates_to(entries[j].1, self@[k])
                        } else {
                            V::deserializes_to(entries[j].1, self@[k])
                        },
                        None => self@.contains_key(k) == cur.contains_key(k) && (cur.contains_key(
                            k,
                        ) ==> self@[k] == cur[k]),
                    },
            decreases entries.len() - i,
        {
            match map.get_index(i) {
                Some((name, value)) => {
                    let key = match parse_key(name.as_str()) {
                        Some(key) => key,
                        None => {
                            proof {
                                lemma_entries_merged_stops(cur, entries, i as nat, entries.len());
                                lemma_map_merge_stopped(cur, entries, i as nat, self@, None);
                            }
                            return Err(invalid_key(name.as_str()));
                        },
                    };
                    proof {
                        lemma_entry_for(entries, i as nat, key);
                        if entry_for(entries, i as nat, key) is Some {
                            let j = entry_for(entries, i as nat, key)->0;
                            assert(entries[j].0 == decimal(key as nat));
                            assert(entries[i as int].0 == decimal(key as nat));
                            assert(false);
                        }
                    }
                    let ghost before = self@;
                    match self.remove(&key) {
                        Some(mut inner) => {
                            let res = inner.update(value);
                            let _ = self.insert(key, inner);
                            proof {
                                assert(self@ =~= before.insert(key, inner));
                            }
                            match res {
                                Ok(_) => {},
                                Err(e) => {
                                    proof {
                                        lemma_entries_merged_stops(
                                            cur,
                                            entries,
                                            i as nat,
                                            entries.len(),
                                        );
                                        lemma_map_merge_stopped(
                                            cur,
                                            entries,
                                            i as nat,
                                            self@,
                                            Some(key),
                                        );
                                    }
                                    return Err(e);
                                },
                            }
                        },
                        None => {
                            match V::deserialize(value) {
                                Ok(item) => {
                                    let _ = self.insert(key, item);
                                },
                                Err(e) => {
                                    proof {
                                        assert(self@ =~= before);
                                        lemma_entries_merged_stops(
                                            cur,
                                            entries,
                                            i as nat,
                                            entries.len(),
                                        );
                                        lemma_map_merge_stopped(
                                            cur,
                                            entries,
                                            i as nat,
                                            self@,
                                            None,
                                        );
                                    }
                                    return Err(e);
                                },
                            }
                        },
                    }
                    proof {
                        assert forall|k: u64|
                            match #[trigger] entry_for(entries, (i + 1) as nat, k) {
                                Some(j) => self@.contains_key(k) && if cur.contains_key(k) {
                                    cur[k].updates_to(entries[j].1, self@[k])
                                } else {
                                    V::deserializes_to(entries[j].1, self@[k])
                                },
                                None => self@.contains_key(k) == cur.contains_key(k) && (
                                cur.contains_key(k) ==> self@[k] == cur[k]),
                            } by {
                            if k != key {
                                assert(entry_for(entries, (i + 1) as nat, k) == entry_for(
                                    entries,
                                    i as nat,
                                    k,
                                ));
                            }
                        }
                    }
                },
                None => {},
            }
            i += 1;
        }
        proof {
            lemma_map_merge_done(cur, entries, self@);
        }
        Ok(())
    }
}

/// Two keys that stand for one number are one key.
pub proof fn lemma_key_of_injective(a: Seq<char>, b: Seq<char>)
    requires
        key_of(a) is Some,
        key_of(a) == key_of(b),
    ensures
        a == b,
{
}

/// With keys that are distinct, at most one entry stands for a number.
pub proof fn lemma_entry_for_unique(entries: Seq<(Seq<char>, Value)>, n: nat, k: u64, j: int)
    requires
        distinct_keys(entries),
        n <= entries.len(),
        0 <= j < entries.len(),
        key_of(entries[j].0) == Some(k),
    ensures
        entry_for(entries, n, k) == if j < n {
            Some(j)
        } else {
            None::<int>
        },
    decreases n,
{
    if n > 0 {
        lemma_entry_for_unique(entries, (n - 1) as nat, k, j);
        if key_of(entries[n - 1].0) == Some(k) {
            lemma_key_of_injective(entries[n - 1].0, entries[j].0);
        }
    }
}

/// The map after every entry was merged is what merging the entries leaves.
proof fn lemma_map_merge_done<V: Update>(
    cur: Map<u64, V>,
    entries: Seq<(Seq<char>, Value)>,
    out: Map<u64, V>,
)
    requires
        entries_merged(cur, entries, entries.len()) == entries.len(),
        forall|k: u64|
            match #[trigger] entry_for(entries, entries.len(), k) {
                Some(j) => out.contains_key(k) && if cur.contains_key(k) {
                    cur[k].updates_to(entries[j].1, out[k])
                } else {
                    V::deserializes_to(entries[j].1, out[k])
                },
                None => out.contains_key(k) == cur.contains_key(k) && (cur.contains_key(k)
                    ==> out[k] == cur[k]),
            },
    ensures
        map_merges_to(cur, entries, out),
{
    assert forall|k: u64|
        match #[trigger] entry_for(entries, entries.len(), k) {
            Some(j) => j < entries.len(),
            None => true,
        } by {
        lemma_entry_for(entries, entries.len(), k);
    }
}

/// The map at the entry that failed is what merging the entries leaves:
/// `touched` is the key whose value the failed update has left as it is
/// now, if the entry got that far.
proof fn lemma_map_merge_stopped<V: Update>(
    cur: Map<u64, V>,
    entries: Seq<(Seq<char>, Value)>,
    at: nat,
    out: Map<u64, V>,
    touched: Option<u64>,
)
    requires
        at < entries.len(),
        entries_merged(cur, entries, entries.len()) == at,
        match touched {
            Some(key) => key_of(entries[at as int].0) == Some(key) && cur.contains_key(key)
                && out.contains_key(key) && cur[key].updates_to(entries[at as int].1, out[key]),
            None => match key_of(entries[at as int].0) {
                Some(key) => !cur.contains_key(key) && !out.contains_key(key),
                None => true,
            },
        },
        forall|k: u64|
            touched != Some(k) ==> match #[trigger] entry_for(entries, at, k) {
                Some(j) => out.contains_key(k) && if cur.contains_key(k) {
                    cur[k].updates_to(entries[j].1, out[k])
                } else {
                    V::deserializes_to(entries[j].1, out[k])
                },
                None => out.contains_key(k) == cur.contains_key(k) && (cur.contains_key(k)
                    ==> out[k] == cur[k]),
            },
    ensures
        distinct_keys(entries) ==> map_merges_to(cur, entries, out),
{
    if distinct_keys(entries) {
        assert forall|k: u64|
            match #[trigger] entry_for(entries, entries.len(), k) {
                Some(j) => if j < at {
                    out.contains_key(k) && if cur.contains_key(k) {
                        cur[k].updates_to(entries[j].1, out[k])
                    } else {
                        V::deserializes_to(entries[j].1, out[k])
                    }
                } else if j == at && cur.contains_key(k) {
                    out.contains_key(k) && cur[k].updates_to(entries[j].1, out[k])
                } else {
                    out.contains_key(k) == cur.contains_key(k) && (cur.contains_key(k) ==> out[k]
                        == cur[k])
                },
                None => out.contains_key(k) == cur.contains_key(k) && (cur.contains_key(k)
                    ==> out[k] == cur[k]),
            } by {
            lemma_entry_for(entries, entries.len(), k);
            lemma_entry_for(entries, at, k);
            match entry_for(entries, entries.len(), k) {
                Some(j) => {
                    lemma_entry_for_unique(entries, at, k, j);
                },
                None => {},
            }
        }
    }
}

} // verus!
