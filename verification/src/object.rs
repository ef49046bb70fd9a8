//! The object of the intermediate value: string keys, each once, in the
//! order in which they were first inserted.
use vstd::prelude::*;
use crate::intermediate::{clone_value, Intermediate, Value};

verus! {

/// Map from string keys to `Intermediate` values.
///
/// The entries are kept in the order in which their keys were first
/// inserted. They are held by an `indexmap::IndexMap`, which nothing here
/// looks into: what it holds goes by the name [`object_entries`], and the
/// functions at the end of this file say what each method of the map that
/// is called does to that.
#[verifier::external_body]
#[derive(Debug)]
pub struct Object {
    inner: indexmap::IndexMap<String, Intermediate>,
}

/// The entries that the `IndexMap` of an object holds, in their order: each
/// key with what its value stands for.
pub uninterp spec fn object_entries(m: Object) -> Seq<(Seq<char>, Value)>;

impl View for Object {
    type V = Seq<(Seq<char>, Value)>;

    open spec fn view(&self) -> Seq<(Seq<char>, Value)> {
        object_entries(*self)
    }
}

/// Whether no key occurs twice.
pub open spec fn distinct_keys(entries: Seq<(Seq<char>, Value)>) -> bool {
    forall|i: int, j: int|
        0 <= i < entries.len() && 0 <= j < entries.len() && i != j ==> entries[i].0 != entries[j].0
}

/// The place of the first entry with the given key.
pub open spec fn position(entries: Seq<(Seq<char>, Value)>, key: Seq<char>) -> Option<int>
    decreases entries.len(),
{
    if entries.len() == 0 {
        None
    } else {
        match position(entries.drop_last(), key) {
            Some(i) => Some(i),
            None => if entries.last().0 == key {
                Some(entries.len() - 1)
            } else {
                None
            },
        }
    }
}

/// The value of the first entry with the given key.
pub open spec fn lookup(entries: Seq<(Seq<char>, Value)>, key: Seq<char>) -> Option<Value> {
    match position(entries, key) {
        Some(i) => Some(entries[i].1),
        None => None,
    }
}

/// The entries after `key` was set to `value`: an entry that has the key
/// keeps its place and takes the value, otherwise a new entry comes last.
pub open spec fn insert_entry(
    entries: Seq<(Seq<char>, Value)>,
    key: Seq<char>,
    value: Value,
) -> Seq<(Seq<char>, Value)> {
    match position(entries, key) {
        Some(i) => entries.update(i, (key, value)),
        None => entries.push((key, value)),
    }
}

/// What `position` finds: the first place that holds the key, if any does.
pub proof fn lemma_position(entries: Seq<(Seq<char>, Value)>, key: Seq<char>)
    ensures
        match position(entries, key) {
            Some(i) => 0 <= i < entries.len() && entries[i].0 == key && forall|j: int|
                0 <= j < i ==> entries[j].0 != key,
            None => forall|j: int| 0 <= j < entries.len() ==> entries[j].0 != key,
        },
    decreases entries.len(),
{
    if entries.len() > 0 {
        let prev = entries.drop_last();
        lemma_position(prev, key);
        assert forall|j: int| 0 <= j < prev.len() implies prev[j] == entries[j] by {}
        match position(prev, key) {
            Some(i) => {
                assert(prev[i] == entries[i]);
                assert forall|j: int| 0 <= j < i implies entries[j].0 != key by {
                    assert(prev[j] == entries[j]);
                }
            },
            None => {
                assert forall|j: int| 0 <= j < entries.len() - 1 implies entries[j].0 != key by {
                    assert(prev[j] == entries[j]);
                }
            },
        }
    }
}

/// The first place that holds the key is what `position` finds.
pub proof fn lemma_position_is(entries: Seq<(Seq<char>, Value)>, key: Seq<char>, at: Option<int>)
    requires
        match at {
            Some(i) => 0 <= i < entries.len() && entries[i].0 == key && forall|j: int|
                0 <= j < i ==> entries[j].0 != key,
            None => forall|j: int| 0 <= j < entries.len() ==> entries[j].0 != key,
        },
    ensures
        position(entries, key) == at,
{
    lemma_position(entries, key);
}

/// Setting a key keeps the keys distinct, gives the key its value and
/// leaves the value of every other key as it was.
pub proof fn lemma_insert_entry(entries: Seq<(Seq<char>, Value)>, key: Seq<char>, value: Value)
    requires
        distinct_keys(entries),
    ensures
        distinct_keys(insert_entry(entries, key, value)),
        lookup(insert_entry(entries, key, value), key) == Some(value),
        forall|other: Seq<char>|
            other != key ==> lookup(insert_entry(entries, key, value), other) == lookup(
                entries,
                other,
            ),
{
    let after = insert_entry(entries, key, value);
    lemma_position(entries, key);
    match position(entries, key) {
        Some(i) => {
            assert forall|j: int| 0 <= j < after.len() implies after[j].0 == entries[j].0 by {}
            lemma_position_is(after, key, Some(i));
            assert forall|other: Seq<char>| other != key implies lookup(after, other) == lookup(
                entries,
                other,
            ) by {
                lemma_position(entries, other);
                let at = position(entries, other);
                match at {
                    Some(k) => {
                        assert(after[k].0 == entries[k].0);
                        assert forall|j: int| 0 <= j < k implies after[j].0 != other by {
                            assert(after[j].0 == entries[j].0);
                        }
                    },
                    None => {
                        assert forall|j: int| 0 <= j < after.len() implies after[j].0 != other by {
                            assert(after[j].0 == entries[j].0);
                        }
                    },
                }
                lemma_position_is(after, other, at);
            }
            assert forall|a: int, b: int|
                0 <= a < after.len() && 0 <= b < after.len() && a != b implies after[a].0
                != after[b].0 by {
                assert(after[a].0 == entries[a].0);
                assert(after[b].0 == entries[b].0);
            }
        },
        None => {
            assert(after.drop_last() =~= entries);
            assert forall|other: Seq<char>| other != key implies lookup(after, other) == lookup(
                entries,
                other,
            ) by {
                lemma_position(entries, other);
            }
            assert forall|a: int, b: int|
                0 <= a < after.len() && 0 <= b < after.len() && a != b implies after[a].0
                != after[b].0 by {
                if a < entries.len() {
                    assert(after[a] == entries[a]);
                }
                if b < entries.len() {
                    assert(after[b] == entries[b]);
                }
            }
        },
    }
}

impl Object {
    /// Create a new map.
    pub fn new() -> (r: Self)
        ensures
            r@ == Seq::<(Seq<char>, Value)>::empty(),
    {
        map_new()
    }

    /// Create a new map with room for a given number of entries.
    ///
    /// The capacity is a hint: where the room cannot be had, the map is
    /// empty all the same.
    pub fn with_capacity(capacity: usize) -> (r: Self)
        ensures
            r@ == Seq::<(Seq<char>, Value)>::empty(),
    {
        let mut map = map_new();
        let _ = map_try_reserve(&mut map, capacity);
        map
    }

    /// The number of entries.
    pub fn len(&self) -> (r: usize)
        ensures
            r == self@.len(),
    {
        map_len(self)
    }

    /// Whether the map has no entry.
    pub fn is_empty(&self) -> (r: bool)
        ensures
            r == (self@.len() == 0),
    {
        map_len(self) == 0
    }

    /// Get value associated with a given key.
    pub fn get(&self, key: &str) -> (r: Option<&Intermediate>)
        ensures
            match r {
                Some(v) => lookup(self@, key@) == Some(v@),
                None => lookup(self@, key@) is None,
            },
    {
        map_get(self, key)
    }

    /// The key and the value of the entry at a given place in the order of
    /// insertion. No other entry has the key.
    pub fn get_index(&self, index: usize) -> (r: Option<(&String, &Intermediate)>)
        ensures
            match r {
                Some(e) => index < self@.len() && e.0@ == self@[index as int].0 && e.1@
                    == self@[index as int].1 && forall|j: int|
                    0 <= j < self@.len() && j != index ==> (#[trigger] self@[j]).0 != e.0@,
                None => index >= self@.len(),
            },
    {
        map_get_index(self, index)
    }

    /// Get the value associated with a given key, to change it in place.
    pub fn get_mut(&mut self, key: &str) -> (r: Option<&mut Intermediate>)
        ensures
            match r {
                Some(v) => match position(old(self)@, key@) {
                    Some(i) => (*v)@ == old(self)@[i].1 && final(self)@ == old(self)@.update(
                        i,
                        (old(self)@[i].0, (*final(v))@),
                    ),
                    None => false,
                },
                None => position(old(self)@, key@) is None && final(self)@ == old(self)@,
            },
    {
        map_get_mut(self, key)
    }

    /// Set a key to a value, and get the value that the key had.
    pub fn insert(&mut self, key: String, value: Intermediate) -> (r: Option<Intermediate>)
        ensures
            final(self)@ == insert_entry(old(self)@, key@, value@),
            match r {
                Some(v) => lookup(old(self)@, key@) == Some(v@),
                None => lookup(old(self)@, key@) is None,
            },
    {
        map_insert(self, key, value)
    }

    /// Insert a given key-value pair into the map.
    pub fn insert_with_static_key(&mut self, key: &'static str, value: Intermediate)
        ensures
            final(self)@ == insert_entry(old(self)@, key@, value@),
    {
        let _ = self.insert(key.to_owned(), value);
    }

    /// Insert a given key-value pair into the map.
    pub fn insert_with_owned_key(&mut self, key: String, value: Intermediate)
        ensures
            final(self)@ == insert_entry(old(self)@, key@, value@),
    {
        let _ = self.insert(key, value);
    }
}

impl Default for Object {
    fn default() -> (r: Self)
        ensures
            r@ == Seq::<(Seq<char>, Value)>::empty(),
    {
        Object::new()
    }
}

/// A copy of an object, entry by entry.
pub fn clone_object(m: &Object) -> (r: Object)
    ensures
        r@ == m@,
    decreases m@,
{
    let mut out = Object::with_capacity(m.len());
    let mut i: usize = 0;
    while i < m.len()
        invariant
            i <= m@.len(),
            out@ == m@.subrange(0, i as int),
        decreases m@.len() - i,
    {
        match m.get_index(i) {
            Some((key, value)) => {
                proof {
                    assert(decreases_to!(m@ => m@[i as int]));
                    assert(decreases_to!(m@[i as int] => m@[i as int].1));
                    lemma_position(out@, key@);
                    if position(out@, key@) is Some {
                        let at = position(out@, key@)->0;
                        assert(out@[at] == m@[at]);
                    }
                    assert(m@.subrange(0, i as int).push(m@[i as int]) =~= m@.subrange(
                        0,
                        i + 1,
                    ));
                }
                let copy = clone_value(value);
                let _ = out.insert(key.clone(), copy);
            },
            None => {},
        }
        i += 1;
    }
    proof {
        assert(m@.subrange(0, m@.len() as int) =~= m@);
    }
    out
}

impl Clone for Object {
    fn clone(&self) -> (r: Self)
        ensures
            r@ == self@,
    {
        clone_object(self)
    }
}

/// `IndexMap::new`: a map without entries.
#[verifier::external_body]
fn map_new() -> (r: Object)
    ensures
        object_entries(r) == Seq::<(Seq<char>, Value)>::empty(),
{
    Object { inner: indexmap::IndexMap::new() }
}

/// `IndexMap::try_reserve`: asks for room for more entries and changes none
/// of them; the answer says whether the room was had.
#[verifier::external_body]
fn map_try_reserve(m: &mut Object, additional: usize) -> (r: bool)
    ensures
        object_entries(*final(m)) == object_entries(*old(m)),
{
    m.inner.try_reserve(additional).is_ok()
}

/// `IndexMap::len`: the number of entries.
#[verifier::external_body]
fn map_len(m: &Object) -> (r: usize)
    ensures
        r == object_entries(*m).len(),
{
    m.inner.len()
}

/// `IndexMap::get`: the value of the entry with the given key, if there is
/// one.
#[verifier::external_body]
fn map_get<'a>(m: &'a Object, key: &str) -> (r: Option<&'a Intermediate>)
    ensures
        match r {
            Some(v) => lookup(object_entries(*m), key@) == Some(v@),
            None => lookup(object_entries(*m), key@) is None,
        },
{
    m.inner.get(key)
}

/// `IndexMap::get_index`: the entry at a place in the order, if the place is
/// below the number of entries. As the map holds each key once, no other
/// entry has the key of this one.
#[verifier::external_body]
fn map_get_index<'a>(m: &'a Object, index: usize) -> (r: Option<(&'a String, &'a Intermediate)>)
    ensures
        match r {
            Some(e) => index < object_entries(*m).len() && e.0@ == object_entries(
                *m,
            )[index as int].0 && e.1@ == object_entries(*m)[index as int].1 && forall|j: int|
                0 <= j < object_entries(*m).len() && j != index ==> (#[trigger] object_entries(
                    *m,
                )[j]).0 != e.0@,
            None => index >= object_entries(*m).len(),
        },
{
    m.inner.get_index(index)
}

/// `IndexMap::get_mut`: the value of the entry with the given key, to be
/// changed in place, if there is such an entry; no other entry changes, and
/// the entry keeps its key and its place.
#[verifier::external_body]
fn map_get_mut<'a>(m: &'a mut Object, key: &str) -> (r: Option<&'a mut Intermediate>)
    ensures
        match r {
            Some(v) => match position(object_entries(*old(m)), key@) {
                Some(i) => (*v)@ == object_entries(*old(m))[i].1 && object_entries(*final(m))
                    == object_entries(*old(m)).update(
                    i,
                    (object_entries(*old(m))[i].0, (*final(v))@),
                ),
                None => false,
            },
            None => position(object_entries(*old(m)), key@) is None && object_entries(*final(m))
                == object_entries(*old(m)),
        },
{
    m.inner.get_mut(key)
}

/// `IndexMap::insert`: where the key is there, its entry keeps its place
/// and takes the value, and the old value is returned; where it is not, a
/// new entry comes last and nothing is returned.
#[verifier::external_body]
fn map_insert(m: &mut Object, key: String, value: Intermediate) -> (r: Option<Intermediate>)
    ensures
        object_entries(*final(m)) == insert_entry(object_entries(*old(m)), key@, value@),
        match r {
            Some(v) => lookup(object_entries(*old(m)), key@) == Some(v@),
            None => lookup(object_entries(*old(m)), key@) is None,
        },
{
    m.inner.insert(key, value)
}

} // verus!
