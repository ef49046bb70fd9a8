//! What holds of the protocols together.
use std::rc::Rc;
use std::sync::Arc;
use vstd::prelude::*;
use std::collections::HashMap;
use crate::deserialize::{first_item_error, items_deserialize_to, Deserialize};
use crate::enums::{
    content_of, externally_tagged, field_error, find_variant, selected_externally,
    selected_internally,
};
use crate::error::ErrorView;
use crate::intermediate::{merge, merge_objects, Intermediate, Value};
use crate::maps::{
    entries_error, entry_error, entry_for, key_of, lemma_entry_for, lemma_pairs_serialized_failed,
    pairs_of, pairs_serialized,
};
use crate::text::{decimal, lemma_decimal_injective, lemma_parse_decimal};
use crate::object::{
    distinct_keys, insert_entry, lemma_insert_entry, lemma_position, lemma_position_is, lookup,
    position,
};
use crate::structs::insert_all;
use crate::update::{merged, slot_error, Update};
use crate::serialize::{item_values, lemma_item_errors, serialized_items, Serialize};

verus! {

/// A type whose values come back from what they are serialized to.
pub trait RoundTrip: Serialize + Deserialize {
    /// Whether nothing of the value is lost in what it is serialized to.
    /// This fails only of an optional value whose content is serialized
    /// like no value at all.
    spec fn lossless(&self) -> bool;

    /// What a value is serialized to is deserialized without an error, and
    /// to the value.
    proof fn round_trip(&self)
        requires
            self.lossless(),
            self.serialized() is Ok,
        ensures
            Self::deserialize_error(self.serialized()->Ok_0) is None,
            Self::deserializes_to(self.serialized()->Ok_0, *self),
    ;
}

impl RoundTrip for bool {
    open spec fn lossless(&self) -> bool {
        true
    }

    proof fn round_trip(&self) {
    }
}

impl RoundTrip for i8 {
    open spec fn lossless(&self) -> bool {
        true
    }

    proof fn round_trip(&self) {
    }
}

impl RoundTrip for i16 {
    open spec fn lossless(&self) -> bool {
        true
    }

    proof fn round_trip(&self) {
    }
}

impl RoundTrip for i32 {
    open spec fn lossless(&self) -> bool {
        true
    }

    proof fn round_trip(&self) {
    }
}

impl RoundTrip for i64 {
    open spec fn lossless(&self) -> bool {
        true
    }

    proof fn round_trip(&self) {
    }
}

impl RoundTrip for i128 {
    open spec fn lossless(&self) -> bool {
        true
    }

    proof fn round_trip(&self) {
    }
}

impl RoundTrip for isize {
    open spec fn lossless(&self) -> bool {
        true
    }

    proof fn round_trip(&self) {
    }
}

impl RoundTrip for u8 {
    open spec fn lossless(&self) -> bool {
        true
    }

    proof fn round_trip(&self) {
    }
}

impl RoundTrip for u16 {
    open spec fn lossless(&self) -> bool {
        true
    }

    proof fn round_trip(&self) {
    }
}

impl RoundTrip for u32 {
    open spec fn lossless(&self) -> bool {
        true
    }

    proof fn round_trip(&self) {
    }
}

impl RoundTrip for u64 {
    open spec fn lossless(&self) -> bool {
        true
    }

    proof fn round_trip(&self) {
    }
}

impl RoundTrip for u128 {
    open spec fn lossless(&self) -> bool {
        true
    }

    proof fn round_trip(&self) {
    }
}

impl RoundTrip for usize {
    open spec fn lossless(&self) -> bool {
        true
    }

    proof fn round_trip(&self) {
    }
}

impl RoundTrip for char {
    open spec fn lossless(&self) -> bool {
        true
    }

    proof fn round_trip(&self) {
    }
}

impl RoundTrip for String {
    open spec fn lossless(&self) -> bool {
        true
    }

    proof fn round_trip(&self) {
    }
}

impl RoundTrip for () {
    open spec fn lossless(&self) -> bool {
        true
    }

    proof fn round_trip(&self) {
    }
}

impl RoundTrip for Intermediate {
    open spec fn lossless(&self) -> bool {
        true
    }

    proof fn round_trip(&self) {
    }
}

impl RoundTrip for crate::object::Object {
    open spec fn lossless(&self) -> bool {
        true
    }

    proof fn round_trip(&self) {
    }
}

impl<T: RoundTrip> RoundTrip for Option<T> {
    open spec fn lossless(&self) -> bool {
        match self {
            Some(inner) => inner.lossless() && inner.serialized() != Ok::<Value, ErrorView>(
                Value::Null,
            ),
            None => true,
        }
    }

    proof fn round_trip(&self) {
        match self {
            Some(inner) => {
                inner.round_trip();
            },
            None => {},
        }
    }
}

/// Where every value deserializes, there is no first error.
pub proof fn lemma_no_item_error<T: Deserialize>(items: Seq<Value>)
    requires
        forall|i: int| 0 <= i < items.len() ==> T::deserialize_error(#[trigger] items[i]) is None,
    ensures
        first_item_error::<T>(items) is None,
    decreases items.len(),
{
    if items.len() > 0 {
        assert forall|i: int| 0 <= i < items.len() - 1 implies T::deserialize_error(
            #[trigger] items.drop_last()[i],
        ) is None by {
            assert(items.drop_last()[i] == items[i]);
        }
        lemma_no_item_error::<T>(items.drop_last());
        assert(items.last() == items[items.len() - 1]);
    }
}

/// The items of a sequence come back from what the sequence is serialized
/// to.
pub proof fn lemma_items_round_trip<T: RoundTrip>(items: Seq<T>)
    requires
        forall|i: int| 0 <= i < items.len() ==> (#[trigger] items[i]).lossless(),
        serialized_items(items) is Ok,
    ensures
        serialized_items(items) == Ok::<Value, ErrorView>(Value::Array(item_values(items))),
        item_values(items).len() == items.len(),
        first_item_error::<T>(item_values(items)) is None,
        items_deserialize_to(item_values(items), items),
{
    lemma_item_errors(items);
    let values = item_values(items);
    assert forall|i: int| 0 <= i < items.len() implies T::deserialize_error(
        #[trigger] values[i],
    ) is None && T::deserializes_to(values[i], items[i]) by {
        assert(items[i].serialized() is Ok);
        items[i].round_trip();
    }
    lemma_no_item_error::<T>(values);
}

impl<T: RoundTrip> RoundTrip for Vec<T> {
    open spec fn lossless(&self) -> bool {
        forall|i: int| 0 <= i < self@.len() ==> (#[trigger] self@[i]).lossless()
    }

    proof fn round_trip(&self) {
        lemma_items_round_trip(self@);
    }
}

impl<T: RoundTrip, const N: usize> RoundTrip for [T; N] {
    open spec fn lossless(&self) -> bool {
        forall|i: int| 0 <= i < self@.len() ==> (#[trigger] self@[i]).lossless()
    }

    proof fn round_trip(&self) {
        lemma_items_round_trip(self@);
        assert(item_values(self@).subrange(0, N as int) =~= item_values(self@));
    }
}

impl<T: RoundTrip> RoundTrip for Box<T> {
    open spec fn lossless(&self) -> bool {
        (**self).lossless()
    }

    proof fn round_trip(&self) {
        (**self).round_trip();
    }
}

impl<T: RoundTrip> RoundTrip for Rc<T> {
    open spec fn lossless(&self) -> bool {
        (**self).lossless()
    }

    proof fn round_trip(&self) {
        (**self).round_trip();
    }
}

impl<T: RoundTrip> RoundTrip for Arc<T> {
    open spec fn lossless(&self) -> bool {
        (**self).lossless()
    }

    proof fn round_trip(&self) {
        (**self).round_trip();
    }
}

/// Where the merging stops before the last value, the value at which it
/// stops is one that fails.
pub proof fn lemma_merged_error<T: Update>(cur: Seq<T>, items: Seq<Value>, n: nat)
    ensures
        merged(cur, items, n) <= n,
        merged(cur, items, n) < n ==> slot_error(cur, items, merged(cur, items, n) as int) is Some,
    decreases n,
{
    if n > 0 {
        lemma_merged_error(cur, items, (n - 1) as nat);
    }
}

/// Update of a sequence: after an update without error the sequence is as
/// long as the array that came in; each place that the sequence had, and
/// the array has, holds the old item updated with the value at the place,
/// and each place past the old end holds what the value at the place
/// deserializes to. So a longer sequence is cut, and a shorter one grows.
pub proof fn sequence_update_follows_the_array<T: Update>(cur: Vec<T>, items: Seq<Value>, out: Vec<T>)
    requires
        cur.updates_to(Value::Array(items), out),
        cur.update_error(Value::Array(items)) is None,
    ensures
        out@.len() == items.len(),
        forall|i: int|
            0 <= i < cur@.len() && i < items.len() ==> cur@[i].updates_to(
                items[i],
                #[trigger] out@[i],
            ),
        forall|i: int|
            cur@.len() <= i < items.len() ==> T::deserializes_to(items[i], #[trigger] out@[i]),
{
    lemma_merged_error(cur@, items, items.len());
}

/// Update of a map: no key leaves the map, and the value of a key that the
/// object that came in does not name is what it was.
pub proof fn map_update_keeps_untouched_keys<V: Update>(
    cur: HashMap<u64, V>,
    entries: Seq<(Seq<char>, Value)>,
    out: HashMap<u64, V>,
)
    requires
        distinct_keys(entries),
        cur.updates_to(Value::Object(entries), out),
    ensures
        forall|k: u64| cur@.contains_key(k) ==> #[trigger] out@.contains_key(k),
        forall|k: u64|
            cur@.contains_key(k) && (forall|j: int|
                0 <= j < entries.len() ==> key_of(#[trigger] entries[j].0) != Some(k))
                ==> #[trigger] out@[k] == cur@[k],
{
    assert forall|k: u64| cur@.contains_key(k) implies #[trigger] out@.contains_key(k) by {
        let _ = entry_for(entries, entries.len(), k);
    }
    assert forall|k: u64|
        cur@.contains_key(k) && (forall|j: int|
            0 <= j < entries.len() ==> key_of(#[trigger] entries[j].0) != Some(k))
            implies #[trigger] out@[k] == cur@[k] by {
        lemma_entry_for(entries, entries.len(), k);
        let found = entry_for(entries, entries.len(), k);
        if found is Some {
            assert(key_of(entries[found->0].0) == Some(k));
        }
    }
}

/// The place of a key does not depend on the values.
pub proof fn lemma_position_by_keys(
    a: Seq<(Seq<char>, Value)>,
    b: Seq<(Seq<char>, Value)>,
    key: Seq<char>,
)
    requires
        a.len() == b.len(),
        forall|i: int| 0 <= i < a.len() ==> a[i].0 == b[i].0,
    ensures
        position(a, key) == position(b, key),
{
    lemma_position(a, key);
    let at = position(a, key);
    match at {
        Some(i) => {
            assert(b[i].0 == a[i].0);
            assert forall|j: int| 0 <= j < i implies b[j].0 != key by {
                assert(b[j].0 == a[j].0);
            }
        },
        None => {
            assert forall|j: int| 0 <= j < b.len() implies b[j].0 != key by {
                assert(b[j].0 == a[j].0);
            }
        },
    }
    lemma_position_is(b, key, at);
}

/// Merge of an object into an object: no key leaves the object, and the
/// value of a key that the object that came in does not have is what it
/// was.
pub proof fn lemma_merge_objects_keeps(
    a: Seq<(Seq<char>, Value)>,
    b: Seq<(Seq<char>, Value)>,
    n: nat,
    key: Seq<char>,
)
    requires
        n <= b.len(),
    ensures
        lookup(a, key) is Some ==> lookup(merge_objects(a, b, n), key) is Some,
        (forall|j: int| 0 <= j < n ==> (#[trigger] b[j]).0 != key) ==> lookup(
            merge_objects(a, b, n),
            key,
        ) == lookup(a, key),
    decreases n,
{
    if n > 0 {
        lemma_merge_objects_keeps(a, b, (n - 1) as nat, key);
        let acc = merge_objects(a, b, (n - 1) as nat);
        let entry = b[n - 1];
        let after = merge_objects(a, b, n);
        lemma_position(acc, entry.0);
        lemma_position(acc, key);
        match position(acc, entry.0) {
            Some(i) => {
                assert(after == acc.update(i, (acc[i].0, merge(acc[i].1, entry.1))));
                assert forall|j: int| 0 <= j < acc.len() implies acc[j].0 == after[j].0 by {}
                lemma_position_by_keys(acc, after, key);
                if entry.0 != key {
                    match position(acc, key) {
                        Some(k) => {
                            assert(k != i);
                            assert(after[k] == acc[k]);
                        },
                        None => {},
                    }
                }
            },
            None => {
                assert(after == acc.push(entry));
                assert(after.drop_last() =~= acc);
            },
        }
        if forall|j: int| 0 <= j < n ==> (#[trigger] b[j]).0 != key {
            assert(b[n - 1].0 != key);
            assert forall|j: int| 0 <= j < n - 1 implies (#[trigger] b[j]).0 != key by {}
        }
    }
}

/// Merge of a value into a value: where both are objects, no key leaves,
/// and the value of a key that the object that came in does not have is
/// what it was.
pub proof fn merge_keeps_untouched_keys(
    a: Seq<(Seq<char>, Value)>,
    b: Seq<(Seq<char>, Value)>,
    key: Seq<char>,
)
    ensures
        merge(Value::Object(a), Value::Object(b)) is Object,
        lookup(a, key) is Some ==> lookup(
            merge(Value::Object(a), Value::Object(b))->Object_0,
            key,
        ) is Some,
        lookup(b, key) is None ==> lookup(merge(Value::Object(a), Value::Object(b))->Object_0, key)
            == lookup(a, key),
{
    lemma_merge_objects_keeps(a, b, b.len(), key);
    lemma_position(b, key);
}

/// External tagging: a variant that is serialized is chosen again, with
/// its content. The name of the variant has to be the first of its kind
/// among the variants, and a variant that is serialized without content
/// has to be one that needs none.
pub proof fn external_tag_round_trip(
    variants: Seq<(Seq<char>, bool)>,
    index: int,
    content: Value,
)
    requires
        0 <= index < variants.len(),
        find_variant(variants, variants[index].0) == Some(index),
        content is Null ==> !variants[index].1,
    ensures
        selected_externally(variants, externally_tagged(variants[index].0, content)) == Ok::<
            (int, Option<Value>),
            ErrorView,
        >(
            (
                index,
                if content is Null {
                    None
                } else {
                    Some(content)
                },
            ),
        ),
{
}

/// Internal and adjacent tagging, where the map does not name the variant:
/// an update takes the variant that the object has, and making a new
/// object fails with the error of the missing field.
pub proof fn update_without_tag_keeps_the_variant(
    variants: Seq<(Seq<char>, bool)>,
    tag_field: Seq<char>,
    content_field: Option<Seq<char>>,
    entries: Seq<(Seq<char>, Value)>,
    current: Seq<char>,
)
    requires
        lookup(entries, tag_field) is None,
    ensures
        selected_internally(variants, tag_field, content_field, Value::Object(entries), None)
            == Err::<(int, Option<Value>), ErrorView>(
            field_error(tag_field, ErrorView::MissingField),
        ),
        selected_internally(
            variants,
            tag_field,
            content_field,
            Value::Object(entries),
            Some(current),
        ) == match find_variant(variants, current) {
            None => Err(ErrorView::UnknownEnumVariant),
            Some(i) => content_of(variants, i, Value::Object(entries), content_field),
        },
{
}

/// The entries of a map into which the first `n` entries of another were
/// set: the keys stay distinct, a key that is not among the `n` has the
/// value that it had, and a key that is has the value of the last of the
/// `n` entries that has it.
pub proof fn lemma_insert_all(
    entries: Seq<(Seq<char>, Value)>,
    more: Seq<(Seq<char>, Value)>,
    n: nat,
    key: Seq<char>,
)
    requires
        distinct_keys(entries),
        n <= more.len(),
    ensures
        distinct_keys(insert_all(entries, more, n)),
        (forall|j: int| 0 <= j < n ==> (#[trigger] more[j]).0 != key) ==> lookup(
            insert_all(entries, more, n),
            key,
        ) == lookup(entries, key),
        forall|j: int|
            0 <= j < n && (#[trigger] more[j]).0 == key && (forall|l: int|
                j < l < n ==> (#[trigger] more[l]).0 != key) ==> lookup(
                insert_all(entries, more, n),
                key,
            ) == Some(more[j].1),
    decreases n,
{
    if n > 0 {
        lemma_insert_all(entries, more, (n - 1) as nat, key);
        let before = insert_all(entries, more, (n - 1) as nat);
        lemma_insert_entry(before, more[n - 1].0, more[n - 1].1);
        if forall|j: int| 0 <= j < n ==> (#[trigger] more[j]).0 != key {
            assert(more[n - 1].0 != key);
        }
        assert forall|j: int|
            0 <= j < n && (#[trigger] more[j]).0 == key && (forall|l: int|
                j < l < n ==> (#[trigger] more[l]).0 != key) implies lookup(
            insert_all(entries, more, n),
            key,
        ) == Some(more[j].1) by {
            if j < n - 1 {
                assert(more[n - 1].0 != key);
            }
        }
    }
}

/// Flattening: the entries of the map of a flattened field stand in the
/// map of its struct, each key with its value, and every other key of the
/// struct has the value that it had.
pub proof fn flatten_sets_the_inner_entries(
    entries: Seq<(Seq<char>, Value)>,
    inner: Seq<(Seq<char>, Value)>,
    key: Seq<char>,
)
    requires
        distinct_keys(entries),
        distinct_keys(inner),
    ensures
        distinct_keys(insert_all(entries, inner, inner.len())),
        lookup(insert_all(entries, inner, inner.len()), key) == match lookup(inner, key) {
            Some(value) => Some(value),
            None => lookup(entries, key),
        },
{
    lemma_insert_all(entries, inner, inner.len(), key);
    lemma_position(inner, key);
    match position(inner, key) {
        Some(j) => {
            assert(inner[j].0 == key);
            assert forall|l: int| j < l < inner.len() implies (#[trigger] inner[l]).0 != key by {}
        },
        None => {},
    }
}

/// Whether the pairs are the entries of the map, each key once.
pub open spec fn enumerates<V>(pairs: Seq<(u64, V)>, map: Map<u64, V>) -> bool {
    &&& forall|i: int|
        0 <= i < pairs.len() ==> map.contains_key((#[trigger] pairs[i]).0) && map[pairs[i].0]
            == pairs[i].1
    &&& forall|k: u64| #[trigger]
        map.contains_key(k) ==> exists|i: int| 0 <= i < pairs.len() && (#[trigger] pairs[i]).0 == k
    &&& forall|i: int, j: int|
        0 <= i < pairs.len() && 0 <= j < pairs.len() && i != j ==> (#[trigger] pairs[i]).0 != (
        #[trigger] pairs[j]).0
}

/// The entry that a pair of a map is serialized to.
pub open spec fn entry_of<V: Serialize>(pair: (u64, V)) -> (Seq<char>, Value) {
    (decimal(pair.0 as nat), pair.1.serialized()->Ok_0)
}

/// A key that is a number written in decimal stands for the number.
pub proof fn lemma_key_of_decimal(k: u64)
    ensures
        key_of(decimal(k as nat)) == Some(k),
{
    lemma_parse_decimal(k);
}

/// Pairs with keys that are distinct, whose values all serialize, are
/// serialized to their entries, one for one.
pub proof fn lemma_pairs_serialized<V: Serialize>(pairs: Seq<(u64, V)>, n: nat)
    requires
        n <= pairs.len(),
        pairs_serialized(pairs, pairs.len()) is Ok,
        forall|i: int, j: int|
            0 <= i < pairs.len() && 0 <= j < pairs.len() && i != j ==> (#[trigger] pairs[i]).0 != (
            #[trigger] pairs[j]).0,
    ensures
        pairs_serialized(pairs, n) is Ok,
        pairs_serialized(pairs, n)->Ok_0.len() == n,
        forall|i: int|
            0 <= i < n ==> (#[trigger] pairs[i]).1.serialized() is Ok && pairs_serialized(
                pairs,
                n,
            )->Ok_0[i] == entry_of(pairs[i]),
    decreases n,
{
    if n > 0 {
        lemma_pairs_serialized(pairs, (n - 1) as nat);
        let before = pairs_serialized(pairs, (n - 1) as nat);
        let after = pairs_serialized(pairs, n);
        if after is Err {
            lemma_pairs_serialized_failed(pairs, n, pairs.len());
        }
        let last = pairs[n - 1];
        let key = decimal(last.0 as nat);
        lemma_position(before->Ok_0, key);
        assert(after->Ok_0 == insert_entry(before->Ok_0, key, last.1.serialized()->Ok_0));
        match position(before->Ok_0, key) {
            Some(at) => {
                assert(before->Ok_0[at] == entry_of(pairs[at]));
                lemma_decimal_injective(pairs[at].0 as nat, last.0 as nat);
                assert(pairs[at].0 == pairs[n - 1].0);
                assert(false);
            },
            None => {
                assert(after->Ok_0.drop_last() =~= before->Ok_0);
                assert forall|i: int| 0 <= i < n implies (#[trigger] pairs[i]).1.serialized() is Ok
                    && after->Ok_0[i] == entry_of(pairs[i]) by {
                    if i < n - 1 {
                        assert(before->Ok_0[i] == entry_of(pairs[i]));
                        assert(after->Ok_0.drop_last()[i] == after->Ok_0[i]);
                    }
                }
            },
        }
    }
}

impl<V: RoundTrip> RoundTrip for HashMap<u64, V> {
    /// The pairs that the map hands out are its entries, each key once (as
    /// is so of every map), and nothing of a value is lost.
    open spec fn lossless(&self) -> bool {
        enumerates(pairs_of(self), self@) && forall|k: u64| #[trigger]
            self@.contains_key(k) ==> self@[k].lossless()
    }

    proof fn round_trip(&self) {
        let pairs = pairs_of(self);
        lemma_pairs_serialized(pairs, pairs.len());
        let entries = pairs_serialized(pairs, pairs.len())->Ok_0;
        assert forall|i: int| 0 <= i < entries.len() implies entry_error::<V>(
            #[trigger] entries[i],
        ) is None && key_of(entries[i].0) == Some(pairs[i].0) && V::deserializes_to(
            entries[i].1,
            pairs[i].1,
        ) by {
            assert(entries[i] == entry_of(pairs[i]));
            lemma_key_of_decimal(pairs[i].0);
            assert(self@.contains_key(pairs[i].0));
            pairs[i].1.round_trip();
        }
        lemma_no_entry_error::<V>(entries, entries.len());
        assert forall|k: u64|
            match #[trigger] entry_for(entries, entries.len(), k) {
                Some(j) => self@.contains_key(k) && V::deserializes_to(entries[j].1, self@[k]),
                None => !self@.contains_key(k),
            } by {
            lemma_entry_for(entries, entries.len(), k);
            match entry_for(entries, entries.len(), k) {
                Some(j) => {
                    assert(key_of(entries[j].0) == Some(pairs[j].0));
                    assert(self@[pairs[j].0] == pairs[j].1);
                },
                None => {
                    if self@.contains_key(k) {
                        let i = choose|i: int| 0 <= i < pairs.len() && (#[trigger] pairs[i]).0 == k;
                        assert(key_of(entries[i].0) == Some(k));
                    }
                },
            }
        }
    }
}

/// Where no entry fails, there is no first error.
pub proof fn lemma_no_entry_error<V: Deserialize>(entries: Seq<(Seq<char>, Value)>, n: nat)
    requires
        n <= entries.len(),
        forall|i: int| 0 <= i < entries.len() ==> entry_error::<V>(#[trigger] entries[i]) is None,
    ensures
        entries_error::<V>(entries, n) is None,
    decreases n,
{
    if n > 0 {
        lemma_no_entry_error::<V>(entries, (n - 1) as nat);
    }
}

} // verus!
