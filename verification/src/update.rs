//! The update protocol: an intermediate value merged into a typed value in
//! place.
use vstd::prelude::*;
use crate::deserialize::{array_of_at_least, array_of_length, Deserialize};
use crate::error::{Error, ErrorView};
use crate::intermediate::{
    lemma_values_of, merge, merge_entries, merge_into, merge_objects, values_of, Intermediate,
    Value,
};
use crate::object::Object;

verus! {

/// Update trait.
///
/// The trait can be used for objects that can be updated from the intermediate
/// representation.
pub trait Update: Deserialize {
    /// The error with which `update` fails on a value; `None` where it
    /// succeeds.
    open spec fn update_error(&self, val: Value) -> Option<ErrorView> {
        arbitrary()
    }

    /// Whether `out` is what `update` leaves of this object, be it after a
    /// success or after the error.
    open spec fn updates_to(&self, val: Value, out: Self) -> bool {
        arbitrary()
    }

    /// Update the object.
    fn update(&mut self, val: &Intermediate) -> (r: Result<(), Error>)
        ensures
            match r {
                Ok(_) => old(self).update_error(val@) is None,
                Err(e) => old(self).update_error(val@) == Some(e@),
            },
            old(self).updates_to(val@, *final(self)),
    ;
}

impl Update for bool {
    open spec fn update_error(&self, val: Value) -> Option<ErrorView> {
        Self::deserialize_error(val)
    }

    open spec fn updates_to(&self, val: Value, out: Self) -> bool {
        if Self::deserialize_error(val) is None {
            Self::deserializes_to(val, out)
        } else {
            out == *self
        }
    }

    fn update(&mut self, val: &Intermediate) -> (r: Result<(), Error>) {
        match <bool as Deserialize>::deserialize(val) {
            Ok(v) => {
                *self = v;
                Ok(())
            },
            Err(e) => Err(e),
        }
    }
}

impl Update for i8 {
    open spec fn update_error(&self, val: Value) -> Option<ErrorView> {
        Self::deserialize_error(val)
    }

    open spec fn updates_to(&self, val: Value, out: Self) -> bool {
        if Self::deserialize_error(val) is None {
            Self::deserializes_to(val, out)
        } else {
            out == *self
        }
    }

    fn update(&mut self, val: &Intermediate) -> (r: Result<(), Error>) {
        match <i8 as Deserialize>::deserialize(val) {
            Ok(v) => {
                *self = v;
                Ok(())
            },
            Err(e) => Err(e),
        }
    }
}

impl Update for i16 {
    open spec fn update_error(&self, val: Value) -> Option<ErrorView> {
        Self::deserialize_error(val)
    }

    open spec fn updates_to(&self, val: Value, out: Self) -> bool {
        if Self::deserialize_error(val) is None {
            Self::deserializes_to(val, out)
        } else {
            out == *self
        }
    }

    fn update(&mut self, val: &Intermediate) -> (r: Result<(), Error>) {
        match <i16 as Deserialize>::deserialize(val) {
            Ok(v) => {
                *self = v;
                Ok(())
            },
            Err(e) => Err(e),
        }
    }
}

impl Update for i32 {
    open spec fn update_error(&self, val: Value) -> Option<ErrorView> {
        Self::deserialize_error(val)
    }

    open spec fn updates_to(&self, val: Value, out: Self) -> bool {
        if Self::deserialize_error(val) is None {
            Self::deserializes_to(val, out)
        } else {
            out == *self
        }
    }

    fn update(&mut self, val: &Intermediate) -> (r: Result<(), Error>) {
        match <i32 as Deserialize>::deserialize(val) {
            Ok(v) => {
                *self = v;
                Ok(())
            },
            Err(e) => Err(e),
        }
    }
}

impl Update for i64 {
    open spec fn update_error(&self, val: Value) -> Option<ErrorView> {
        Self::deserialize_error(val)
    }

    open spec fn updates_to(&self, val: Value, out: Self) -> bool {
        if Self::deserialize_error(val) is None {
            Self::deserializes_to(val, out)
        } else {
            out == *self
        }
    }

    fn update(&mut self, val: &Intermediate) -> (r: Result<(), Error>) {
        match <i64 as Deserialize>::deserialize(val) {
            Ok(v) => {
                *self = v;
                Ok(())
            },
            Err(e) => Err(e),
        }
    }
}

impl Update for i128 {
    open spec fn update_error(&self, val: Value) -> Option<ErrorView> {
        Self::deserialize_error(val)
    }

    open spec fn updates_to(&self, val: Value, out: Self) -> bool {
        if Self::deserialize_error(val) is None {
            Self::deserializes_to(val, out)
        } else {
            out == *self
        }
    }

    fn update(&mut self, val: &Intermediate) -> (r: Result<(), Error>) {
        match <i128 as Deserialize>::deserialize(val) {
            Ok(v) => {
                *self = v;
                Ok(())
            },
            Err(e) => Err(e),
        }
    }
}

impl Update for isize {
    open spec fn update_error(&self, val: Value) -> Option<ErrorView> {
        Self::deserialize_error(val)
    }

    open spec fn updates_to(&self, val: Value, out: Self) -> bool {
        if Self::deserialize_error(val) is None {
            Self::deserializes_to(val, out)
        } else {
            out == *self
        }
    }

    fn update(&mut self, val: &Intermediate) -> (r: Result<(), Error>) {
        match <isize as Deserialize>::deserialize(val) {
            Ok(v) => {
                *self = v;
                Ok(())
            },
            Err(e) => Err(e),
        }
    }
}

impl Update for u8 {
    open spec fn update_error(&self, val: Value) -> Option<ErrorView> {
        Self::deserialize_error(val)
    }

    open spec fn updates_to(&self, val: Value, out: Self) -> bool {
        if Self::deserialize_error(val) is None {
            Self::deserializes_to(val, out)
        } else {
            out == *self
        }
    }

    fn update(&mut self, val: &Intermediate) -> (r: Result<(), Error>) {
        match <u8 as Deserialize>::deserialize(val) {
            Ok(v) => {
                *self = v;
                Ok(())
            },
            Err(e) => Err(e),
        }
    }
}

impl Update for u16 {
    open spec fn update_error(&self, val: Value) -> Option<ErrorView> {
        Self::deserialize_error(val)
    }

    open spec fn updates_to(&self, val: Value, out: Self) -> bool {
        if Self::deserialize_error(val) is None {
            Self::deserializes_to(val, out)
        } else {
            out == *self
        }
    }

    fn update(&mut self, val: &Intermediate) -> (r: Result<(), Error>) {
        match <u16 as Deserialize>::deserialize(val) {
            Ok(v) => {
                *self = v;
                Ok(())
            },
            Err(e) => Err(e),
        }
    }
}

impl Update for u32 {
    open spec fn update_error(&self, val: Value) -> Option<ErrorView> {
        Self::deserialize_error(val)
    }

    open spec fn updates_to(&self, val: Value, out: Self) -> bool {
        if Self::deserialize_error(val) is None {
            Self::deserializes_to(val, out)
        } else {
            out == *self
        }
    }

    fn update(&mut self, val: &Intermediate) -> (r: Result<(), Error>) {
        match <u32 as Deserialize>::deserialize(val) {
            Ok(v) => {
                *self = v;
                Ok(())
            },
            Err(e) => Err(e),
        }
    }
}

impl Update for u64 {
    open spec fn update_error(&self, val: Value) -> Option<ErrorView> {
        Self::deserialize_error(val)
    }

    open spec fn updates_to(&self, val: Value, out: Self) -> bool {
        if Self::deserialize_error(val) is None {
            Self::deserializes_to(val, out)
        } else {
            out == *self
        }
    }

    fn update(&mut self, val: &Intermediate) -> (r: Result<(), Error>) {
        match <u64 as Deserialize>::deserialize(val) {
            Ok(v) => {
                *self = v;
                Ok(())
            },
            Err(e) => Err(e),
        }
    }
}

impl Update for u128 {
    open spec fn update_error(&self, val: Value) -> Option<ErrorView> {
        Self::deserialize_error(val)
    }

    open spec fn updates_to(&self, val: Value, out: Self) -> bool {
        if Self::deserialize_error(val) is None {
            Self::deserializes_to(val, out)
        } else {
            out == *self
        }
    }

    fn update(&mut self, val: &Intermediate) -> (r: Result<(), Error>) {
        match <u128 as Deserialize>::deserialize(val) {
            Ok(v) => {
                *self = v;
                Ok(())
            },
            Err(e) => Err(e),
        }
    }
}

impl Update for usize {
    open spec fn update_error(&self, val: Value) -> Option<ErrorView> {
        Self::deserialize_error(val)
    }

    open spec fn updates_to(&self, val: Value, out: Self) -> bool {
        if Self::deserialize_error(val) is None {
            Self::deserializes_to(val, out)
        } else {
            out == *self
        }
    }

    fn update(&mut self, val: &Intermediate) -> (r: Result<(), Error>) {
        match <usize as Deserialize>::deserialize(val) {
            Ok(v) => {
                *self = v;
                Ok(())
            },
            Err(e) => Err(e),
        }
    }
}

impl Update for char {
    open spec fn update_error(&self, val: Value) -> Option<ErrorView> {
        Self::deserialize_error(val)
    }

    open spec fn updates_to(&self, val: Value, out: Self) -> bool {
        if Self::deserialize_error(val) is None {
            Self::deserializes_to(val, out)
        } else {
            out == *self
        }
    }

    fn update(&mut self, val: &Intermediate) -> (r: Result<(), Error>) {
        match <char as Deserialize>::deserialize(val) {
            Ok(v) => {
                *self = v;
                Ok(())
            },
            Err(e) => Err(e),
        }
    }
}

impl Update for String {
    open spec fn update_error(&self, val: Value) -> Option<ErrorView> {
        Self::deserialize_error(val)
    }

    open spec fn updates_to(&self, val: Value, out: Self) -> bool {
        if Self::deserialize_error(val) is None {
            Self::deserializes_to(val, out)
        } else {
            out == *self
        }
    }

    fn update(&mut self, val: &Intermediate) -> (r: Result<(), Error>) {
        match <String as Deserialize>::deserialize(val) {
            Ok(v) => {
                *self = v;
                Ok(())
            },
            Err(e) => Err(e),
        }
    }
}

impl<T> Update for Option<T> where T: Deserialize + Update {
    open spec fn update_error(&self, val: Value) -> Option<ErrorView> {
        if val is Null {
            None
        } else {
            match self {
                Some(inner) => inner.update_error(val),
                None => T::deserialize_error(val),
            }
        }
    }

    open spec fn updates_to(&self, val: Value, out: Self) -> bool {
        if val is Null {
            out is None
        } else {
            match self {
                Some(inner) => out is Some && inner.updates_to(val, out->0),
                None => if T::deserialize_error(val) is None {
                    out is Some && T::deserializes_to(val, out->0)
                } else {
                    out is None
                },
            }
        }
    }

    fn update(&mut self, val: &Intermediate) -> (r: Result<(), Error>) {
        if val.is_none() {
            *self = None;
            Ok(())
        } else {
            match self {
                Some(inner) => inner.update(val),
                None => match T::deserialize(val) {
                    Ok(v) => {
                        *self = Some(v);
                        Ok(())
                    },
                    Err(e) => Err(e),
                },
            }
        }
    }
}

/// The error of merging the value at a place: the item at the place is
/// updated, and past the last item a new one is deserialized.
pub open spec fn slot_error<T: Update>(cur: Seq<T>, items: Seq<Value>, i: int) -> Option<
    ErrorView,
> {
    if i < cur.len() {
        cur[i].update_error(items[i])
    } else {
        T::deserialize_error(items[i])
    }
}

/// How many of the first `n` values are merged before the first error.
pub open spec fn merged<T: Update>(cur: Seq<T>, items: Seq<Value>, n: nat) -> nat
    decreases n,
{
    if n == 0 {
        0
    } else {
        let before = merged(cur, items, (n - 1) as nat);
        if before == n - 1 && slot_error(cur, items, n - 1) is None {
            n
        } else {
            before
        }
    }
}

/// The error of merging the first `n` values: that of the first value that
/// fails.
pub open spec fn merge_error<T: Update>(cur: Seq<T>, items: Seq<Value>, n: nat) -> Option<
    ErrorView,
> {
    let done = merged(cur, items, n);
    if done < n {
        slot_error(cur, items, done as int)
    } else {
        None
    }
}

/// Whether `out` is what merging the first `n` values by position leaves of
/// `cur`, where `kept` of the items of `cur` stay: the items up to the
/// first error are updated (the one that fails as its own update leaves
/// it), the items behind it are untouched, and past the items that stay
/// come the new ones that were deserialized before the error.
pub open spec fn merges_to<T: Update>(
    cur: Seq<T>,
    items: Seq<Value>,
    n: nat,
    kept: nat,
    out: Seq<T>,
) -> bool {
    let done = merged(cur, items, n);
    &&& out.len() == if done == n {
        n
    } else if done < kept {
        kept
    } else {
        done
    }
    &&& forall|i: int|
        0 <= i < out.len() ==> if i < kept {
            if i <= done {
                cur[i].updates_to(items[i], #[trigger] out[i])
            } else {
                out[i] == cur[i]
            }
        } else {
            T::deserializes_to(items[i], out[i])
        }
}

/// Once a value fails, no later value is merged.
pub proof fn lemma_merged_stops<T: Update>(cur: Seq<T>, items: Seq<Value>, at: nat, n: nat)
    requires
        merged(cur, items, at) == at,
        slot_error(cur, items, at as int) is Some,
        at < n,
    ensures
        merged(cur, items, n) == at,
    decreases n,
{
    if n > at + 1 {
        lemma_merged_stops(cur, items, at, (n - 1) as nat);
    }
}

/// The smaller of two lengths.
pub open spec fn shorter(a: nat, b: nat) -> nat {
    if a < b {
        a
    } else {
        b
    }
}

impl<T> Update for Vec<T> where T: Deserialize + Update {
    open spec fn update_error(&self, val: Value) -> Option<ErrorView> {
        match val {
            Value::Array(items) => merge_error(self@, items, items.len()),
            _ => Some(ErrorView::InvalidValue("array"@)),
        }
    }

    open spec fn updates_to(&self, val: Value, out: Self) -> bool {
        match val {
            Value::Array(items) => merges_to(
                self@,
                items,
                items.len(),
                shorter(self@.len(), items.len()),
                out@,
            ),
            _ => out@ == self@,
        }
    }

    fn update(&mut self, val: &Intermediate) -> (r: Result<(), Error>) {
        let items = match val.as_array() {
            Some(items) => items,
            None => {
                return Err(Error::invalid_value_static("array"));
            },
        };
        let ghost cur = self@;
        let ghost values = values_of(items@);
        proof {
            lemma_values_of(items@);
        }
        if self.len() > items.len() {
            self.truncate(items.len());
        }
        let kept = self.len();
        let mut i: usize = 0;
        while i < items.len()
            invariant
                i <= items@.len(),
                cur == old(self)@,
                val@ == Value::Array(values),
                values == values_of(items@),
                values.len() == items@.len(),
                forall|j: int| 0 <= j < items@.len() ==> values[j] == items@[j]@,
                kept == shorter(cur.len(), values.len()),
                self@.len() == if i < kept {
                    kept as int
                } else {
                    i as int
                },
                merged(cur, values, i as nat) == i,
                forall|j: int|
                    0 <= j < i && j < kept ==> cur[j].updates_to(values[j], #[trigger] self@[j]),
                forall|j: int| kept <= j < i ==> T::deserializes_to(values[j], #[trigger] self@[j]),
                forall|j: int| i <= j < kept ==> #[trigger] self@[j] == cur[j],
            decreases items.len() - i,
        {
            if i < kept {
                let res = self[i].update(&items[i]);
                match res {
                    Ok(_) => {},
                    Err(e) => {
                        proof {
                            lemma_merged_stops(cur, values, i as nat, values.len());
                        }
                        return Err(e);
                    },
                }
            } else {
                match T::deserialize(&items[i]) {
                    Ok(v) => {
                        self.push(v);
                    },
                    Err(e) => {
                        proof {
                            lemma_merged_stops(cur, values, i as nat, values.len());
                        }
                        return Err(e);
                    },
                }
            }
            i += 1;
        }
        Ok(())
    }
}

impl<T, const N: usize> Update for [T; N] where T: Update {
    open spec fn update_error(&self, val: Value) -> Option<ErrorView> {
        if N == 0 {
            None
        } else {
            match val {
                Value::Array(items) => if items.len() < N {
                    Some(ErrorView::InvalidValue(array_of_length(N as nat)))
                } else {
                    merge_error(self@, items, N as nat)
                },
                _ => Some(ErrorView::InvalidValue(array_of_length(N as nat))),
            }
        }
    }

    open spec fn updates_to(&self, val: Value, out: Self) -> bool {
        if N > 0 && val is Array && val->Array_0.len() >= N {
            merges_to(self@, val->Array_0, N as nat, N as nat, out@)
        } else {
            out@ == self@
        }
    }

    fn update(&mut self, val: &Intermediate) -> (r: Result<(), Error>) {
        if N == 0 {
            return Ok(());
        }
        let items = match array_of_at_least(val, N) {
            Ok(items) => items,
            Err(e) => {
                return Err(e);
            },
        };
        let ghost cur = self@;
        let ghost values = values_of(items@);
        let mut i: usize = 0;
        while i < N
            invariant
                i <= N <= items@.len(),
                cur == old(self)@,
                val@ == Value::Array(values),
                values == values_of(items@),
                values.len() == items@.len(),
                forall|j: int| 0 <= j < items@.len() ==> values[j] == items@[j]@,
                merged(cur, values, i as nat) == i,
                forall|j: int| 0 <= j < i ==> cur[j].updates_to(values[j], #[trigger] self@[j]),
                forall|j: int| i <= j < N ==> #[trigger] self@[j] == cur[j],
            decreases N - i,
        {
            let res = self[i].update(&items[i]);
            match res {
                Ok(_) => {},
                Err(e) => {
                    proof {
                        lemma_merged_stops(cur, values, i as nat, N as nat);
                    }
                    return Err(e);
                },
            }
            i += 1;
        }
        Ok(())
    }
}

impl Update for Intermediate {
    open spec fn update_error(&self, val: Value) -> Option<ErrorView> {
        None
    }

    open spec fn updates_to(&self, val: Value, out: Self) -> bool {
        out@ == merge(self@, val)
    }

    fn update(&mut self, val: &Intermediate) -> (r: Result<(), Error>) {
        merge_into(self, val);
        Ok(())
    }
}

impl Update for () {
    open spec fn update_error(&self, val: Value) -> Option<ErrorView> {
        None
    }

    open spec fn updates_to(&self, val: Value, out: Self) -> bool {
        true
    }

    fn update(&mut self, val: &Intermediate) -> (r: Result<(), Error>) {
        Ok(())
    }
}

impl<T> Update for Box<T> where T: Update {
    open spec fn update_error(&self, val: Value) -> Option<ErrorView> {
        (**self).update_error(val)
    }

    open spec fn updates_to(&self, val: Value, out: Self) -> bool {
        (**self).updates_to(val, *out)
    }

    fn update(&mut self, val: &Intermediate) -> (r: Result<(), Error>) {
        (**self).update(val)
    }
}

impl Update for Object {
    open spec fn update_error(&self, val: Value) -> Option<ErrorView> {
        Self::deserialize_error(val)
    }

    open spec fn updates_to(&self, val: Value, out: Self) -> bool {
        match val {
            Value::Object(entries) => out@ == merge_objects(self@, entries, entries.len()),
            _ => out@ == self@,
        }
    }

    fn update(&mut self, val: &Intermediate) -> (r: Result<(), Error>) {
        match val.as_map() {
            Some(map) => {
                merge_entries(self, map);
                Ok(())
            },
            None => Err(Error::invalid_value_static("map")),
        }
    }
}

} // verus!
