//! The intermediate value: what every typed value is serialized to and
//! deserialized from.
use vstd::prelude::*;
use vstd::std_specs::convert::FromSpecImpl;
use crate::number::Number;
use crate::object::{clone_object, lemma_position, position, Object};

verus! {

/// What an [`Intermediate`] stands for: the same tree, with strings as
/// sequences of characters, arrays as sequences and objects as sequences of
/// entries in the order of insertion.
pub enum Value {
    Null,
    Bool(bool),
    Number(Number),
    String(Seq<char>),
    Array(Seq<Value>),
    Object(Seq<(Seq<char>, Value)>),
}

/// Intermediate data representation.
///
/// The format is similar to JSON.
#[derive(Debug)]
pub enum Intermediate {
    /// No value.
    Null,
    /// A boolean.
    Bool(bool),
    /// A number.
    Number(Number),
    /// A string.
    String(String),
    /// A sequence of values.
    Array(Vec<Intermediate>),
    /// A map from strings to values.
    Object(Object),
}

/// The values that a sequence of intermediate values stands for, one by one.
pub open spec fn values_of(items: Seq<Intermediate>) -> Seq<Value>
    decreases items,
{
    if items.len() == 0 {
        Seq::empty()
    } else {
        values_of(items.subrange(0, items.len() - 1)).push(items[items.len() - 1].view())
    }
}

impl View for Intermediate {
    type V = Value;

    open spec fn view(&self) -> Value
        decreases self,
    {
        match self {
            Intermediate::Null => Value::Null,
            Intermediate::Bool(b) => Value::Bool(*b),
            Intermediate::Number(n) => Value::Number(*n),
            Intermediate::String(s) => Value::String(s@),
            Intermediate::Array(v) => Value::Array(values_of(v@)),
            Intermediate::Object(m) => Value::Object(m@),
        }
    }
}

/// `values_of` goes item by item.
pub proof fn lemma_values_of(items: Seq<Intermediate>)
    ensures
        values_of(items).len() == items.len(),
        forall|i: int| 0 <= i < items.len() ==> (#[trigger] values_of(items)[i]) == items[i].view(),
    decreases items.len(),
{
    if items.len() > 0 {
        lemma_values_of(items.subrange(0, items.len() - 1));
        assert(values_of(items) == values_of(items.subrange(0, items.len() - 1)).push(
            items[items.len() - 1].view(),
        ));
    } else {
        assert(values_of(items) == Seq::<Value>::empty());
    }
}

impl Intermediate {
    /// Check if the value is `Null`.
    pub fn is_none(&self) -> (r: bool)
        ensures
            r == (self@ is Null),
    {
        match self {
            Intermediate::Null => true,
            _ => false,
        }
    }

    /// Get the value as a boolean (if possible).
    pub fn as_bool(&self) -> (r: Option<bool>)
        ensures
            r == match self@ {
                Value::Bool(b) => Some(b),
                _ => None,
            },
    {
        match self {
            Intermediate::Bool(v) => Some(*v),
            _ => None,
        }
    }

    /// Get the numeric value (if possible).
    pub fn as_number(&self) -> (r: Option<Number>)
        ensures
            r == match self@ {
                Value::Number(n) => Some(n),
                _ => None,
            },
    {
        match self {
            Intermediate::Number(v) => Some(*v),
            _ => None,
        }
    }

    /// Get the value as a character (if possible): the one character of a
    /// string that has exactly one.
    pub fn as_char(&self) -> (r: Option<char>)
        ensures
            r == match self@ {
                Value::String(s) => if s.len() == 1 {
                    Some(s[0])
                } else {
                    None
                },
                _ => None,
            },
    {
        match self {
            Intermediate::String(v) => {
                let s = v.as_str();
                if s.unicode_len() == 1 {
                    Some(s.get_char(0))
                } else {
                    None
                }
            },
            _ => None,
        }
    }

    /// Get the value as a string (if possible).
    pub fn as_str(&self) -> (r: Option<&str>)
        ensures
            match r {
                Some(s) => self@ == Value::String(s@),
                None => !(self@ is String),
            },
    {
        match self {
            Intermediate::String(v) => Some(v.as_str()),
            _ => None,
        }
    }

    /// Get the value as an array (if possible).
    pub fn as_array(&self) -> (r: Option<&[Intermediate]>)
        ensures
            match r {
                Some(a) => self@ == Value::Array(values_of(a@)),
                None => !(self@ is Array),
            },
    {
        match self {
            Intermediate::Array(v) => Some(v.as_slice()),
            _ => None,
        }
    }

    /// Get the value as a map (if possible).
    pub fn as_map(&self) -> (r: Option<&Object>)
        ensures
            match r {
                Some(m) => self@ == Value::Object(m@),
                None => !(self@ is Object),
            },
    {
        match self {
            Intermediate::Object(v) => Some(v),
            _ => None,
        }
    }
}

/// A copy of a value.
pub fn clone_value(v: &Intermediate) -> (r: Intermediate)
    ensures
        r@ == v@,
    decreases v@,
{
    match v {
        Intermediate::Null => Intermediate::Null,
        Intermediate::Bool(b) => Intermediate::Bool(*b),
        Intermediate::Number(n) => Intermediate::Number(*n),
        Intermediate::String(s) => Intermediate::String(s.clone()),
        Intermediate::Array(items) => {
            let mut out: Vec<Intermediate> = Vec::with_capacity(items.len());
            let mut i: usize = 0;
            proof {
                lemma_values_of(items@);
            }
            while i < items.len()
                invariant
                    i <= items.len(),
                    out@.len() == i,
                    v@ == Value::Array(values_of(items@)),
                    values_of(items@).len() == items@.len(),
                    forall|j: int| 0 <= j < items@.len() ==> values_of(items@)[j] == items@[j].view(),
                    forall|j: int| 0 <= j < i ==> out@[j].view() == items@[j].view(),
                decreases items.len() - i,
            {
                proof {
                    assert(decreases_to!(v@ => v@->Array_0));
                    assert(decreases_to!(v@->Array_0 => v@->Array_0[i as int]));
                }
                out.push(clone_value(&items[i]));
                i += 1;
            }
            proof {
                lemma_values_of(out@);
                assert(values_of(out@) =~= values_of(items@));
            }
            Intermediate::Array(out)
        },
        Intermediate::Object(m) => {
            proof {
                assert(decreases_to!(v@ => v@->Object_0));
            }
            Intermediate::Object(clone_object(m))
        },
    }
}

/// What is left of a value after another was merged into it: an array
/// takes an array place by place, an object takes an object key by key, and
/// whatever else is replaced.
pub open spec fn merge(cur: Value, new: Value) -> Value
    decreases new, 0nat,
{
    match (cur, new) {
        (Value::Array(a), Value::Array(b)) => Value::Array(merge_arrays(a, b, b.len())),
        (Value::Object(a), Value::Object(b)) => Value::Object(merge_objects(a, b, b.len())),
        _ => new,
    }
}

/// The first `n` places of an array `a` into which the array `b` was
/// merged: a place that `a` has takes the value of `b` merged into its own,
/// a place past the end of `a` holds the value of `b`.
pub open spec fn merge_arrays(a: Seq<Value>, b: Seq<Value>, n: nat) -> Seq<Value>
    decreases b, n + 1,
{
    if n == 0 || n > b.len() {
        Seq::empty()
    } else {
        merge_arrays(a, b, (n - 1) as nat).push(
            if n - 1 < a.len() {
                merge(a[n - 1], b[n - 1])
            } else {
                b[n - 1]
            },
        )
    }
}

/// The entries of an object `a` into which the first `n` entries of the
/// object `b` were merged, one after the other: a key that is there takes
/// the value merged into its own, a key that is not comes last.
pub open spec fn merge_objects(
    a: Seq<(Seq<char>, Value)>,
    b: Seq<(Seq<char>, Value)>,
    n: nat,
) -> Seq<(Seq<char>, Value)>
    decreases b, n + 1,
{
    if n == 0 || n > b.len() {
        a
    } else {
        let acc = merge_objects(a, b, (n - 1) as nat);
        match position(acc, b[n - 1].0) {
            Some(i) => acc.update(i, (acc[i].0, merge(acc[i].1, b[n - 1].1))),
            None => acc.push(b[n - 1]),
        }
    }
}

/// Merge a value into another, in place.
pub fn merge_into(cur: &mut Intermediate, new: &Intermediate)
    ensures
        final(cur)@ == merge(old(cur)@, new@),
    decreases new@,
{
    match new {
        Intermediate::Array(items) => {
            let mut taken = Intermediate::Null;
            std::mem::swap(cur, &mut taken);
            match taken {
                Intermediate::Array(mut slots) => {
                    let ghost a = values_of(slots@);
                    let ghost b = values_of(items@);
                    proof {
                        lemma_values_of(slots@);
                        lemma_values_of(items@);
                    }
                    if slots.len() > items.len() {
                        slots.truncate(items.len());
                    }
                    let kept = slots.len();
                    let mut i: usize = 0;
                    while i < items.len()
                        invariant
                            i <= items@.len(),
                            new@ == Value::Array(b),
                            b == values_of(items@),
                            b.len() == items@.len(),
                            forall|j: int| 0 <= j < items@.len() ==> b[j] == items@[j]@,
                            kept <= a.len(),
                            kept <= items@.len(),
                            kept == a.len() || kept == items@.len(),
                            slots@.len() == if i < kept {
                                kept as int
                            } else {
                                i as int
                            },
                            forall|j: int| i <= j < kept ==> (#[trigger] slots@[j])@ == a[j],
                            values_of(slots@.subrange(0, i as int)) == merge_arrays(a, b, i as nat),
                        decreases items.len() - i,
                    {
                        proof {
                            assert(decreases_to!(new@ => new@->Array_0));
                            assert(decreases_to!(new@->Array_0 => new@->Array_0[i as int]));
                        }
                        let ghost before = slots@;
                        if i < kept {
                            merge_into(&mut slots[i], &items[i]);
                        } else {
                            slots.push(clone_value(&items[i]));
                        }
                        proof {
                            let now = slots@.subrange(0, i + 1);
                            assert(slots@.subrange(0, i as int) =~= before.subrange(0, i as int));
                            assert(now.subrange(0, now.len() - 1) =~= slots@.subrange(0, i as int));
                            assert(now[i as int]@ == if i < a.len() {
                                merge(a[i as int], b[i as int])
                            } else {
                                b[i as int]
                            });
                            assert(merge_arrays(a, b, (i + 1) as nat) == merge_arrays(
                                a,
                                b,
                                i as nat,
                            ).push(
                                if i < a.len() {
                                    merge(a[i as int], b[i as int])
                                } else {
                                    b[i as int]
                                },
                            ));
                            lemma_values_of(now);
                            lemma_values_of(slots@.subrange(0, i as int));
                            assert(values_of(now) =~= merge_arrays(a, b, (i + 1) as nat));
                        }
                        i += 1;
                    }
                    proof {
                        assert(slots@.subrange(0, i as int) =~= slots@);
                    }
                    *cur = Intermediate::Array(slots);
                },
                _ => {
                    *cur = clone_value(new);
                },
            }
        },
        Intermediate::Object(entries) => {
            let mut taken = Intermediate::Null;
            std::mem::swap(cur, &mut taken);
            match taken {
                Intermediate::Object(mut map) => {
                    proof {
                        assert(decreases_to!(new@ => new@->Object_0));
                    }
                    merge_entries(&mut map, entries);
                    *cur = Intermediate::Object(map);
                },
                _ => {
                    *cur = clone_value(new);
                },
            }
        },
        _ => {
            *cur = clone_value(new);
        },
    }
}

/// Merge the entries of an object into another, in place.
pub fn merge_entries(map: &mut Object, new: &Object)
    ensures
        final(map)@ == merge_objects(old(map)@, new@, new@.len()),
    decreases new@,
{
    let ghost a = map@;
    let ghost b = new@;
    let mut i: usize = 0;
    while i < new.len()
        invariant
            i <= new@.len(),
            b == new@,
            map@ == merge_objects(a, b, i as nat),
        decreases new@.len() - i,
    {
        match new.get_index(i) {
            Some((key, value)) => {
                proof {
                    assert(decreases_to!(new@ => new@[i as int]));
                    assert(decreases_to!(new@[i as int] => new@[i as int].1));
                    lemma_position(map@, key@);
                }
                match map.get_mut(key.as_str()) {
                    Some(inner) => {
                        merge_into(inner, value);
                    },
                    None => {
                        let _ = map.insert(key.clone(), clone_value(value));
                    },
                }
            },
            None => {},
        }
        i += 1;
    }
}

impl Clone for Intermediate {
    fn clone(&self) -> (r: Self)
        ensures
            r@ == self@,
    {
        clone_value(self)
    }
}

impl From<()> for Intermediate {
    fn from(v: ()) -> (r: Self) {
        Intermediate::Null
    }
}

impl FromSpecImpl<()> for Intermediate {
    open spec fn obeys_from_spec() -> bool {
        true
    }

    open spec fn from_spec(v: ()) -> Self {
        Intermediate::Null
    }
}

impl From<bool> for Intermediate {
    fn from(v: bool) -> (r: Self) {
        Intermediate::Bool(v)
    }
}

impl FromSpecImpl<bool> for Intermediate {
    open spec fn obeys_from_spec() -> bool {
        true
    }

    open spec fn from_spec(v: bool) -> Self {
        Intermediate::Bool(v)
    }
}

impl From<Number> for Intermediate {
    fn from(v: Number) -> (r: Self) {
        Intermediate::Number(v)
    }
}

impl FromSpecImpl<Number> for Intermediate {
    open spec fn obeys_from_spec() -> bool {
        true
    }

    open spec fn from_spec(v: Number) -> Self {
        Intermediate::Number(v)
    }
}

impl From<i8> for Intermediate {
    fn from(v: i8) -> (r: Self) {
        Intermediate::Number(Number::SignedInt(v as i64))
    }
}

impl FromSpecImpl<i8> for Intermediate {
    open spec fn obeys_from_spec() -> bool {
        true
    }

    open spec fn from_spec(v: i8) -> Self {
        Intermediate::Number(Number::SignedInt(v as i64))
    }
}

impl From<i16> for Intermediate {
    fn from(v: i16) -> (r: Self) {
        Intermediate::Number(Number::SignedInt(v as i64))
    }
}

impl FromSpecImpl<i16> for Intermediate {
    open spec fn obeys_from_spec() -> bool {
        true
    }

    open spec fn from_spec(v: i16) -> Self {
        Intermediate::Number(Number::SignedInt(v as i64))
    }
}

impl From<i32> for Intermediate {
    fn from(v: i32) -> (r: Self) {
        Intermediate::Number(Number::SignedInt(v as i64))
    }
}

impl FromSpecImpl<i32> for Intermediate {
    open spec fn obeys_from_spec() -> bool {
        true
    }

    open spec fn from_spec(v: i32) -> Self {
        Intermediate::Number(Number::SignedInt(v as i64))
    }
}

impl From<i64> for Intermediate {
    fn from(v: i64) -> (r: Self) {
        Intermediate::Number(Number::SignedInt(v))
    }
}

impl FromSpecImpl<i64> for Intermediate {
    open spec fn obeys_from_spec() -> bool {
        true
    }

    open spec fn from_spec(v: i64) -> Self {
        Intermediate::Number(Number::SignedInt(v))
    }
}

impl From<u8> for Intermediate {
    fn from(v: u8) -> (r: Self) {
        Intermediate::Number(Number::UnsignedInt(v as u64))
    }
}

impl FromSpecImpl<u8> for Intermediate {
    open spec fn obeys_from_spec() -> bool {
        true
    }

    open spec fn from_spec(v: u8) -> Self {
        Intermediate::Number(Number::UnsignedInt(v as u64))
    }
}

impl From<u16> for Intermediate {
    fn from(v: u16) -> (r: Self) {
        Intermediate::Number(Number::UnsignedInt(v as u64))
    }
}

impl FromSpecImpl<u16> for Intermediate {
    open spec fn obeys_from_spec() -> bool {
        true
    }

    open spec fn from_spec(v: u16) -> Self {
        Intermediate::Number(Number::UnsignedInt(v as u64))
    }
}

impl From<u32> for Intermediate {
    fn from(v: u32) -> (r: Self) {
        Intermediate::Number(Number::UnsignedInt(v as u64))
    }
}

impl FromSpecImpl<u32> for Intermediate {
    open spec fn obeys_from_spec() -> bool {
        true
    }

    open spec fn from_spec(v: u32) -> Self {
        Intermediate::Number(Number::UnsignedInt(v as u64))
    }
}

impl From<u64> for Intermediate {
    fn from(v: u64) -> (r: Self) {
        Intermediate::Number(Number::UnsignedInt(v))
    }
}

impl FromSpecImpl<u64> for Intermediate {
    open spec fn obeys_from_spec() -> bool {
        true
    }

    open spec fn from_spec(v: u64) -> Self {
        Intermediate::Number(Number::UnsignedInt(v))
    }
}

impl From<String> for Intermediate {
    fn from(v: String) -> (r: Self) {
        Intermediate::String(v)
    }
}

impl FromSpecImpl<String> for Intermediate {
    open spec fn obeys_from_spec() -> bool {
        true
    }

    open spec fn from_spec(v: String) -> Self {
        Intermediate::String(v)
    }
}

impl<'a> From<&'a str> for Intermediate {
    fn from(v: &'a str) -> (r: Self)
        ensures
            r@ == Value::String(v@),
    {
        Intermediate::String(v.to_owned())
    }
}

impl<'a> FromSpecImpl<&'a str> for Intermediate {
    open spec fn obeys_from_spec() -> bool {
        false
    }

    open spec fn from_spec(v: &'a str) -> Self {
        arbitrary()
    }
}

impl From<Vec<Intermediate>> for Intermediate {
    fn from(v: Vec<Intermediate>) -> (r: Self) {
        Intermediate::Array(v)
    }
}

impl FromSpecImpl<Vec<Intermediate>> for Intermediate {
    open spec fn obeys_from_spec() -> bool {
        true
    }

    open spec fn from_spec(v: Vec<Intermediate>) -> Self {
        Intermediate::Array(v)
    }
}

impl From<Object> for Intermediate {
    fn from(v: Object) -> (r: Self) {
        Intermediate::Object(v)
    }
}

impl FromSpecImpl<Object> for Intermediate {
    open spec fn obeys_from_spec() -> bool {
        true
    }

    open spec fn from_spec(v: Object) -> Self {
        Intermediate::Object(v)
    }
}

} // verus!
