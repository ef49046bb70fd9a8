//! The deserialize protocol: from an intermediate value to a typed value.
use std::rc::Rc;
use std::sync::Arc;
use vstd::prelude::*;
use crate::error::{Error, ErrorView};
use crate::intermediate::{lemma_values_of, values_of, Intermediate, Value};
use crate::number::Number;
use crate::object::Object;
use crate::text::{decimal, u64_to_decimal};

verus! {

/// Deserialize trait.
///
/// The trait can be implemented by objects the can deserialized from the
/// intermediate representation.
pub trait Deserialize: Sized {
    /// The error with which `deserialize` fails on a value; `None` where it
    /// succeeds.
    open spec fn deserialize_error(val: Value) -> Option<ErrorView> {
        arbitrary()
    }

    /// Whether `out` is what `deserialize` makes of a value on which it
    /// succeeds.
    open spec fn deserializes_to(val: Value, out: Self) -> bool {
        arbitrary()
    }

    /// Deserialize an object instance.
    fn deserialize(val: &Intermediate) -> (r: Result<Self, Error>)
        ensures
            match r {
                Ok(v) => Self::deserialize_error(val@) is None && Self::deserializes_to(val@, v),
                Err(e) => Self::deserialize_error(val@) == Some(e@),
            },
    ;
}

/// The error of a result, if it is one.
pub open spec fn error_of<T>(r: Result<T, ErrorView>) -> Option<ErrorView> {
    match r {
        Ok(_) => None,
        Err(e) => Some(e),
    }
}

/// The whole number between two bounds that a value holds: the value has to
/// be a number, a whole one, and within the bounds.
pub open spec fn integer_in(val: Value, lo: int, hi: int, expected: Seq<char>) -> Result<
    int,
    ErrorView,
> {
    match val {
        Value::Number(n) => match n.as_int() {
            None => Err(ErrorView::UnsupportedConversion),
            Some(v) => if lo <= v <= hi {
                Ok(v)
            } else {
                Err(ErrorView::OutOfBounds)
            },
        },
        _ => Err(ErrorView::InvalidValue(expected)),
    }
}

fn integer_in_range(val: &Intermediate, lo: i128, hi: i128, expected: &'static str) -> (r: Result<
    i128,
    Error,
>)
    ensures
        match r {
            Ok(v) => integer_in(val@, lo as int, hi as int, expected@) == Ok::<int, ErrorView>(
                v as int,
            ),
            Err(e) => integer_in(val@, lo as int, hi as int, expected@) == Err::<int, ErrorView>(
                e@,
            ),
        },
{
    match val.as_number() {
        None => Err(Error::invalid_value_static(expected)),
        Some(Number::Float(_)) => Err(Error::UnsupportedConversion),
        Some(Number::SignedInt(v)) => {
            let wide = v as i128;
            if lo <= wide && wide <= hi {
                Ok(wide)
            } else {
                Err(Error::OutOfBounds)
            }
        },
        Some(Number::UnsignedInt(v)) => {
            let wide = v as i128;
            if lo <= wide && wide <= hi {
                Ok(wide)
            } else {
                Err(Error::OutOfBounds)
            }
        },
    }
}

impl Deserialize for bool {
    open spec fn deserialize_error(val: Value) -> Option<ErrorView> {
        if val is Bool {
            None
        } else {
            Some(ErrorView::InvalidValue("bool"@))
        }
    }

    open spec fn deserializes_to(val: Value, out: Self) -> bool {
        val == Value::Bool(out)
    }

    fn deserialize(val: &Intermediate) -> (r: Result<Self, Error>) {
        match val.as_bool() {
            Some(v) => Ok(v),
            None => Err(Error::invalid_value_static("bool")),
        }
    }
}

impl Deserialize for i8 {
    open spec fn deserialize_error(val: Value) -> Option<ErrorView> {
        error_of(integer_in(val, i8::MIN as int, i8::MAX as int, "integer"@))
    }

    open spec fn deserializes_to(val: Value, out: Self) -> bool {
        integer_in(val, i8::MIN as int, i8::MAX as int, "integer"@) == Ok::<int, ErrorView>(
            out as int,
        )
    }

    fn deserialize(val: &Intermediate) -> (r: Result<Self, Error>) {
        match integer_in_range(val, i8::MIN as i128, i8::MAX as i128, "integer") {
            Ok(v) => Ok(v as i8),
            Err(e) => Err(e),
        }
    }
}

impl Deserialize for i16 {
    open spec fn deserialize_error(val: Value) -> Option<ErrorView> {
        error_of(integer_in(val, i16::MIN as int, i16::MAX as int, "integer"@))
    }

    open spec fn deserializes_to(val: Value, out: Self) -> bool {
        integer_in(val, i16::MIN as int, i16::MAX as int, "integer"@) == Ok::<int, ErrorView>(
            out as int,
        )
    }

    fn deserialize(val: &Intermediate) -> (r: Result<Self, Error>) {
        match integer_in_range(val, i16::MIN as i128, i16::MAX as i128, "integer") {
            Ok(v) => Ok(v as i16),
            Err(e) => Err(e),
        }
    }
}

impl Deserialize for i32 {
    open spec fn deserialize_error(val: Value) -> Option<ErrorView> {
        error_of(integer_in(val, i32::MIN as int, i32::MAX as int, "integer"@))
    }

    open spec fn deserializes_to(val: Value, out: Self) -> bool {
        integer_in(val, i32::MIN as int, i32::MAX as int, "integer"@) == Ok::<int, ErrorView>(
            out as int,
        )
    }

    fn deserialize(val: &Intermediate) -> (r: Result<Self, Error>) {
        match integer_in_range(val, i32::MIN as i128, i32::MAX as i128, "integer") {
            Ok(v) => Ok(v as i32),
            Err(e) => Err(e),
        }
    }
}

impl Deserialize for i64 {
    open spec fn deserialize_error(val: Value) -> Option<ErrorView> {
        error_of(integer_in(val, i64::MIN as int, i64::MAX as int, "integer"@))
    }

    open spec fn deserializes_to(val: Value, out: Self) -> bool {
        integer_in(val, i64::MIN as int, i64::MAX as int, "integer"@) == Ok::<int, ErrorView>(
            out as int,
        )
    }

    fn deserialize(val: &Intermediate) -> (r: Result<Self, Error>) {
        match integer_in_range(val, i64::MIN as i128, i64::MAX as i128, "integer") {
            Ok(v) => Ok(v as i64),
            Err(e) => Err(e),
        }
    }
}

impl Deserialize for isize {
    open spec fn deserialize_error(val: Value) -> Option<ErrorView> {
        error_of(integer_in(val, isize::MIN as int, isize::MAX as int, "integer"@))
    }

    open spec fn deserializes_to(val: Value, out: Self) -> bool {
        integer_in(val, isize::MIN as int, isize::MAX as int, "integer"@) == Ok::<int, ErrorView>(
            out as int,
        )
    }

    fn deserialize(val: &Intermediate) -> (r: Result<Self, Error>) {
        match integer_in_range(val, isize::MIN as i128, isize::MAX as i128, "integer") {
            Ok(v) => Ok(v as isize),
            Err(e) => Err(e),
        }
    }
}

impl Deserialize for i128 {
    open spec fn deserialize_error(val: Value) -> Option<ErrorView> {
        error_of(integer_in(val, i64::MIN as int, i64::MAX as int, "integer"@))
    }

    open spec fn deserializes_to(val: Value, out: Self) -> bool {
        integer_in(val, i64::MIN as int, i64::MAX as int, "integer"@) == Ok::<int, ErrorView>(
            out as int,
        )
    }

    fn deserialize(val: &Intermediate) -> (r: Result<Self, Error>) {
        match integer_in_range(val, i64::MIN as i128, i64::MAX as i128, "integer") {
            Ok(v) => Ok(v as i128),
            Err(e) => Err(e),
        }
    }
}

impl Deserialize for u8 {
    open spec fn deserialize_error(val: Value) -> Option<ErrorView> {
        error_of(integer_in(val, u8::MIN as int, u8::MAX as int, "unsigned integer"@))
    }

    open spec fn deserializes_to(val: Value, out: Self) -> bool {
        integer_in(val, u8::MIN as int, u8::MAX as int, "unsigned integer"@) == Ok::<int, ErrorView>(
            out as int,
        )
    }

    fn deserialize(val: &Intermediate) -> (r: Result<Self, Error>) {
        match integer_in_range(val, u8::MIN as i128, u8::MAX as i128, "unsigned integer") {
            Ok(v) => Ok(v as u8),
            Err(e) => Err(e),
        }
    }
}

impl Deserialize for u16 {
    open spec fn deserialize_error(val: Value) -> Option<ErrorView> {
        error_of(integer_in(val, u16::MIN as int, u16::MAX as int, "unsigned integer"@))
    }

    open spec fn deserializes_to(val: Value, out: Self) -> bool {
        integer_in(val, u16::MIN as int, u16::MAX as int, "unsigned integer"@) == Ok::<int, ErrorView>(
            out as int,
        )
    }

    fn deserialize(val: &Intermediate) -> (r: Result<Self, Error>) {
        match integer_in_range(val, u16::MIN as i128, u16::MAX as i128, "unsigned integer") {
            Ok(v) => Ok(v as u16),
            Err(e) => Err(e),
        }
    }
}

impl Deserialize for u32 {
    open spec fn deserialize_error(val: Value) -> Option<ErrorView> {
        error_of(integer_in(val, u32::MIN as int, u32::MAX as int, "unsigned integer"@))
    }

    open spec fn deserializes_to(val: Value, out: Self) -> bool {
        integer_in(val, u32::MIN as int, u32::MAX as int, "unsigned integer"@) == Ok::<int, ErrorView>(
            out as int,
        )
    }

    fn deserialize(val: &Intermediate) -> (r: Result<Self, Error>) {
        match integer_in_range(val, u32::MIN as i128, u32::MAX as i128, "unsigned integer") {
            Ok(v) => Ok(v as u32),
            Err(e) => Err(e),
        }
    }
}

impl Deserialize for u64 {
    open spec fn deserialize_error(val: Value) -> Option<ErrorView> {
        error_of(integer_in(val, u64::MIN as int, u64::MAX as int, "unsigned integer"@))
    }

    open spec fn deserializes_to(val: Value, out: Self) -> bool {
        integer_in(val, u64::MIN as int, u64::MAX as int, "unsigned integer"@) == Ok::<int, ErrorView>(
            out as int,
        )
    }

    fn deserialize(val: &Intermediate) -> (r: Result<Self, Error>) {
        match integer_in_range(val, u64::MIN as i128, u64::MAX as i128, "unsigned integer") {
            Ok(v) => Ok(v as u64),
            Err(e) => Err(e),
        }
    }
}

impl Deserialize for usize {
    open spec fn deserialize_error(val: Value) -> Option<ErrorView> {
        error_of(integer_in(val, usize::MIN as int, usize::MAX as int, "unsigned integer"@))
    }

    open spec fn deserializes_to(val: Value, out: Self) -> bool {
        integer_in(val, usize::MIN as int, usize::MAX as int, "unsigned integer"@) == Ok::<int, ErrorView>(
            out as int,
        )
    }

    fn deserialize(val: &Intermediate) -> (r: Result<Self, Error>) {
        match integer_in_range(val, usize::MIN as i128, usize::MAX as i128, "unsigned integer") {
            Ok(v) => Ok(v as usize),
            Err(e) => Err(e),
        }
    }
}

impl Deserialize for u128 {
    open spec fn deserialize_error(val: Value) -> Option<ErrorView> {
        error_of(integer_in(val, u64::MIN as int, u64::MAX as int, "unsigned integer"@))
    }

    open spec fn deserializes_to(val: Value, out: Self) -> bool {
        integer_in(val, u64::MIN as int, u64::MAX as int, "unsigned integer"@) == Ok::<int, ErrorView>(
            out as int,
        )
    }

    fn deserialize(val: &Intermediate) -> (r: Result<Self, Error>) {
        match integer_in_range(val, u64::MIN as i128, u64::MAX as i128, "unsigned integer") {
            Ok(v) => Ok(v as u128),
            Err(e) => Err(e),
        }
    }
}

impl Deserialize for char {
    open spec fn deserialize_error(val: Value) -> Option<ErrorView> {
        if val is String && val->String_0.len() == 1 {
            None
        } else {
            Some(ErrorView::InvalidValue("character"@))
        }
    }

    open spec fn deserializes_to(val: Value, out: Self) -> bool {
        val == Value::String(seq![out])
    }

    fn deserialize(val: &Intermediate) -> (r: Result<Self, Error>) {
        match val.as_char() {
            Some(c) => {
                assert(val@->String_0 =~= seq![c]);
                Ok(c)
            },
            None => Err(Error::invalid_value_static("character")),
        }
    }
}

impl Deserialize for String {
    open spec fn deserialize_error(val: Value) -> Option<ErrorView> {
        if val is String {
            None
        } else {
            Some(ErrorView::InvalidValue("string"@))
        }
    }

    open spec fn deserializes_to(val: Value, out: Self) -> bool {
        val == Value::String(out@)
    }

    fn deserialize(val: &Intermediate) -> (r: Result<Self, Error>) {
        match val.as_str() {
            Some(s) => Ok(s.to_owned()),
            None => Err(Error::invalid_value_static("string")),
        }
    }
}

impl<T> Deserialize for Option<T> where T: Deserialize {
    open spec fn deserialize_error(val: Value) -> Option<ErrorView> {
        if val is Null {
            None
        } else {
            T::deserialize_error(val)
        }
    }

    open spec fn deserializes_to(val: Value, out: Self) -> bool {
        match out {
            None => val is Null,
            Some(inner) => !(val is Null) && T::deserializes_to(val, inner),
        }
    }

    fn deserialize(val: &Intermediate) -> (r: Result<Self, Error>) {
        if val.is_none() {
            Ok(None)
        } else {
            match T::deserialize(val) {
                Ok(inner) => Ok(Some(inner)),
                Err(e) => Err(e),
            }
        }
    }
}

/// The error of the first value, in their order, that fails to deserialize
/// as a `T`; `None` where none fails.
pub open spec fn first_item_error<T: Deserialize>(items: Seq<Value>) -> Option<ErrorView>
    decreases items.len(),
{
    if items.len() == 0 {
        None
    } else {
        match first_item_error::<T>(items.drop_last()) {
            Some(e) => Some(e),
            None => T::deserialize_error(items.last()),
        }
    }
}

/// Whether each of `out` is what the value at the same place deserializes
/// to, as many values as `out` has items.
pub open spec fn items_deserialize_to<T: Deserialize>(items: Seq<Value>, out: Seq<T>) -> bool {
    out.len() <= items.len() && forall|i: int|
        0 <= i < out.len() ==> T::deserializes_to(items[i], #[trigger] out[i])
}

/// The first error among the first values is the first error among them
/// all.
pub proof fn lemma_first_item_error<T: Deserialize>(items: Seq<Value>, k: int)
    requires
        0 <= k <= items.len(),
        first_item_error::<T>(items.subrange(0, k)) is Some,
    ensures
        first_item_error::<T>(items) == first_item_error::<T>(items.subrange(0, k)),
    decreases items.len() - k,
{
    if k == items.len() {
        assert(items.subrange(0, k) =~= items);
    } else {
        assert(items.drop_last().subrange(0, k) =~= items.subrange(0, k));
        lemma_first_item_error::<T>(items.drop_last(), k);
    }
}

/// Deserialize the first `count` values of a slice, in their order, up to
/// the first that fails.
pub fn deserialize_items<T>(items: &[Intermediate], count: usize) -> (r: Result<Vec<T>, Error>) where
    T: Deserialize,

    requires
        count <= items@.len(),
    ensures
        match r {
            Ok(out) => first_item_error::<T>(values_of(items@).subrange(0, count as int)) is None
                && out@.len() == count && items_deserialize_to(values_of(items@), out@),
            Err(e) => first_item_error::<T>(values_of(items@).subrange(0, count as int)) == Some(
                e@,
            ),
        },
{
    let mut out: Vec<T> = Vec::with_capacity(count);
    let mut i: usize = 0;
    let ghost values = values_of(items@).subrange(0, count as int);
    proof {
        lemma_values_of(items@);
        assert(values.subrange(0, 0) =~= Seq::<Value>::empty());
    }
    while i < count
        invariant
            i <= count <= items@.len(),
            values == values_of(items@).subrange(0, count as int),
            values_of(items@).len() == items@.len(),
            forall|j: int| 0 <= j < items@.len() ==> values_of(items@)[j] == items@[j]@,
            first_item_error::<T>(values.subrange(0, i as int)) is None,
            out@.len() == i,
            items_deserialize_to(values_of(items@), out@),
        decreases count - i,
    {
        proof {
            assert(values.subrange(0, i + 1).drop_last() =~= values.subrange(0, i as int));
            assert(values.subrange(0, i + 1).last() == items@[i as int]@);
        }
        match T::deserialize(&items[i]) {
            Ok(item) => {
                out.push(item);
            },
            Err(e) => {
                proof {
                    lemma_first_item_error::<T>(values, i + 1);
                }
                return Err(e);
            },
        }
        i += 1;
    }
    proof {
        assert(values.subrange(0, count as int) =~= values);
    }
    Ok(out)
}

impl<T> Deserialize for Vec<T> where T: Deserialize {
    open spec fn deserialize_error(val: Value) -> Option<ErrorView> {
        match val {
            Value::Array(items) => first_item_error::<T>(items),
            _ => Some(ErrorView::InvalidValue("array"@)),
        }
    }

    open spec fn deserializes_to(val: Value, out: Self) -> bool {
        val is Array && out@.len() == val->Array_0.len() && items_deserialize_to(
            val->Array_0,
            out@,
        )
    }

    fn deserialize(val: &Intermediate) -> (r: Result<Self, Error>) {
        match val.as_array() {
            Some(items) => {
                proof {
                    lemma_values_of(items@);
                    assert(values_of(items@).subrange(0, items@.len() as int) =~= values_of(
                        items@,
                    ));
                }
                deserialize_items(items, items.len())
            },
            None => Err(Error::invalid_value_static("array")),
        }
    }
}

/// The words for an array that is too short, or no array.
pub open spec fn array_of_length(n: nat) -> Seq<char> {
    "an array of length "@ + decimal(n)
}

/// The error of a value that has to be an array of `n` values or more,
/// each of the first `n` a `T`: the value is no such array, or one of the
/// `n` fails.
pub open spec fn array_error<T: Deserialize>(val: Value, n: nat) -> Option<ErrorView> {
    match val {
        Value::Array(items) => if items.len() < n {
            Some(ErrorView::InvalidValue(array_of_length(n)))
        } else {
            first_item_error::<T>(items.subrange(0, n as int))
        },
        _ => Some(ErrorView::InvalidValue(array_of_length(n))),
    }
}

/// The error that names the length an array has to have.
pub fn array_length_error(n: usize) -> (r: Error)
    ensures
        r@ == ErrorView::InvalidValue(array_of_length(n as nat)),
{
    let mut msg = "an array of length ".to_owned();
    let digits = u64_to_decimal(n as u64);
    msg.append(digits.as_str());
    Error::InvalidValue(msg)
}

/// `<[T; N]>::try_from(Vec<T>)`: the array of the items of a vector that
/// has exactly `N` of them; a vector of another length gives none.
#[verifier::external_body]
fn vec_into_array<T, const N: usize>(v: Vec<T>) -> (r: Option<[T; N]>)
    ensures
        match r {
            Some(a) => v@.len() == N && a@ == v@,
            None => v@.len() != N,
        },
{
    <[T; N]>::try_from(v).ok()
}

impl<T, const N: usize> Deserialize for [T; N] where T: Deserialize {
    open spec fn deserialize_error(val: Value) -> Option<ErrorView> {
        if N == 0 {
            None
        } else {
            array_error::<T>(val, N as nat)
        }
    }

    open spec fn deserializes_to(val: Value, out: Self) -> bool {
        N == 0 || (val is Array && items_deserialize_to(val->Array_0, out@))
    }

    fn deserialize(val: &Intermediate) -> (r: Result<Self, Error>) {
        if N == 0 {
            let empty: Vec<T> = Vec::new();
            match vec_into_array::<T, N>(empty) {
                Some(a) => Ok(a),
                None => Err(Error::OutOfBounds),
            }
        } else {
            match val.as_array() {
                Some(items) => {
                    proof {
                        lemma_values_of(items@);
                    }
                    if items.len() < N {
                        return Err(array_length_error(N));
                    }
                    match deserialize_items::<T>(items, N) {
                        Ok(v) => match vec_into_array::<T, N>(v) {
                            Some(a) => Ok(a),
                            None => Err(Error::OutOfBounds),
                        },
                        Err(e) => Err(e),
                    }
                },
                None => Err(array_length_error(N)),
            }
        }
    }
}

impl Deserialize for () {
    open spec fn deserialize_error(val: Value) -> Option<ErrorView> {
        None
    }

    open spec fn deserializes_to(val: Value, out: Self) -> bool {
        true
    }

    fn deserialize(val: &Intermediate) -> (r: Result<Self, Error>) {
        Ok(())
    }
}

/// The items of a value that is an array of `n` values or more.
pub(crate) fn array_of_at_least(val: &Intermediate, n: usize) -> (r: Result<&[Intermediate], Error>)
    ensures
        match r {
            Ok(items) => val@ == Value::Array(values_of(items@)) && items@.len() >= n
                && values_of(items@).len() == items@.len() && forall|j: int|
                0 <= j < items@.len() ==> values_of(items@)[j] == items@[j]@,
            Err(e) => e@ == ErrorView::InvalidValue(array_of_length(n as nat)) && !(val@ is Array
                && val@->Array_0.len() >= n),
        },
{
    match val.as_array() {
        Some(items) => {
            proof {
                lemma_values_of(items@);
            }
            if items.len() < n {
                Err(array_length_error(n))
            } else {
                Ok(items)
            }
        },
        None => Err(array_length_error(n)),
    }
}

impl<T> Deserialize for Box<T> where T: Deserialize {
    open spec fn deserialize_error(val: Value) -> Option<ErrorView> {
        T::deserialize_error(val)
    }

    open spec fn deserializes_to(val: Value, out: Self) -> bool {
        T::deserializes_to(val, *out)
    }

    fn deserialize(val: &Intermediate) -> (r: Result<Self, Error>) {
        match T::deserialize(val) {
            Ok(inner) => Ok(Box::new(inner)),
            Err(e) => Err(e),
        }
    }
}

impl<T> Deserialize for Rc<T> where T: Deserialize {
    open spec fn deserialize_error(val: Value) -> Option<ErrorView> {
        T::deserialize_error(val)
    }

    open spec fn deserializes_to(val: Value, out: Self) -> bool {
        T::deserializes_to(val, *out)
    }

    fn deserialize(val: &Intermediate) -> (r: Result<Self, Error>) {
        match T::deserialize(val) {
            Ok(inner) => Ok(Rc::new(inner)),
            Err(e) => Err(e),
        }
    }
}

impl<T> Deserialize for Arc<T> where T: Deserialize {
    open spec fn deserialize_error(val: Value) -> Option<ErrorView> {
        T::deserialize_error(val)
    }

    open spec fn deserializes_to(val: Value, out: Self) -> bool {
        T::deserializes_to(val, *out)
    }

    fn deserialize(val: &Intermediate) -> (r: Result<Self, Error>) {
        match T::deserialize(val) {
            Ok(inner) => Ok(Arc::new(inner)),
            Err(e) => Err(e),
        }
    }
}

impl Deserialize for Intermediate {
    open spec fn deserialize_error(val: Value) -> Option<ErrorView> {
        None
    }

    open spec fn deserializes_to(val: Value, out: Self) -> bool {
        out@ == val
    }

    fn deserialize(val: &Intermediate) -> (r: Result<Self, Error>) {
        Ok(val.clone())
    }
}

impl Deserialize for Object {
    open spec fn deserialize_error(val: Value) -> Option<ErrorView> {
        if val is Object {
            None
        } else {
            Some(ErrorView::InvalidValue("map"@))
        }
    }

    open spec fn deserializes_to(val: Value, out: Self) -> bool {
        val == Value::Object(out@)
    }

    fn deserialize(val: &Intermediate) -> (r: Result<Self, Error>) {
        match val.as_map() {
            Some(map) => Ok(map.clone()),
            None => Err(Error::invalid_value_static("map")),
        }
    }
}

} // verus!
