//! The serialize protocol: from a typed value to an intermediate value.
use std::rc::Rc;
use std::sync::Arc;
use vstd::prelude::*;
use crate::error::{
    lemma_unnamed_views, unnamed_views, Error, ErrorList, ErrorView, UnnamedFieldError,
};
use crate::intermediate::{lemma_values_of, values_of, Intermediate, Value};
use crate::number::Number;
use crate::object::Object;
use crate::text::push_char;

verus! {

/// A result of `serialize`, as the values and errors it stands for.
pub open spec fn serialize_view(r: Result<Intermediate, Error>) -> Result<Value, ErrorView> {
    match r {
        Ok(v) => Ok(v@),
        Err(e) => Err(e@),
    }
}

/// Serialize trait.
///
/// The trait can be implemented by objects the can serialized to the
/// intermediate representation.
pub trait Serialize {
    /// What `serialize` returns for this value.
    open spec fn serialized(&self) -> Result<Value, ErrorView> {
        arbitrary()
    }

    /// Serialize the object.
    fn serialize(&self) -> (r: Result<Intermediate, Error>)
        ensures
            serialize_view(r) == self.serialized(),
    ;
}

/// A whole number as a signed number of the intermediate value, where it
/// fits into 64 bits.
pub open spec fn signed(v: int) -> Result<Value, ErrorView> {
    if i64::MIN <= v <= i64::MAX {
        Ok(Value::Number(Number::SignedInt(v as i64)))
    } else {
        Err(ErrorView::OutOfBounds)
    }
}

/// A whole number as an unsigned number of the intermediate value, where it
/// fits into 64 bits.
pub open spec fn unsigned(v: int) -> Result<Value, ErrorView> {
    if 0 <= v <= u64::MAX {
        Ok(Value::Number(Number::UnsignedInt(v as u64)))
    } else {
        Err(ErrorView::OutOfBounds)
    }
}

impl Serialize for bool {
    open spec fn serialized(&self) -> Result<Value, ErrorView> {
        Ok(Value::Bool(*self))
    }

    fn serialize(&self) -> (r: Result<Intermediate, Error>) {
        Ok(Intermediate::Bool(*self))
    }
}

impl Serialize for i8 {
    open spec fn serialized(&self) -> Result<Value, ErrorView> {
        signed(*self as int)
    }

    fn serialize(&self) -> (r: Result<Intermediate, Error>) {
        Ok(Intermediate::Number(Number::SignedInt(*self as i64)))
    }
}

impl Serialize for i16 {
    open spec fn serialized(&self) -> Result<Value, ErrorView> {
        signed(*self as int)
    }

    fn serialize(&self) -> (r: Result<Intermediate, Error>) {
        Ok(Intermediate::Number(Number::SignedInt(*self as i64)))
    }
}

impl Serialize for i32 {
    open spec fn serialized(&self) -> Result<Value, ErrorView> {
        signed(*self as int)
    }

    fn serialize(&self) -> (r: Result<Intermediate, Error>) {
        Ok(Intermediate::Number(Number::SignedInt(*self as i64)))
    }
}

impl Serialize for i64 {
    open spec fn serialized(&self) -> Result<Value, ErrorView> {
        signed(*self as int)
    }

    fn serialize(&self) -> (r: Result<Intermediate, Error>) {
        Ok(Intermediate::Number(Number::SignedInt(*self)))
    }
}

impl Serialize for u8 {
    open spec fn serialized(&self) -> Result<Value, ErrorView> {
        unsigned(*self as int)
    }

    fn serialize(&self) -> (r: Result<Intermediate, Error>) {
        Ok(Intermediate::Number(Number::UnsignedInt(*self as u64)))
    }
}

impl Serialize for u16 {
    open spec fn serialized(&self) -> Result<Value, ErrorView> {
        unsigned(*self as int)
    }

    fn serialize(&self) -> (r: Result<Intermediate, Error>) {
        Ok(Intermediate::Number(Number::UnsignedInt(*self as u64)))
    }
}

impl Serialize for u32 {
    open spec fn serialized(&self) -> Result<Value, ErrorView> {
        unsigned(*self as int)
    }

    fn serialize(&self) -> (r: Result<Intermediate, Error>) {
        Ok(Intermediate::Number(Number::UnsignedInt(*self as u64)))
    }
}

impl Serialize for u64 {
    open spec fn serialized(&self) -> Result<Value, ErrorView> {
        unsigned(*self as int)
    }

    fn serialize(&self) -> (r: Result<Intermediate, Error>) {
        Ok(Intermediate::Number(Number::UnsignedInt(*self)))
    }
}

impl Serialize for i128 {
    open spec fn serialized(&self) -> Result<Value, ErrorView> {
        signed(*self as int)
    }

    fn serialize(&self) -> (r: Result<Intermediate, Error>) {
        if *self >= i64::MIN as i128 && *self <= i64::MAX as i128 {
            Ok(Intermediate::Number(Number::SignedInt(*self as i64)))
        } else {
            Err(Error::OutOfBounds)
        }
    }
}

impl Serialize for u128 {
    open spec fn serialized(&self) -> Result<Value, ErrorView> {
        unsigned(*self as int)
    }

    fn serialize(&self) -> (r: Result<Intermediate, Error>) {
        if *self <= u64::MAX as u128 {
            Ok(Intermediate::Number(Number::UnsignedInt(*self as u64)))
        } else {
            Err(Error::OutOfBounds)
        }
    }
}

impl Serialize for isize {
    open spec fn serialized(&self) -> Result<Value, ErrorView> {
        signed(*self as int)
    }

    fn serialize(&self) -> (r: Result<Intermediate, Error>) {
        Ok(Intermediate::Number(Number::SignedInt(*self as i64)))
    }
}

impl Serialize for usize {
    open spec fn serialized(&self) -> Result<Value, ErrorView> {
        unsigned(*self as int)
    }

    fn serialize(&self) -> (r: Result<Intermediate, Error>) {
        Ok(Intermediate::Number(Number::UnsignedInt(*self as u64)))
    }
}

impl Serialize for char {
    open spec fn serialized(&self) -> Result<Value, ErrorView> {
        Ok(Value::String(seq![*self]))
    }

    fn serialize(&self) -> (r: Result<Intermediate, Error>) {
        let mut s = String::new();
        push_char(&mut s, *self);
        assert(s@ =~= seq![*self]);
        Ok(Intermediate::String(s))
    }
}

impl Serialize for String {
    open spec fn serialized(&self) -> Result<Value, ErrorView> {
        Ok(Value::String(self@))
    }

    fn serialize(&self) -> (r: Result<Intermediate, Error>) {
        Ok(Intermediate::String(self.clone()))
    }
}

impl<'a> Serialize for &'a str {
    open spec fn serialized(&self) -> Result<Value, ErrorView> {
        Ok(Value::String(self@))
    }

    fn serialize(&self) -> (r: Result<Intermediate, Error>) {
        Ok(Intermediate::String((*self).to_owned()))
    }
}

impl<T> Serialize for Option<T> where T: Serialize {
    open spec fn serialized(&self) -> Result<Value, ErrorView> {
        match self {
            Some(inner) => inner.serialized(),
            None => Ok(Value::Null),
        }
    }

    fn serialize(&self) -> (r: Result<Intermediate, Error>) {
        match self {
            Some(inner) => inner.serialize(),
            None => Ok(Intermediate::Null),
        }
    }
}

/// The errors of the items that fail to serialize, each with the place of
/// its item, in the order of the items.
pub open spec fn item_errors<T: Serialize>(items: Seq<T>) -> Seq<(usize, ErrorView)>
    decreases items.len(),
{
    if items.len() == 0 {
        Seq::empty()
    } else {
        let before = item_errors(items.drop_last());
        match items.last().serialized() {
            Err(e) => before.push(((items.len() - 1) as usize, e)),
            Ok(_) => before,
        }
    }
}

/// What each item is serialized to; `Null` stands in for an item that
/// fails.
pub open spec fn item_values<T: Serialize>(items: Seq<T>) -> Seq<Value> {
    Seq::new(
        items.len(),
        |i: int|
            match items[i].serialized() {
                Ok(v) => v,
                Err(_) => Value::Null,
            },
    )
}

/// What a sequence of items is serialized to: the array of what the items
/// are serialized to, or, where some of them fail, all their errors
/// together.
pub open spec fn serialized_items<T: Serialize>(items: Seq<T>) -> Result<Value, ErrorView> {
    if item_errors(items).len() == 0 {
        Ok(Value::Array(item_values(items)))
    } else {
        Err(ErrorView::UnnamedFieldErrors(item_errors(items)))
    }
}

/// There is no error exactly where every item serializes.
pub proof fn lemma_item_errors<T: Serialize>(items: Seq<T>)
    ensures
        item_errors(items).len() == 0 <==> forall|i: int|
            0 <= i < items.len() ==> (#[trigger] items[i]).serialized() is Ok,
        item_errors(items).len() <= items.len(),
    decreases items.len(),
{
    if items.len() > 0 {
        lemma_item_errors(items.drop_last());
        assert forall|i: int| 0 <= i < items.len() - 1 implies items.drop_last()[i]
            == items[i] by {}
        if item_errors(items).len() == 0 {
            assert forall|i: int| 0 <= i < items.len() implies (#[trigger] items[i]).serialized() is Ok by {
                if i < items.len() - 1 {
                    assert(items.drop_last()[i] == items[i]);
                }
            }
        } else {
            if forall|i: int| 0 <= i < items.len() ==> (#[trigger] items[i]).serialized() is Ok {
                assert(items.last() == items[items.len() - 1]);
                assert forall|i: int| 0 <= i < items.len() - 1 implies (#[trigger] items.drop_last()[i]).serialized() is Ok by {
                    assert(items.drop_last()[i] == items[i]);
                }
            }
        }
    }
}

/// Serialize the items of a slice into an array.
pub fn serialize_slice<T>(v: &[T]) -> (r: Result<Intermediate, Error>) where T: Serialize
    ensures
        serialize_view(r) == serialized_items(v@),
{
    let mut res: Vec<Intermediate> = Vec::with_capacity(v.len());
    let mut errors: ErrorList<UnnamedFieldError> = ErrorList::new();
    let mut i: usize = 0;
    proof {
        assert(v@.subrange(0, 0) =~= Seq::<T>::empty());
    }
    while i < v.len()
        invariant
            i <= v.len(),
            unnamed_views(errors@) == item_errors(v@.subrange(0, i as int)),
            errors@.len() == 0 ==> res@.len() == i && forall|j: int|
                0 <= j < i ==> (#[trigger] v@[j]).serialized() == Ok::<Value, ErrorView>(
                    res@[j]@,
                ),
        decreases v.len() - i,
    {
        let ghost before = v@.subrange(0, i as int);
        let ghost now = v@.subrange(0, i + 1);
        proof {
            assert(now.drop_last() =~= before);
            assert(now.last() == v@[i as int]);
            lemma_unnamed_views(errors@);
        }
        match v[i].serialize() {
            Ok(value) => {
                res.push(value);
            },
            Err(err) => {
                let ghost old_errors = errors@;
                errors.push(UnnamedFieldError::new(i, err));
                proof {
                    assert(errors@.subrange(0, errors@.len() - 1) =~= old_errors);
                    lemma_unnamed_views(errors@);
                }
            },
        }
        i += 1;
    }
    proof {
        assert(v@.subrange(0, v@.len() as int) =~= v@);
        lemma_unnamed_views(errors@);
    }
    if errors.is_empty() {
        proof {
            lemma_values_of(res@);
            assert(values_of(res@) =~= item_values(v@));
        }
        Ok(Intermediate::Array(res))
    } else {
        Err(Error::UnnamedFieldErrors(errors))
    }
}

impl<'a, T> Serialize for &'a [T] where T: Serialize {
    open spec fn serialized(&self) -> Result<Value, ErrorView> {
        serialized_items(self@)
    }

    fn serialize(&self) -> (r: Result<Intermediate, Error>) {
        serialize_slice(*self)
    }
}

impl<'a, T> Serialize for &'a mut [T] where T: Serialize {
    open spec fn serialized(&self) -> Result<Value, ErrorView> {
        serialized_items(self@)
    }

    fn serialize(&self) -> (r: Result<Intermediate, Error>) {
        serialize_slice(&**self)
    }
}

impl<T> Serialize for Vec<T> where T: Serialize {
    open spec fn serialized(&self) -> Result<Value, ErrorView> {
        serialized_items(self@)
    }

    fn serialize(&self) -> (r: Result<Intermediate, Error>) {
        serialize_slice(self.as_slice())
    }
}

impl<T, const N: usize> Serialize for [T; N] where T: Serialize {
    open spec fn serialized(&self) -> Result<Value, ErrorView> {
        serialized_items(self@)
    }

    fn serialize(&self) -> (r: Result<Intermediate, Error>) {
        serialize_slice(self.as_slice())
    }
}

impl Serialize for () {
    open spec fn serialized(&self) -> Result<Value, ErrorView> {
        Ok(Value::Array(Seq::empty()))
    }

    fn serialize(&self) -> (r: Result<Intermediate, Error>) {
        let items: Vec<Intermediate> = Vec::new();
        proof {
            lemma_values_of(items@);
            assert(values_of(items@) =~= Seq::<Value>::empty());
        }
        Ok(Intermediate::Array(items))
    }
}


impl<'a, T> Serialize for &'a T where T: Serialize + ?Sized {
    open spec fn serialized(&self) -> Result<Value, ErrorView> {
        (**self).serialized()
    }

    fn serialize(&self) -> (r: Result<Intermediate, Error>) {
        (**self).serialize()
    }
}

impl<'a, T> Serialize for &'a mut T where T: Serialize + ?Sized {
    open spec fn serialized(&self) -> Result<Value, ErrorView> {
        (**self).serialized()
    }

    fn serialize(&self) -> (r: Result<Intermediate, Error>) {
        (**self).serialize()
    }
}

impl<T> Serialize for Box<T> where T: Serialize + ?Sized {
    open spec fn serialized(&self) -> Result<Value, ErrorView> {
        (**self).serialized()
    }

    fn serialize(&self) -> (r: Result<Intermediate, Error>) {
        (**self).serialize()
    }
}

impl<T> Serialize for Rc<T> where T: Serialize {
    open spec fn serialized(&self) -> Result<Value, ErrorView> {
        (**self).serialized()
    }

    fn serialize(&self) -> (r: Result<Intermediate, Error>) {
        (**self).serialize()
    }
}

impl<T> Serialize for Arc<T> where T: Serialize {
    open spec fn serialized(&self) -> Result<Value, ErrorView> {
        (**self).serialized()
    }

    fn serialize(&self) -> (r: Result<Intermediate, Error>) {
        (**self).serialize()
    }
}

impl Serialize for Intermediate {
    open spec fn serialized(&self) -> Result<Value, ErrorView> {
        Ok(self@)
    }

    fn serialize(&self) -> (r: Result<Intermediate, Error>) {
        Ok(self.clone())
    }
}

impl Serialize for Object {
    open spec fn serialized(&self) -> Result<Value, ErrorView> {
        Ok(Value::Object(self@))
    }

    fn serialize(&self) -> (r: Result<Intermediate, Error>) {
        Ok(Intermediate::Object(self.clone()))
    }
}

} // verus!
