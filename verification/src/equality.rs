//! Equality of intermediate values: two values are equal where they stand
//! for the same tree, the entries of an object in the same order.
use vstd::prelude::*;
use vstd::std_specs::cmp::PartialEqSpecImpl;
use crate::intermediate::{lemma_values_of, values_of, Intermediate, Value};
use crate::object::Object;

verus! {

/// Whether two objects have the same entries in the same order.
pub fn same_object(a: &Object, b: &Object) -> (r: bool)
    ensures
        r == (a@ == b@),
    decreases a@,
{
    if a.len() != b.len() {
        return false;
    }
    let mut i: usize = 0;
    while i < a.len()
        invariant
            i <= a@.len(),
            a@.len() == b@.len(),
            forall|j: int| 0 <= j < i ==> a@[j] == b@[j],
        decreases a@.len() - i,
    {
        match (a.get_index(i), b.get_index(i)) {
            (Some((ka, va)), Some((kb, vb))) => {
                proof {
                    assert(decreases_to!(a@ => a@[i as int]));
                    assert(decreases_to!(a@[i as int] => a@[i as int].1));
                }
                if !(*ka == *kb) {
                    return false;
                }
                if !same_value(va, vb) {
                    return false;
                }
            },
            _ => {
                return false;
            },
        }
        i += 1;
    }
    assert(a@ =~= b@);
    true
}

/// Whether two values stand for the same tree.
pub fn same_value(a: &Intermediate, b: &Intermediate) -> (r: bool)
    ensures
        r == (a@ == b@),
    decreases a@,
{
    match (a, b) {
        (Intermediate::Null, Intermediate::Null) => true,
        (Intermediate::Bool(x), Intermediate::Bool(y)) => *x == *y,
        (Intermediate::Number(x), Intermediate::Number(y)) => *x == *y,
        (Intermediate::String(x), Intermediate::String(y)) => *x == *y,
        (Intermediate::Array(x), Intermediate::Array(y)) => {
            proof {
                lemma_values_of(x@);
                lemma_values_of(y@);
            }
            if x.len() != y.len() {
                return false;
            }
            let mut i: usize = 0;
            while i < x.len()
                invariant
                    i <= x@.len(),
                    x@.len() == y@.len(),
                    a@ == Value::Array(values_of(x@)),
                    b@ == Value::Array(values_of(y@)),
                    values_of(x@).len() == x@.len(),
                    values_of(y@).len() == y@.len(),
                    forall|j: int| 0 <= j < x@.len() ==> values_of(x@)[j] == x@[j]@,
                    forall|j: int| 0 <= j < y@.len() ==> values_of(y@)[j] == y@[j]@,
                    forall|j: int| 0 <= j < i ==> x@[j]@ == y@[j]@,
                decreases x@.len() - i,
            {
                proof {
                    assert(decreases_to!(a@ => a@->Array_0));
                    assert(decreases_to!(a@->Array_0 => a@->Array_0[i as int]));
                }
                if !same_value(&x[i], &y[i]) {
                    assert(values_of(x@)[i as int] != values_of(y@)[i as int]);
                    return false;
                }
                i += 1;
            }
            assert(values_of(x@) =~= values_of(y@));
            true
        },
        (Intermediate::Object(x), Intermediate::Object(y)) => {
            proof {
                assert(decreases_to!(a@ => a@->Object_0));
            }
            same_object(x, y)
        },
        _ => false,
    }
}

impl PartialEq for Intermediate {
    fn eq(&self, other: &Self) -> (r: bool) {
        same_value(self, other)
    }
}

impl PartialEqSpecImpl for Intermediate {
    open spec fn obeys_eq_spec() -> bool {
        true
    }

    open spec fn eq_spec(&self, other: &Self) -> bool {
        self@ == other@
    }
}

impl PartialEq for Object {
    fn eq(&self, other: &Self) -> (r: bool) {
        same_object(self, other)
    }
}

impl PartialEqSpecImpl for Object {
    open spec fn obeys_eq_spec() -> bool {
        true
    }

    open spec fn eq_spec(&self, other: &Self) -> bool {
        self@ == other@
    }
}

} // verus!
