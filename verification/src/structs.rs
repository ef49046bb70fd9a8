//! The three protocols for structs: what an implementation for a struct
//! with named or unnamed fields does with what the protocols make of its
//! fields.
use vstd::prelude::*;
use crate::error::{
    lemma_named_views, lemma_unnamed_views, named_views, unnamed_views, Error, ErrorList,
    ErrorView, NamedFieldError, UnnamedFieldError,
};
use crate::intermediate::{lemma_values_of, values_of, Intermediate, Value};
use crate::deserialize::Deserialize;
use crate::object::{insert_entry, lookup, Object};
use crate::serialize::serialize_view;
use crate::text::{decimal, u64_to_decimal};
use crate::update::Update;

verus! {

/// What a named field was serialized to, and how it enters the map of its
/// struct.
#[derive(Debug)]
pub enum NamedOutput {
    /// The field stands in the map under its key.
    Keyed(String, Result<Intermediate, Error>),
    /// The field is flattened: the entries of its own map stand in the map
    /// of the struct. The string is the name of the field.
    Flattened(String, Result<Intermediate, Error>),
}

/// What a [`NamedOutput`] stands for.
pub enum NamedOutputView {
    Keyed(Seq<char>, Result<Value, ErrorView>),
    Flattened(Seq<char>, Result<Value, ErrorView>),
}

impl View for NamedOutput {
    type V = NamedOutputView;

    open spec fn view(&self) -> NamedOutputView {
        match self {
            NamedOutput::Keyed(key, r) => NamedOutputView::Keyed(key@, serialize_view(*r)),
            NamedOutput::Flattened(name, r) => NamedOutputView::Flattened(name@, serialize_view(*r)),
        }
    }
}

/// The entries after the first `n` of `more` were set, one after the
/// other.
pub open spec fn insert_all(
    entries: Seq<(Seq<char>, Value)>,
    more: Seq<(Seq<char>, Value)>,
    n: nat,
) -> Seq<(Seq<char>, Value)>
    decreases n,
{
    if n == 0 || n > more.len() {
        entries
    } else {
        insert_entry(insert_all(entries, more, (n - 1) as nat), more[n - 1].0, more[n - 1].1)
    }
}

/// The message for a flattened field that is no map.
pub open spec fn cannot_be_flattened(name: Seq<char>) -> Seq<char> {
    "field \""@ + name + "\" cannot be flattened"@
}

/// How far the fields of a struct have been gathered: into entries of the
/// map and errors of fields, or up to an error that ends it all.
pub enum Gathered {
    Stopped(ErrorView),
    Going(Seq<(Seq<char>, Value)>, Seq<(Seq<char>, ErrorView)>),
}

/// What one more field adds to the entries and errors gathered so far.
pub open spec fn gather_one(
    entries: Seq<(Seq<char>, Value)>,
    errors: Seq<(Seq<char>, ErrorView)>,
    field: NamedOutputView,
) -> Gathered {
    match field {
        NamedOutputView::Keyed(key, Ok(v)) => Gathered::Going(insert_entry(entries, key, v), errors),
        NamedOutputView::Keyed(key, Err(e)) => Gathered::Going(entries, errors.push((key, e))),
        NamedOutputView::Flattened(name, Ok(Value::Object(inner))) => Gathered::Going(
            insert_all(entries, inner, inner.len()),
            errors,
        ),
        NamedOutputView::Flattened(name, Ok(_)) => Gathered::Stopped(
            ErrorView::Custom(cannot_be_flattened(name)),
        ),
        NamedOutputView::Flattened(name, Err(ErrorView::NamedFieldErrors(more))) => Gathered::Going(
            entries,
            errors + more,
        ),
        NamedOutputView::Flattened(name, Err(e)) => Gathered::Stopped(e),
    }
}

/// The first `n` fields gathered, in their order.
pub open spec fn gather(fields: Seq<NamedOutput>, n: nat) -> Gathered
    decreases n,
{
    if n == 0 || n > fields.len() {
        Gathered::Going(Seq::empty(), Seq::empty())
    } else {
        match gather(fields, (n - 1) as nat) {
            Gathered::Stopped(e) => Gathered::Stopped(e),
            Gathered::Going(entries, errors) => gather_one(entries, errors, fields[n - 1]@),
        }
    }
}

/// What a struct with named fields is serialized to, given what its fields
/// were serialized to: a map with the fields under their keys and the
/// entries of the flattened fields, or all the errors of the fields
/// together; a flattened field that is no map, or fails with another error
/// than errors of named fields, ends it with that error.
pub open spec fn serialized_named_fields(fields: Seq<NamedOutput>) -> Result<Value, ErrorView> {
    match gather(fields, fields.len()) {
        Gathered::Stopped(e) => Err(e),
        Gathered::Going(entries, errors) => if errors.len() == 0 {
            Ok(Value::Object(entries))
        } else {
            Err(ErrorView::NamedFieldErrors(errors))
        },
    }
}

/// Once a field has stopped the gathering, it stays stopped.
pub proof fn lemma_gather_stopped(fields: Seq<NamedOutput>, at: nat, n: nat)
    requires
        gather(fields, at) is Stopped,
        at <= n <= fields.len(),
    ensures
        gather(fields, n) == gather(fields, at),
    decreases n,
{
    if n > at {
        lemma_gather_stopped(fields, at, (n - 1) as nat);
    }
}

/// Set the entries of `more` in `map`, one after the other.
pub fn extend(map: &mut Object, more: Object)
    ensures
        final(map)@ == insert_all(old(map)@, more@, more@.len()),
{
    let mut i: usize = 0;
    while i < more.len()
        invariant
            i <= more@.len(),
            map@ == insert_all(old(map)@, more@, i as nat),
        decreases more@.len() - i,
    {
        match more.get_index(i) {
            Some((key, value)) => {
                let _ = map.insert(key.clone(), value.clone());
            },
            None => {},
        }
        i += 1;
    }
}

/// The error that says that a flattened field is no map.
pub fn flatten_error(name: &str) -> (r: Error)
    ensures
        r@ == ErrorView::Custom(cannot_be_flattened(name@)),
{
    let mut msg = "field \"".to_owned();
    msg.append(name);
    msg.append("\" cannot be flattened");
    Error::Custom(msg)
}

/// Serialize a struct with named fields, given what its fields were
/// serialized to, in the order of the fields. A field that is skipped is
/// not among them.
pub fn serialize_named_fields(fields: Vec<NamedOutput>) -> (r: Result<Intermediate, Error>)
    ensures
        serialize_view(r) == serialized_named_fields(fields@),
{
    let ghost all = fields@;
    let mut map = Object::with_capacity(fields.len());
    let mut errors: ErrorList<NamedFieldError> = ErrorList::new();
    proof {
        lemma_named_views(errors@);
        assert(named_views(errors@) =~= Seq::empty());
    }
    for field in it: fields
        invariant
            it.seq() == all,
            gather(all, it.index() as nat) == Gathered::Going(map@, named_views(errors@)),
    {
        let ghost at = it.index();
        let ghost before = errors@;
        proof {
            assert(0 <= at < all.len());
            assert(field == all[at]);
        }
        match field {
            NamedOutput::Keyed(key, Ok(v)) => {
                let _ = map.insert(key, v);
            },
            NamedOutput::Keyed(key, Err(e)) => {
                errors.push(NamedFieldError::new(key.as_str(), e));
                proof {
                    lemma_named_views(errors@);
                    lemma_named_views(before);
                    assert(named_views(errors@) =~= named_views(before).push((key@, e@)));
                }
            },
            NamedOutput::Flattened(name, Ok(Intermediate::Object(inner))) => {
                extend(&mut map, inner);
            },
            NamedOutput::Flattened(name, Ok(_)) => {
                proof {
                    lemma_gather_stopped(all, (at + 1) as nat, all.len());
                }
                return Err(flatten_error(name.as_str()));
            },
            NamedOutput::Flattened(name, Err(Error::NamedFieldErrors(more))) => {
                let ghost added = more@;
                errors.append(more);
                proof {
                    lemma_named_views(errors@);
                    lemma_named_views(before);
                    lemma_named_views(added);
                    assert(named_views(errors@) =~= named_views(before) + named_views(added));
                }
            },
            NamedOutput::Flattened(name, Err(e)) => {
                proof {
                    lemma_gather_stopped(all, (at + 1) as nat, all.len());
                }
                return Err(e);
            },
        }
    }
    if errors.is_empty() {
        Ok(Intermediate::Object(map))
    } else {
        Err(Error::NamedFieldErrors(errors))
    }
}

/// What the fields of a struct with unnamed fields were serialized to, as
/// the values and errors they stand for.
pub open spec fn results_view(results: Seq<Result<Intermediate, Error>>) -> Seq<
    Result<Value, ErrorView>,
> {
    Seq::new(results.len(), |i: int| serialize_view(results[i]))
}

/// The errors among the first `n` results, each with its place.
pub open spec fn unnamed_errors(results: Seq<Result<Value, ErrorView>>, n: nat) -> Seq<
    (usize, ErrorView),
>
    decreases n,
{
    if n == 0 || n > results.len() {
        Seq::empty()
    } else {
        let before = unnamed_errors(results, (n - 1) as nat);
        match results[n - 1] {
            Err(e) => before.push(((n - 1) as usize, e)),
            Ok(_) => before,
        }
    }
}

/// The values of the results; `Null` stands in for an error.
pub open spec fn unnamed_values(results: Seq<Result<Value, ErrorView>>) -> Seq<Value> {
    Seq::new(
        results.len(),
        |i: int|
            match results[i] {
                Ok(v) => v,
                Err(_) => Value::Null,
            },
    )
}

/// The array of the values, or all the errors together, each with the
/// place of its field.
pub open spec fn serialized_unnamed_fields_n(results: Seq<Result<Value, ErrorView>>) -> Result<
    Value,
    ErrorView,
> {
    if unnamed_errors(results, results.len()).len() == 0 {
        Ok(Value::Array(unnamed_values(results)))
    } else {
        Err(ErrorView::UnnamedFieldErrors(unnamed_errors(results, results.len())))
    }
}

/// What a struct with unnamed fields is serialized to, given what its
/// fields were serialized to: nothing for no field, what the field was
/// serialized to for one field, and for more the array of the values or all
/// the errors together.
pub open spec fn serialized_unnamed_fields(results: Seq<Result<Value, ErrorView>>) -> Result<
    Value,
    ErrorView,
> {
    if results.len() == 0 {
        Ok(Value::Null)
    } else if results.len() == 1 {
        results[0]
    } else {
        serialized_unnamed_fields_n(results)
    }
}

/// There is no error among the results exactly where each is a value.
pub proof fn lemma_unnamed_errors(results: Seq<Result<Value, ErrorView>>, n: nat)
    requires
        n <= results.len(),
    ensures
        unnamed_errors(results, n).len() == 0 <==> forall|i: int|
            0 <= i < n ==> (#[trigger] results[i]) is Ok,
    decreases n,
{
    if n > 0 {
        lemma_unnamed_errors(results, (n - 1) as nat);
    }
}

/// Serialize a struct without fields.
pub fn serialize_unnamed_fields_0() -> (r: Result<Intermediate, Error>)
    ensures
        serialize_view(r) == serialized_unnamed_fields(Seq::empty()),
{
    Ok(Intermediate::Null)
}

/// Serialize a struct with one unnamed field, given what the field was
/// serialized to.
pub fn serialize_unnamed_fields_1(result: Result<Intermediate, Error>) -> (r: Result<
    Intermediate,
    Error,
>)
    ensures
        serialize_view(r) == serialized_unnamed_fields(seq![serialize_view(result)]),
{
    result
}

/// Serialize a struct with several unnamed fields, given what the fields
/// were serialized to, in the order of the fields.
pub fn serialize_unnamed_fields_n(results: Vec<Result<Intermediate, Error>>) -> (r: Result<
    Intermediate,
    Error,
>)
    ensures
        serialize_view(r) == serialized_unnamed_fields_n(results_view(results@)),
{
    let ghost all = results_view(results@);
    let ghost raw = results@;
    let mut arr: Vec<Intermediate> = Vec::with_capacity(results.len());
    let mut errors: ErrorList<UnnamedFieldError> = ErrorList::new();
    let mut index: usize = 0;
    proof {
        lemma_unnamed_views(errors@);
        assert(unnamed_views(errors@) =~= Seq::empty());
    }
    for result in it: results
        invariant
            it.seq() == raw,
            raw.len() <= usize::MAX,
            all == results_view(raw),
            index == it.index(),
            unnamed_views(errors@) == unnamed_errors(all, index as nat),
            errors@.len() == 0 ==> arr@.len() == index && forall|j: int|
                0 <= j < index ==> all[j] == Ok::<Value, ErrorView>((#[trigger] arr@[j])@),
    {
        let ghost before = errors@;
        proof {
            assert(result == raw[index as int]);
            assert(all[index as int] == serialize_view(result));
        }
        match result {
            Ok(v) => {
                arr.push(v);
            },
            Err(e) => {
                errors.push(UnnamedFieldError::new(index, e));
                proof {
                    lemma_unnamed_views(errors@);
                    lemma_unnamed_views(before);
                    assert(unnamed_views(errors@) =~= unnamed_views(before).push((index, e@)));
                }
            },
        }
        index += 1;
    }
    if errors.is_empty() {
        proof {
            lemma_unnamed_errors(all, all.len());
            lemma_values_of(arr@);
            assert(values_of(arr@) =~= unnamed_values(all));
        }
        Ok(Intermediate::Array(arr))
    } else {
        Err(Error::UnnamedFieldErrors(errors))
    }
}

/// Serialize a struct with unnamed fields, given what the fields were
/// serialized to, in the order of the fields.
pub fn serialize_unnamed_fields(results: Vec<Result<Intermediate, Error>>) -> (r: Result<
    Intermediate,
    Error,
>)
    ensures
        serialize_view(r) == serialized_unnamed_fields(results_view(results@)),
{
    let mut results = results;
    if results.len() == 0 {
        serialize_unnamed_fields_0()
    } else if results.len() == 1 {
        match results.pop() {
            Some(result) => serialize_unnamed_fields_1(result),
            None => Ok(Intermediate::Null),
        }
    } else {
        serialize_unnamed_fields_n(results)
    }
}

/// The fields of a struct with named fields, as they are read from a map
/// one after the other; the errors of the fields are gathered on the way.
pub struct NamedFields<'a> {
    val: &'a Intermediate,
    errors: ErrorList<NamedFieldError>,
}

impl<'a> NamedFields<'a> {
    /// The value that the fields are read from.
    pub closed spec fn value(&self) -> Value {
        self.val@
    }

    /// The entries of the map that the fields are read from.
    pub open spec fn entries(&self) -> Seq<(Seq<char>, Value)> {
        match self.value() {
            Value::Object(entries) => entries,
            _ => Seq::empty(),
        }
    }

    /// The errors gathered so far, each with the key of its field.
    pub closed spec fn errors(&self) -> Seq<(Seq<char>, ErrorView)> {
        named_views(self.errors@)
    }

    /// The value of a key in the map that the fields are read from.
    fn get(&self, key: &str) -> (r: Option<&'a Intermediate>)
        ensures
            match r {
                Some(v) => lookup(self.entries(), key@) == Some(v@),
                None => lookup(self.entries(), key@) is None,
            },
    {
        match self.val.as_map() {
            Some(map) => map.get(key),
            None => None,
        }
    }

    /// Start to read the fields of a value, which has to be a map.
    pub fn new(val: &'a Intermediate) -> (r: Result<Self, Error>)
        ensures
            match r {
                Ok(fields) => val@ is Object && fields.value() == val@ && fields.errors()
                    == Seq::<(Seq<char>, ErrorView)>::empty(),
                Err(e) => !(val@ is Object) && e@ == ErrorView::InvalidValue("object"@),
            },
    {
        match val.as_map() {
            Some(map) => {
                let errors: ErrorList<NamedFieldError> = ErrorList::new();
                proof {
                    lemma_named_views(errors@);
                    assert(named_views(errors@) =~= Seq::empty());
                }
                Ok(NamedFields { val, errors })
            },
            None => Err(Error::invalid_value("object")),
        }
    }

    fn push_error(&mut self, key: &str, error: Error)
        ensures
            final(self).value() == old(self).value(),
            final(self).errors() == old(self).errors().push((key@, error@)),
    {
        let ghost before = self.errors@;
        self.errors.push(NamedFieldError::new(key, error));
        proof {
            lemma_named_views(self.errors@);
            lemma_named_views(before);
            assert(named_views(self.errors@) =~= named_views(before).push((key@, error@)));
        }
    }

    fn append_errors(&mut self, more: ErrorList<NamedFieldError>)
        ensures
            final(self).value() == old(self).value(),
            final(self).errors() == old(self).errors() + named_views(more@),
    {
        let ghost before = self.errors@;
        let ghost added = more@;
        self.errors.append(more);
        proof {
            lemma_named_views(self.errors@);
            lemma_named_views(before);
            lemma_named_views(added);
            assert(named_views(self.errors@) =~= named_views(before) + named_views(added));
        }
    }

    /// Read a field that has to be there: where the key is missing, or its
    /// value fails to deserialize, the error is gathered under the key.
    pub fn required<T: Deserialize>(&mut self, key: &str) -> (r: Option<T>)
        ensures
            final(self).value() == old(self).value(),
            match lookup(old(self).entries(), key@) {
                None => r is None && final(self).errors() == old(self).errors().push(
                    (key@, ErrorView::MissingField),
                ),
                Some(v) => match T::deserialize_error(v) {
                    None => r is Some && T::deserializes_to(v, r->0) && final(self).errors() == old(self).errors(),
                    Some(e) => r is None && final(self).errors() == old(self).errors().push(
                        (key@, e),
                    ),
                },
            },
    {
        match self.get(key) {
            None => {
                self.push_error(key, Error::MissingField);
                None
            },
            Some(v) => match T::deserialize(v) {
                Ok(field) => Some(field),
                Err(e) => {
                    self.push_error(key, e);
                    None
                },
            },
        }
    }

    /// Read a field that has to be there with a function of the caller's
    /// own in place of `T::deserialize`.
    pub fn required_with<T, F: FnOnce(&Intermediate) -> Result<T, Error>>(
        &mut self,
        key: &str,
        deserializer: F,
    ) -> (r: Option<T>)
        requires
            forall|v: &Intermediate| call_requires(deserializer, (v,)),
        ensures
            final(self).value() == old(self).value(),
            match lookup(old(self).entries(), key@) {
                None => r is None && final(self).errors() == old(self).errors().push(
                    (key@, ErrorView::MissingField),
                ),
                Some(value) => exists|v: &Intermediate, res: Result<T, Error>|
                    v@ == value && call_ensures(deserializer, (v,), res) && match res {
                        Ok(field) => r == Some(field) && final(self).errors() == old(self).errors(),
                        Err(e) => r is None && final(self).errors() == old(self).errors().push(
                            (key@, e@),
                        ),
                    },
            },
    {
        match self.get(key) {
            None => {
                self.push_error(key, Error::MissingField);
                None
            },
            Some(v) => match deserializer(v) {
                Ok(field) => Some(field),
                Err(e) => {
                    self.push_error(key, e);
                    None
                },
            },
        }
    }

    /// Read a field that may be left out: where the key is missing, or its
    /// value fails to deserialize, the field has the default of its type
    /// and no error is gathered.
    pub fn or_default<T: Deserialize + Default>(&self, key: &str) -> (r: T)
        ensures
            match lookup(self.entries(), key@) {
                None => call_ensures(T::default, (), r),
                Some(v) => if T::deserialize_error(v) is None {
                    T::deserializes_to(v, r)
                } else {
                    call_ensures(T::default, (), r)
                },
            },
    {
        match self.get(key) {
            None => T::default(),
            Some(v) => match T::deserialize(v) {
                Ok(field) => field,
                Err(_) => T::default(),
            },
        }
    }

    /// Read a field that may be left out with a function of the caller's
    /// own in place of `T::deserialize`.
    pub fn or_default_with<T: Default, F: FnOnce(&Intermediate) -> Result<T, Error>>(
        &self,
        key: &str,
        deserializer: F,
    ) -> (r: T)
        requires
            forall|v: &Intermediate| call_requires(deserializer, (v,)),
        ensures
            match lookup(self.entries(), key@) {
                None => call_ensures(T::default, (), r),
                Some(value) => exists|v: &Intermediate, res: Result<T, Error>|
                    v@ == value && call_ensures(deserializer, (v,), res) && match res {
                        Ok(field) => r == field,
                        Err(_) => call_ensures(T::default, (), r),
                    },
            },
    {
        match self.get(key) {
            None => T::default(),
            Some(v) => match deserializer(v) {
                Ok(field) => field,
                Err(_) => T::default(),
            },
        }
    }

    /// Read a flattened field with a function of the caller's own in place
    /// of `T::deserialize`.
    pub fn flattened_with<T, F: FnOnce(&Intermediate) -> Result<T, Error>>(
        &mut self,
        deserializer: F,
    ) -> (r: Result<Option<T>, Error>)
        requires
            forall|v: &Intermediate| call_requires(deserializer, (v,)),
        ensures
            final(self).value() == old(self).value(),
            exists|v: &Intermediate, res: Result<T, Error>|
                v@ == old(self).value() && call_ensures(deserializer, (v,), res) && match res {
                    Ok(field) => r == Ok::<Option<T>, Error>(Some(field)) && final(self).errors()
                        == old(self).errors(),
                    Err(Error::NamedFieldErrors(more)) => r == Ok::<Option<T>, Error>(None)
                        && final(self).errors() == old(self).errors() + named_views(more@),
                    Err(e) => r == Err::<Option<T>, Error>(e) && final(self).errors() == old(self).errors(),
                },
    {
        match deserializer(self.val) {
            Ok(field) => Ok(Some(field)),
            Err(Error::NamedFieldErrors(more)) => {
                self.append_errors(more);
                Ok(None)
            },
            Err(e) => Err(e),
        }
    }

    /// Read a flattened field, from the whole map. Errors of named fields
    /// are gathered with those of this struct; any other error ends the
    /// reading.
    pub fn flattened<T: Deserialize>(&mut self) -> (r: Result<Option<T>, Error>)
        ensures
            final(self).value() == old(self).value(),
            match T::deserialize_error(old(self).value()) {
                None => r is Ok && r->Ok_0 is Some && T::deserializes_to(
                    old(self).value(),
                    r->Ok_0->0,
                ) && final(self).errors() == old(self).errors(),
                Some(ErrorView::NamedFieldErrors(more)) => r is Ok && r->Ok_0 is None && final(self).errors() == old(self).errors() + more,
                Some(e) => r is Err && r->Err_0@ == e && final(self).errors() == old(self).errors(),
            },
    {
        match T::deserialize(self.val) {
            Ok(field) => Ok(Some(field)),
            Err(Error::NamedFieldErrors(more)) => {
                self.append_errors(more);
                Ok(None)
            },
            Err(e) => Err(e),
        }
    }

    /// Update a field from the value under its key; a key that is missing
    /// leaves the field as it is. An error is gathered under the key.
    pub fn update<T: Update>(&mut self, key: &str, field: &mut T)
        ensures
            final(self).value() == old(self).value(),
            match lookup(old(self).entries(), key@) {
                None => *final(field) == *old(field) && final(self).errors() == old(self).errors(),
                Some(v) => old(field).updates_to(v, *final(field)) && final(self).errors()
                    == match old(field).update_error(v) {
                    None => old(self).errors(),
                    Some(e) => old(self).errors().push((key@, e)),
                },
            },
    {
        match self.get(key) {
            None => {},
            Some(v) => match field.update(v) {
                Ok(_) => {},
                Err(e) => {
                    self.push_error(key, e);
                },
            },
        }
    }

    /// Update a field from the value under its key with a function of the
    /// caller's own in place of `T::update`.
    pub fn update_with<T, F: FnOnce(&mut T, &Intermediate) -> Result<(), Error>>(
        &mut self,
        key: &str,
        field: &mut T,
        updater: F,
    )
        requires
            forall|f: &mut T, v: &Intermediate| call_requires(updater, (f, v)),
        ensures
            final(self).value() == old(self).value(),
            match lookup(old(self).entries(), key@) {
                None => *final(field) == *old(field) && final(self).errors() == old(self).errors(),
                Some(value) => exists|f: &mut T, v: &Intermediate, res: Result<(), Error>|
                    *f == *old(field) && *final(f) == *final(field) && v@ == value && call_ensures(
                        updater,
                        (f, v),
                        res,
                    ) && final(self).errors() == match res {
                        Ok(_) => old(self).errors(),
                        Err(e) => old(self).errors().push((key@, e@)),
                    },
            },
    {
        match self.get(key) {
            None => {},
            Some(v) => match updater(field, v) {
                Ok(_) => {},
                Err(e) => {
                    self.push_error(key, e);
                },
            },
        }
    }

    /// Update a flattened field, from the whole map. Errors of named
    /// fields are gathered with those of this struct; any other error ends
    /// the update.
    pub fn update_flattened<T: Update>(&mut self, field: &mut T) -> (r: Result<(), Error>)
        ensures
            final(self).value() == old(self).value(),
            old(field).updates_to(old(self).value(), *final(field)),
            match old(field).update_error(old(self).value()) {
                None => r is Ok && final(self).errors() == old(self).errors(),
                Some(ErrorView::NamedFieldErrors(more)) => r is Ok && final(self).errors() == old(self).errors() + more,
                Some(e) => r is Err && r->Err_0@ == e && final(self).errors() == old(self).errors(),
            },
    {
        match field.update(self.val) {
            Ok(_) => Ok(()),
            Err(Error::NamedFieldErrors(more)) => {
                self.append_errors(more);
                Ok(())
            },
            Err(e) => Err(e),
        }
    }

    /// Update a flattened field with a function of the caller's own in
    /// place of `T::update`.
    pub fn update_flattened_with<T, F: FnOnce(&mut T, &Intermediate) -> Result<(), Error>>(
        &mut self,
        field: &mut T,
        updater: F,
    ) -> (r: Result<(), Error>)
        requires
            forall|f: &mut T, v: &Intermediate| call_requires(updater, (f, v)),
        ensures
            final(self).value() == old(self).value(),
            exists|f: &mut T, v: &Intermediate, res: Result<(), Error>|
                *f == *old(field) && *final(f) == *final(field) && v@ == old(self).value()
                    && call_ensures(updater, (f, v), res) && match res {
                    Ok(_) => r is Ok && final(self).errors() == old(self).errors(),
                    Err(Error::NamedFieldErrors(more)) => r is Ok && final(self).errors() == old(self).errors() + named_views(more@),
                    Err(e) => r == Err::<(), Error>(e) && final(self).errors() == old(self).errors(),
                },
    {
        match updater(field, self.val) {
            Ok(_) => Ok(()),
            Err(Error::NamedFieldErrors(more)) => {
                self.append_errors(more);
                Ok(())
            },
            Err(e) => Err(e),
        }
    }

    /// End the reading: all the errors that were gathered, together, where
    /// there is one.
    pub fn finish(self) -> (r: Result<(), Error>)
        ensures
            match r {
                Ok(_) => self.errors().len() == 0,
                Err(e) => self.errors().len() > 0 && e@ == ErrorView::NamedFieldErrors(
                    self.errors(),
                ),
            },
    {
        proof {
            lemma_named_views(self.errors@);
        }
        if self.errors.is_empty() {
            Ok(())
        } else {
            Err(Error::NamedFieldErrors(self.errors))
        }
    }
}

/// The words for the fields of a struct that come in an array that is too
/// short.
pub open spec fn array_of_len(n: nat) -> Seq<char> {
    "array of length "@ + decimal(n)
}

/// The error that names the length that the array of the fields has to
/// have.
pub fn array_len_error(n: usize) -> (r: Error)
    ensures
        r@ == ErrorView::InvalidValue(array_of_len(n as nat)),
{
    let mut msg = "array of length ".to_owned();
    let digits = u64_to_decimal(n as u64);
    msg.append(digits.as_str());
    Error::InvalidValue(msg)
}

/// The fields of a struct with several unnamed fields, as they are read
/// from an array by their places; the errors of the fields are gathered on
/// the way.
pub struct UnnamedFields<'a> {
    items: &'a [Intermediate],
    errors: ErrorList<UnnamedFieldError>,
}

impl<'a> UnnamedFields<'a> {
    /// The values of the array that the fields are read from.
    pub closed spec fn values(&self) -> Seq<Value> {
        values_of(self.items@)
    }

    /// The errors gathered so far, each with the place of its field.
    pub closed spec fn errors(&self) -> Seq<(usize, ErrorView)> {
        unnamed_views(self.errors@)
    }

    /// Start to read `count` fields of a value, which has to be an array of
    /// as many values or more.
    pub fn new(val: &'a Intermediate, count: usize) -> (r: Result<Self, Error>)
        ensures
            match r {
                Ok(fields) => val@ == Value::Array(fields.values()) && fields.values().len()
                    >= count && fields.errors() == Seq::<(usize, ErrorView)>::empty(),
                Err(e) => match val@ {
                    Value::Array(items) => items.len() < count && e@ == ErrorView::InvalidValue(
                        array_of_len(count as nat),
                    ),
                    _ => e@ == ErrorView::InvalidValue("array"@),
                },
            },
    {
        match val.as_array() {
            Some(items) => {
                proof {
                    lemma_values_of(items@);
                }
                if items.len() < count {
                    Err(array_len_error(count))
                } else {
                    let errors: ErrorList<UnnamedFieldError> = ErrorList::new();
                    proof {
                        lemma_unnamed_views(errors@);
                        assert(unnamed_views(errors@) =~= Seq::empty());
                    }
                    Ok(UnnamedFields { items, errors })
                }
            },
            None => Err(Error::invalid_value("array")),
        }
    }

    fn push_error(&mut self, index: usize, error: Error)
        ensures
            final(self).values() == old(self).values(),
            final(self).errors() == old(self).errors().push((index, error@)),
    {
        let ghost before = self.errors@;
        self.errors.push(UnnamedFieldError::new(index, error));
        proof {
            lemma_unnamed_views(self.errors@);
            lemma_unnamed_views(before);
            assert(unnamed_views(self.errors@) =~= unnamed_views(before).push((index, error@)));
        }
    }

    /// Read the field at a place; where its value fails to deserialize, the
    /// error is gathered with the place.
    pub fn field<T: Deserialize>(&mut self, index: usize) -> (r: Option<T>)
        requires
            index < old(self).values().len(),
        ensures
            final(self).values() == old(self).values(),
            match T::deserialize_error(old(self).values()[index as int]) {
                None => r is Some && T::deserializes_to(old(self).values()[index as int], r->0)
                    && final(self).errors() == old(self).errors(),
                Some(e) => r is None && final(self).errors() == old(self).errors().push(
                    (index, e),
                ),
            },
    {
        proof {
            lemma_values_of(self.items@);
        }
        match T::deserialize(&self.items[index]) {
            Ok(field) => Some(field),
            Err(e) => {
                self.push_error(index, e);
                None
            },
        }
    }

    /// Update a field from the value at its place. An error is gathered
    /// with the place.
    pub fn update<T: Update>(&mut self, index: usize, field: &mut T)
        requires
            index < old(self).values().len(),
        ensures
            final(self).values() == old(self).values(),
            old(field).updates_to(old(self).values()[index as int], *final(field)),
            final(self).errors() == match old(field).update_error(
                old(self).values()[index as int],
            ) {
                None => old(self).errors(),
                Some(e) => old(self).errors().push((index, e)),
            },
    {
        proof {
            lemma_values_of(self.items@);
        }
        match field.update(&self.items[index]) {
            Ok(_) => {},
            Err(e) => {
                self.push_error(index, e);
            },
        }
    }

    /// End the reading: all the errors that were gathered, together, where
    /// there is one.
    pub fn finish(self) -> (r: Result<(), Error>)
        ensures
            match r {
                Ok(_) => self.errors().len() == 0,
                Err(e) => self.errors().len() > 0 && e@ == ErrorView::UnnamedFieldErrors(
                    self.errors(),
                ),
            },
    {
        proof {
            lemma_unnamed_views(self.errors@);
        }
        if self.errors.is_empty() {
            Ok(())
        } else {
            Err(Error::UnnamedFieldErrors(self.errors))
        }
    }
}

/// The value that the one unnamed field of a struct is read from: the
/// value itself or, where the field cannot be read from it and the value is
/// an array of one value, that one value, if the field can be read from
/// it.
pub open spec fn single_field_source<T: Deserialize>(val: Value) -> Value {
    if T::deserialize_error(val) is Some && val is Array && val->Array_0.len() == 1
        && T::deserialize_error(val->Array_0[0]) is None {
        val->Array_0[0]
    } else {
        val
    }
}

/// Deserialize the one unnamed field of a struct: from the value itself,
/// or from the one value of an array that wraps it. The error is that of
/// the value itself, and stands alone.
pub fn deserialize_single_field<T: Deserialize>(val: &Intermediate) -> (r: Result<T, Error>)
    ensures
        match r {
            Ok(field) => T::deserialize_error(single_field_source::<T>(val@)) is None
                && T::deserializes_to(single_field_source::<T>(val@), field),
            Err(e) => T::deserialize_error(single_field_source::<T>(val@)) is Some
                && T::deserialize_error(val@) == Some(e@),
        },
{
    match T::deserialize(val) {
        Ok(field) => Ok(field),
        Err(e) => match val.as_array() {
            Some(items) => {
                proof {
                    lemma_values_of(items@);
                }
                if items.len() == 1 {
                    match T::deserialize(&items[0]) {
                        Ok(field) => Ok(field),
                        Err(_) => Err(e),
                    }
                } else {
                    Err(e)
                }
            },
            None => Err(e),
        },
    }
}

/// The error of updating the one unnamed field of a struct: an array
/// stands for its first value, any other value for itself, and the error
/// of the field stands alone.
pub open spec fn single_field_update_error<T: Update>(field: T, val: Value) -> Option<ErrorView> {
    match val {
        Value::Array(items) => if items.len() < 1 {
            Some(ErrorView::InvalidValue(array_of_len(1)))
        } else {
            field.update_error(items[0])
        },
        _ => field.update_error(val),
    }
}

/// Whether `out` is what updating the one unnamed field of a struct leaves
/// of the field.
pub open spec fn single_field_updates_to<T: Update>(field: T, val: Value, out: T) -> bool {
    match val {
        Value::Array(items) => if items.len() < 1 {
            out == field
        } else {
            field.updates_to(items[0], out)
        },
        _ => field.updates_to(val, out),
    }
}

/// Update the one unnamed field of a struct.
pub fn update_single_field<T: Update>(field: &mut T, val: &Intermediate) -> (r: Result<(), Error>)
    ensures
        match r {
            Ok(_) => single_field_update_error(*old(field), val@) is None,
            Err(e) => single_field_update_error(*old(field), val@) == Some(e@),
        },
        single_field_updates_to(*old(field), val@, *final(field)),
{
    match val.as_array() {
        Some(items) => {
            proof {
                lemma_values_of(items@);
            }
            if items.len() < 1 {
                Err(array_len_error(1))
            } else {
                field.update(&items[0])
            }
        },
        None => field.update(val),
    }
}

} // verus!
