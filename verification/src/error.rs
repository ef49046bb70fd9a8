//! Errors of the three protocols, and the lists that gather the errors of
//! several fields.
use vstd::prelude::*;
use vstd::std_specs::iter::IteratorSpec;
use crate::text::{decimal, u64_to_decimal};

verus! {

/// What an [`Error`] stands for.
pub enum ErrorView {
    OutOfBounds,
    UnsupportedConversion,
    MissingField,
    UnknownEnumVariant,
    MissingEnumVariantContent,
    InvalidKey(Seq<char>),
    InvalidValue(Seq<char>),
    NamedFieldErrors(Seq<(Seq<char>, ErrorView)>),
    UnnamedFieldErrors(Seq<(usize, ErrorView)>),
    Custom(Seq<char>),
}

/// Error.
#[derive(Debug)]
pub enum Error {
    /// A number does not fit the type it was meant for.
    OutOfBounds,
    /// A number of one kind cannot stand for a number of another kind.
    UnsupportedConversion,
    /// A field that must be there is not.
    MissingField,
    /// No variant of the enum goes by the given name.
    UnknownEnumVariant,
    /// The variant holds data and none was given.
    MissingEnumVariantContent,
    /// A key of a map cannot be read as a key of the target type; the
    /// message says why.
    InvalidKey(String),
    /// The value has another shape than the target type; the message names
    /// the shape that was expected.
    InvalidValue(String),
    /// The errors of named fields, in the order of the fields.
    NamedFieldErrors(ErrorList<NamedFieldError>),
    /// The errors of unnamed fields, in the order of the fields.
    UnnamedFieldErrors(ErrorList<UnnamedFieldError>),
    /// Any other error, in the caller's words.
    Custom(String),
}

/// Error associated with a named field.
#[derive(Debug)]
pub struct NamedFieldError {
    field: String,
    error: Error,
}

/// Error associated with an unnamed field.
#[derive(Debug)]
pub struct UnnamedFieldError {
    index: usize,
    error: Error,
}

/// List of errors.
#[derive(Debug)]
pub struct ErrorList<T> {
    inner: Vec<T>,
}

impl<T> View for ErrorList<T> {
    type V = Seq<T>;

    closed spec fn view(&self) -> Seq<T> {
        self.inner@
    }
}

/// The views of the errors of named fields, in their order.
pub open spec fn named_views(items: Seq<NamedFieldError>) -> Seq<(Seq<char>, ErrorView)>
    decreases items,
{
    if items.len() == 0 {
        Seq::empty()
    } else {
        named_views(items.subrange(0, items.len() - 1)).push(items[items.len() - 1].view())
    }
}

/// The views of the errors of unnamed fields, in their order.
pub open spec fn unnamed_views(items: Seq<UnnamedFieldError>) -> Seq<(usize, ErrorView)>
    decreases items,
{
    if items.len() == 0 {
        Seq::empty()
    } else {
        unnamed_views(items.subrange(0, items.len() - 1)).push(items[items.len() - 1].view())
    }
}

impl View for NamedFieldError {
    type V = (Seq<char>, ErrorView);

    closed spec fn view(&self) -> (Seq<char>, ErrorView)
        decreases self,
    {
        (self.field@, self.error.view())
    }
}

impl View for UnnamedFieldError {
    type V = (usize, ErrorView);

    closed spec fn view(&self) -> (usize, ErrorView)
        decreases self,
    {
        (self.index, self.error.view())
    }
}

impl View for Error {
    type V = ErrorView;

    open spec fn view(&self) -> ErrorView
        decreases self,
    {
        match self {
            Error::OutOfBounds => ErrorView::OutOfBounds,
            Error::UnsupportedConversion => ErrorView::UnsupportedConversion,
            Error::MissingField => ErrorView::MissingField,
            Error::UnknownEnumVariant => ErrorView::UnknownEnumVariant,
            Error::MissingEnumVariantContent => ErrorView::MissingEnumVariantContent,
            Error::InvalidKey(s) => ErrorView::InvalidKey(s@),
            Error::InvalidValue(s) => ErrorView::InvalidValue(s@),
            Error::NamedFieldErrors(l) => ErrorView::NamedFieldErrors(named_views(l.view())),
            Error::UnnamedFieldErrors(l) => ErrorView::UnnamedFieldErrors(unnamed_views(l.view())),
            Error::Custom(s) => ErrorView::Custom(s@),
        }
    }
}

impl Error {
    /// Create an invalid value error with a given expected type name.
    pub fn invalid_value(expected: &str) -> (r: Self)
        ensures
            r@ == ErrorView::InvalidValue(expected@),
    {
        Error::InvalidValue(expected.to_owned())
    }

    /// Create an invalid value error with a given expected type name.
    pub fn invalid_value_static(expected: &'static str) -> (r: Self)
        ensures
            r@ == ErrorView::InvalidValue(expected@),
    {
        Error::InvalidValue(expected.to_owned())
    }

    /// Create a custom error with a given error message.
    pub fn custom(msg: &str) -> (r: Self)
        ensures
            r@ == ErrorView::Custom(msg@),
    {
        Error::Custom(msg.to_owned())
    }

    /// Create a custom error with a given error message.
    pub fn custom_static(msg: &'static str) -> (r: Self)
        ensures
            r@ == ErrorView::Custom(msg@),
    {
        Error::Custom(msg.to_owned())
    }
}

impl NamedFieldError {
    /// Create a new error for a given named field.
    pub fn new(field: &str, error: Error) -> (r: Self)
        ensures
            r@ == (field@, error@),
    {
        NamedFieldError { field: field.to_owned(), error }
    }

    /// Create a new error for a given named field.
    pub fn new_static(field: &'static str, error: Error) -> (r: Self)
        ensures
            r@ == (field@, error@),
    {
        NamedFieldError { field: field.to_owned(), error }
    }

    /// Get the name of the field.
    pub fn field(&self) -> (r: &str)
        ensures
            r@ == self@.0,
    {
        self.field.as_str()
    }

    /// Get the error.
    pub fn error(&self) -> (r: &Error)
        ensures
            r@ == self@.1,
    {
        &self.error
    }

    /// Take the error.
    pub fn into_error(self) -> (r: Error)
        ensures
            r@ == self@.1,
    {
        self.error
    }
}

impl UnnamedFieldError {
    /// Create a new error for a given field.
    pub fn new(field_index: usize, error: Error) -> (r: Self)
        ensures
            r@ == (field_index, error@),
    {
        UnnamedFieldError { index: field_index, error }
    }

    /// Get index of the field.
    pub fn field_index(&self) -> (r: usize)
        ensures
            r == self@.0,
    {
        self.index
    }

    /// Get the error.
    pub fn error(&self) -> (r: &Error)
        ensures
            r@ == self@.1,
    {
        &self.error
    }

    /// Take the error.
    pub fn into_error(self) -> (r: Error)
        ensures
            r@ == self@.1,
    {
        self.error
    }
}

impl<T> ErrorList<T> {
    /// Create a new error list.
    pub fn new() -> (r: Self)
        ensures
            r@ == Seq::<T>::empty(),
    {
        ErrorList { inner: Vec::new() }
    }

    /// Check if the list is empty.
    pub fn is_empty(&self) -> (r: bool)
        ensures
            r == (self@.len() == 0),
    {
        self.inner.len() == 0
    }

    /// Get length of the list.
    pub fn len(&self) -> (r: usize)
        ensures
            r == self@.len(),
    {
        self.inner.len()
    }

    /// Add a given error to the list.
    pub fn push(&mut self, err: T)
        ensures
            final(self)@ == old(self)@.push(err),
    {
        self.inner.push(err)
    }

    /// Append a given list of errors to the current one.
    pub fn append(&mut self, other: Self)
        ensures
            final(self)@ == old(self)@ + other@,
    {
        let mut other = other;
        self.inner.append(&mut other.inner)
    }

    /// Iterate over the errors, first to last.
    pub fn iter(&self) -> (r: std::slice::Iter<'_, T>)
        ensures
            r.remaining() == self@.as_ref(),
    {
        self.inner.as_slice().iter()
    }

    /// The error at a given place in the list, if there is one.
    pub fn get(&self, index: usize) -> (r: Option<&T>)
        ensures
            r == if index < self@.len() {
                Some(&self@[index as int])
            } else {
                None
            },
    {
        if index < self.inner.len() {
            Some(&self.inner[index])
        } else {
            None
        }
    }

    /// The errors, first to last.
    pub fn into_vec(self) -> (r: Vec<T>)
        ensures
            r@ == self@,
    {
        self.inner
    }
}

impl<T> Default for ErrorList<T> {
    fn default() -> (r: Self)
        ensures
            r@ == Seq::<T>::empty(),
    {
        ErrorList::new()
    }
}

/// `named_views` goes item by item.
pub proof fn lemma_named_views(items: Seq<NamedFieldError>)
    ensures
        named_views(items).len() == items.len(),
        forall|i: int| 0 <= i < items.len() ==> (#[trigger] named_views(items)[i]) == items[i].view(),
    decreases items.len(),
{
    if items.len() > 0 {
        lemma_named_views(items.subrange(0, items.len() - 1));
        assert(named_views(items) == named_views(items.subrange(0, items.len() - 1)).push(
            items[items.len() - 1].view(),
        ));
    } else {
        assert(named_views(items) == Seq::<(Seq<char>, ErrorView)>::empty());
    }
}

/// `unnamed_views` goes item by item.
pub proof fn lemma_unnamed_views(items: Seq<UnnamedFieldError>)
    ensures
        unnamed_views(items).len() == items.len(),
        forall|i: int| 0 <= i < items.len() ==> (#[trigger] unnamed_views(items)[i]) == items[i].view(),
    decreases items.len(),
{
    if items.len() > 0 {
        lemma_unnamed_views(items.subrange(0, items.len() - 1));
        assert(unnamed_views(items) == unnamed_views(items.subrange(0, items.len() - 1)).push(
            items[items.len() - 1].view(),
        ));
    } else {
        assert(unnamed_views(items) == Seq::<(usize, ErrorView)>::empty());
    }
}

fn clone_named_list(items: &Vec<NamedFieldError>) -> (r: Vec<NamedFieldError>)
    ensures
        named_views(r@) == named_views(items@),
    decreases items,
{
    let mut out: Vec<NamedFieldError> = Vec::new();
    let mut i: usize = 0;
    while i < items.len()
        invariant
            i <= items.len(),
            out@.len() == i,
            forall|j: int| 0 <= j < i ==> out@[j].view() == items@[j].view(),
        decreases items.len() - i,
    {
        let item = &items[i];
        proof {
            assert(decreases_to!(items => items@));
            assert(decreases_to!(items@ => items@[i as int]));
            assert(decreases_to!(items@[i as int] => items@[i as int].error));
        }
        let copy = NamedFieldError { field: item.field.clone(), error: clone_error(&item.error) };
        out.push(copy);
        i += 1;
    }
    proof {
        lemma_named_views(out@);
        lemma_named_views(items@);
        assert(named_views(out@) =~= named_views(items@));
    }
    out
}

fn clone_unnamed_list(items: &Vec<UnnamedFieldError>) -> (r: Vec<UnnamedFieldError>)
    ensures
        unnamed_views(r@) == unnamed_views(items@),
    decreases items,
{
    let mut out: Vec<UnnamedFieldError> = Vec::new();
    let mut i: usize = 0;
    while i < items.len()
        invariant
            i <= items.len(),
            out@.len() == i,
            forall|j: int| 0 <= j < i ==> out@[j].view() == items@[j].view(),
        decreases items.len() - i,
    {
        let item = &items[i];
        proof {
            assert(decreases_to!(items => items@));
            assert(decreases_to!(items@ => items@[i as int]));
            assert(decreases_to!(items@[i as int] => items@[i as int].error));
        }
        let copy = UnnamedFieldError { index: item.index, error: clone_error(&item.error) };
        out.push(copy);
        i += 1;
    }
    proof {
        lemma_unnamed_views(out@);
        lemma_unnamed_views(items@);
        assert(unnamed_views(out@) =~= unnamed_views(items@));
    }
    out
}

fn clone_error(e: &Error) -> (r: Error)
    ensures
        r@ == e@,
    decreases e,
{
    match e {
        Error::OutOfBounds => Error::OutOfBounds,
        Error::UnsupportedConversion => Error::UnsupportedConversion,
        Error::MissingField => Error::MissingField,
        Error::UnknownEnumVariant => Error::UnknownEnumVariant,
        Error::MissingEnumVariantContent => Error::MissingEnumVariantContent,
        Error::InvalidKey(s) => Error::InvalidKey(s.clone()),
        Error::InvalidValue(s) => Error::InvalidValue(s.clone()),
        Error::NamedFieldErrors(l) => Error::NamedFieldErrors(
            ErrorList { inner: clone_named_list(&l.inner) },
        ),
        Error::UnnamedFieldErrors(l) => Error::UnnamedFieldErrors(
            ErrorList { inner: clone_unnamed_list(&l.inner) },
        ),
        Error::Custom(s) => Error::Custom(s.clone()),
    }
}

impl Clone for Error {
    fn clone(&self) -> (r: Self)
        ensures
            r@ == self@,
    {
        clone_error(self)
    }
}

impl Clone for NamedFieldError {
    fn clone(&self) -> (r: Self)
        ensures
            r@ == self@,
    {
        NamedFieldError { field: self.field.clone(), error: clone_error(&self.error) }
    }
}

impl Clone for UnnamedFieldError {
    fn clone(&self) -> (r: Self)
        ensures
            r@ == self@,
    {
        UnnamedFieldError { index: self.index, error: clone_error(&self.error) }
    }
}

impl<T: Clone> Clone for ErrorList<T> {
    fn clone(&self) -> (r: Self)
        ensures
            r@.len() == self@.len(),
            forall|i: int| 0 <= i < self@.len() ==> cloned::<T>(#[trigger] self@[i], r@[i]),
    {
        let mut out: Vec<T> = Vec::new();
        let mut i: usize = 0;
        while i < self.inner.len()
            invariant
                i <= self.inner.len(),
                out@.len() == i,
                forall|j: int| 0 <= j < i ==> cloned::<T>(#[trigger] self.inner@[j], out@[j]),
            decreases self.inner.len() - i,
        {
            out.push(self.inner[i].clone());
            i += 1;
        }
        ErrorList { inner: out }
    }
}

/// The words of an error.
pub open spec fn message(e: ErrorView) -> Seq<char>
    decreases e, 0nat,
{
    match e {
        ErrorView::OutOfBounds => "value is out of bounds"@,
        ErrorView::UnsupportedConversion => "conversion not supported"@,
        ErrorView::MissingField => "missing field"@,
        ErrorView::UnknownEnumVariant => "unknown enum variant"@,
        ErrorView::MissingEnumVariantContent => "missing enum variant content"@,
        ErrorView::InvalidKey(key) => "invalid key ("@ + key + ")"@,
        ErrorView::InvalidValue(expected) => "invalid value ("@ + expected + " expected)"@,
        ErrorView::NamedFieldErrors(items) => "field errors ("@ + named_messages(
            items,
            items.len(),
        ) + ")"@,
        ErrorView::UnnamedFieldErrors(items) => "field errors ("@ + unnamed_messages(
            items,
            items.len(),
        ) + ")"@,
        ErrorView::Custom(msg) => msg,
    }
}

/// The words of the error of a named field: the name, a colon and the
/// words of the error.
pub open spec fn named_message(item: (Seq<char>, ErrorView)) -> Seq<char>
    decreases item, 0nat,
{
    item.0 + ": "@ + message(item.1)
}

/// The words of the error of an unnamed field: the place, a colon and the
/// words of the error.
pub open spec fn unnamed_message(item: (usize, ErrorView)) -> Seq<char>
    decreases item, 0nat,
{
    decimal(item.0 as nat) + ": "@ + message(item.1)
}

/// The words of the first `n` errors of named fields, with a comma between
/// one and the next.
pub open spec fn named_messages(items: Seq<(Seq<char>, ErrorView)>, n: nat) -> Seq<char>
    decreases items, n + 1,
{
    if n == 0 || n > items.len() {
        Seq::empty()
    } else if n == 1 {
        named_message(items[0])
    } else {
        named_messages(items, (n - 1) as nat) + ", "@ + named_message(items[n - 1])
    }
}

/// The words of the first `n` errors of unnamed fields, with a comma
/// between one and the next.
pub open spec fn unnamed_messages(items: Seq<(usize, ErrorView)>, n: nat) -> Seq<char>
    decreases items, n + 1,
{
    if n == 0 || n > items.len() {
        Seq::empty()
    } else if n == 1 {
        unnamed_message(items[0])
    } else {
        unnamed_messages(items, (n - 1) as nat) + ", "@ + unnamed_message(items[n - 1])
    }
}

fn write_named_messages(items: &Vec<NamedFieldError>, out: &mut String)
    ensures
        final(out)@ == old(out)@ + named_messages(named_views(items@), items@.len()),
    decreases items,
{
    let ghost views = named_views(items@);
    let ghost start = out@;
    proof {
        lemma_named_views(items@);
        assert(start + named_messages(views, 0) =~= start);
    }
    let mut i: usize = 0;
    while i < items.len()
        invariant
            i <= items@.len(),
            views == named_views(items@),
            views.len() == items@.len(),
            forall|j: int| 0 <= j < items@.len() ==> views[j] == items@[j].view(),
            out@ == start + named_messages(views, i as nat),
        decreases items.len() - i,
    {
        let item = &items[i];
        proof {
            assert(decreases_to!(items => items@));
            assert(decreases_to!(items@ => items@[i as int]));
            assert(decreases_to!(items@[i as int] => items@[i as int].error));
        }
        let ghost before = out@;
        if i > 0 {
            out.append(", ");
        }
        out.append(item.field.as_str());
        out.append(": ");
        write_message(&item.error, out);
        proof {
            let this = named_message(views[i as int]);
            assert(views[i as int] == (item.field@, item.error@));
            if i > 0 {
                assert(out@ =~= before + ", "@ + this);
                assert(out@ =~= start + (named_messages(views, i as nat) + ", "@ + this));
            } else {
                assert(out@ =~= before + this);
                assert(named_messages(views, 0) =~= Seq::<char>::empty());
                assert(out@ =~= start + this);
            }
        }
        i += 1;
    }
}

fn write_unnamed_messages(items: &Vec<UnnamedFieldError>, out: &mut String)
    ensures
        final(out)@ == old(out)@ + unnamed_messages(unnamed_views(items@), items@.len()),
    decreases items,
{
    let ghost views = unnamed_views(items@);
    let ghost start = out@;
    proof {
        lemma_unnamed_views(items@);
        assert(start + unnamed_messages(views, 0) =~= start);
    }
    let mut i: usize = 0;
    while i < items.len()
        invariant
            i <= items@.len(),
            views == unnamed_views(items@),
            views.len() == items@.len(),
            forall|j: int| 0 <= j < items@.len() ==> views[j] == items@[j].view(),
            out@ == start + unnamed_messages(views, i as nat),
        decreases items.len() - i,
    {
        let item = &items[i];
        proof {
            assert(decreases_to!(items => items@));
            assert(decreases_to!(items@ => items@[i as int]));
            assert(decreases_to!(items@[i as int] => items@[i as int].error));
        }
        let ghost before = out@;
        if i > 0 {
            out.append(", ");
        }
        let place = u64_to_decimal(item.index as u64);
        out.append(place.as_str());
        out.append(": ");
        write_message(&item.error, out);
        proof {
            let this = unnamed_message(views[i as int]);
            assert(views[i as int] == (item.index, item.error@));
            if i > 0 {
                assert(out@ =~= before + ", "@ + this);
                assert(out@ =~= start + (unnamed_messages(views, i as nat) + ", "@ + this));
            } else {
                assert(out@ =~= before + this);
                assert(unnamed_messages(views, 0) =~= Seq::<char>::empty());
                assert(out@ =~= start + this);
            }
        }
        i += 1;
    }
}

fn write_message(e: &Error, out: &mut String)
    ensures
        final(out)@ == old(out)@ + message(e@),
    decreases e,
{
    let ghost start = out@;
    match e {
        Error::OutOfBounds => out.append("value is out of bounds"),
        Error::UnsupportedConversion => out.append("conversion not supported"),
        Error::MissingField => out.append("missing field"),
        Error::UnknownEnumVariant => out.append("unknown enum variant"),
        Error::MissingEnumVariantContent => out.append("missing enum variant content"),
        Error::InvalidKey(key) => {
            out.append("invalid key (");
            out.append(key.as_str());
            out.append(")");
            assert(out@ =~= start + message(e@));
        },
        Error::InvalidValue(expected) => {
            out.append("invalid value (");
            out.append(expected.as_str());
            out.append(" expected)");
            assert(out@ =~= start + message(e@));
        },
        Error::NamedFieldErrors(l) => {
            out.append("field errors (");
            write_named_messages(&l.inner, out);
            out.append(")");
            proof {
                lemma_named_views(l.inner@);
            }
            assert(out@ =~= start + message(e@));
        },
        Error::UnnamedFieldErrors(l) => {
            out.append("field errors (");
            write_unnamed_messages(&l.inner, out);
            out.append(")");
            proof {
                lemma_unnamed_views(l.inner@);
            }
            assert(out@ =~= start + message(e@));
        },
        Error::Custom(msg) => out.append(msg.as_str()),
    }
}

impl Error {
    /// The words of the error.
    pub fn to_string(&self) -> (r: String)
        ensures
            r@ == message(self@),
    {
        let mut out = String::new();
        write_message(self, &mut out);
        assert(out@ =~= message(self@));
        out
    }
}

impl NamedFieldError {
    /// The words of the error: the name of the field, a colon and the
    /// words of its error.
    pub fn to_string(&self) -> (r: String)
        ensures
            r@ == named_message(self@),
    {
        let mut out = self.field.clone();
        out.append(": ");
        write_message(&self.error, &mut out);
        out
    }
}

impl UnnamedFieldError {
    /// The words of the error: the place of the field, a colon and the
    /// words of its error.
    pub fn to_string(&self) -> (r: String)
        ensures
            r@ == unnamed_message(self@),
    {
        let mut out = u64_to_decimal(self.index as u64);
        out.append(": ");
        write_message(&self.error, &mut out);
        out
    }
}

impl From<ErrorList<NamedFieldError>> for Error {
    fn from(errors: ErrorList<NamedFieldError>) -> (r: Self) {
        Error::NamedFieldErrors(errors)
    }
}

impl vstd::std_specs::convert::FromSpecImpl<ErrorList<NamedFieldError>> for Error {
    open spec fn obeys_from_spec() -> bool {
        true
    }

    open spec fn from_spec(errors: ErrorList<NamedFieldError>) -> Self {
        Error::NamedFieldErrors(errors)
    }
}

impl From<ErrorList<UnnamedFieldError>> for Error {
    fn from(errors: ErrorList<UnnamedFieldError>) -> (r: Self) {
        Error::UnnamedFieldErrors(errors)
    }
}

impl vstd::std_specs::convert::FromSpecImpl<ErrorList<UnnamedFieldError>> for Error {
    open spec fn obeys_from_spec() -> bool {
        true
    }

    open spec fn from_spec(errors: ErrorList<UnnamedFieldError>) -> Self {
        Error::UnnamedFieldErrors(errors)
    }
}

impl From<NamedFieldError> for Error {
    fn from(err: NamedFieldError) -> (r: Self)
        ensures
            r@ == ErrorView::NamedFieldErrors(seq![err@]),
    {
        let mut errors = ErrorList::new();
        errors.push(err);
        proof {
            lemma_named_views(errors@);
            assert(named_views(errors@) =~= seq![err@]);
        }
        Error::NamedFieldErrors(errors)
    }
}

impl vstd::std_specs::convert::FromSpecImpl<NamedFieldError> for Error {
    open spec fn obeys_from_spec() -> bool {
        false
    }

    open spec fn from_spec(err: NamedFieldError) -> Self {
        arbitrary()
    }
}

impl From<UnnamedFieldError> for Error {
    fn from(err: UnnamedFieldError) -> (r: Self)
        ensures
            r@ == ErrorView::UnnamedFieldErrors(seq![err@]),
    {
        let mut errors = ErrorList::new();
        errors.push(err);
        proof {
            lemma_unnamed_views(errors@);
            assert(unnamed_views(errors@) =~= seq![err@]);
        }
        Error::UnnamedFieldErrors(errors)
    }
}

impl vstd::std_specs::convert::FromSpecImpl<UnnamedFieldError> for Error {
    open spec fn obeys_from_spec() -> bool {
        false
    }

    open spec fn from_spec(err: UnnamedFieldError) -> Self {
        arbitrary()
    }
}

} // verus!
