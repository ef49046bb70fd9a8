//! The three protocols for enums: where the name of the variant and its
//! content stand in the intermediate value.
use vstd::prelude::*;
use crate::error::{lemma_named_views, named_views, Error, ErrorList, ErrorView, NamedFieldError};
use crate::intermediate::{lemma_values_of, Intermediate, Value};
use crate::object::{insert_entry, lookup, position, Object};
use crate::serialize::serialize_view;
use crate::structs::{extend, insert_all};
use crate::text::str_eq;

verus! {

/// Where the name of the variant and its content stand.
#[derive(Debug)]
pub enum Tagging {
    /// The name is the value itself, or the one key of a map whose value is
    /// the content.
    External,
    /// The name stands under a key of the map that holds the content. The
    /// string is the key.
    Internal(String),
    /// The name stands under one key and the content under another. The
    /// strings are the key of the name and the key of the content.
    Adjacent(String, String),
}

/// What a [`Tagging`] stands for.
pub enum TaggingView {
    External,
    Internal(Seq<char>),
    Adjacent(Seq<char>, Seq<char>),
}

impl View for Tagging {
    type V = TaggingView;

    open spec fn view(&self) -> TaggingView {
        match self {
            Tagging::External => TaggingView::External,
            Tagging::Internal(tag) => TaggingView::Internal(tag@),
            Tagging::Adjacent(tag, content) => TaggingView::Adjacent(tag@, content@),
        }
    }
}

impl Tagging {
    /// The tagging that the keys given for an enum ask for: none for the
    /// name is external, one for the name alone is internal, one for each
    /// is adjacent. A key for the content without one for the name means
    /// nothing.
    pub fn new(tag: Option<String>, content: Option<String>) -> (r: Self)
        ensures
            r@ == match (tag, content) {
                (None, _) => TaggingView::External,
                (Some(t), None) => TaggingView::Internal(t@),
                (Some(t), Some(c)) => TaggingView::Adjacent(t@, c@),
            },
    {
        match tag {
            None => Tagging::External,
            Some(t) => match content {
                None => Tagging::Internal(t),
                Some(c) => Tagging::Adjacent(t, c),
            },
        }
    }
}

/// The map with the one entry that names the variant.
pub open spec fn tag_entry(tag_field: Seq<char>, tag: Seq<char>) -> Seq<(Seq<char>, Value)> {
    seq![(tag_field, Value::String(tag))]
}

/// An externally tagged variant: the name alone where there is no content,
/// else the map from the name to the content.
pub open spec fn externally_tagged(tag: Seq<char>, content: Value) -> Value {
    if content is Null {
        Value::String(tag)
    } else {
        Value::Object(seq![(tag, content)])
    }
}

/// An internally tagged variant: the entry of the name, and behind it the
/// entries of the content, which has to be a map. No content, and an array
/// without values, leave the entry of the name alone.
pub open spec fn internally_tagged(tag_field: Seq<char>, tag: Seq<char>, content: Value) -> Result<
    Value,
    ErrorView,
> {
    match content {
        Value::Null => Ok(Value::Object(tag_entry(tag_field, tag))),
        Value::Array(items) => if items.len() == 0 {
            Ok(Value::Object(tag_entry(tag_field, tag)))
        } else {
            Err(ErrorView::Custom("enum cannot be tagged internally"@))
        },
        Value::Object(entries) => Ok(
            Value::Object(insert_all(tag_entry(tag_field, tag), entries, entries.len())),
        ),
        _ => Err(ErrorView::Custom("enum cannot be tagged internally"@)),
    }
}

/// An adjacently tagged variant: the entry of the name and the entry of
/// the content, whatever the content is.
pub open spec fn adjacently_tagged(
    tag_field: Seq<char>,
    content_field: Seq<char>,
    tag: Seq<char>,
    content: Value,
) -> Value {
    Value::Object(insert_entry(tag_entry(tag_field, tag), content_field, content))
}

/// What a variant is serialized to under a tagging, given its name and
/// what its content was serialized to.
pub open spec fn serialized_enum(tagging: TaggingView, tag: Seq<char>, content: Value) -> Result<
    Value,
    ErrorView,
> {
    match tagging {
        TaggingView::External => Ok(externally_tagged(tag, content)),
        TaggingView::Internal(tag_field) => internally_tagged(tag_field, tag, content),
        TaggingView::Adjacent(tag_field, content_field) => Ok(
            adjacently_tagged(tag_field, content_field, tag, content),
        ),
    }
}

/// The map with the one entry of a key and a value.
fn single_entry(key: &str, value: Intermediate) -> (r: Object)
    ensures
        r@ == seq![(key@, value@)],
{
    let mut map = Object::with_capacity(1);
    let _ = map.insert(key.to_owned(), value);
    proof {
        assert(position(Seq::<(Seq<char>, Value)>::empty(), key@) is None);
        assert(Seq::<(Seq<char>, Value)>::empty().push((key@, value@)) =~= seq![(key@, value@)]);
    }
    map
}

/// Serialize an externally tagged variant.
pub fn serialize_externally_tagged(tag: &str, content: Intermediate) -> (r: Result<
    Intermediate,
    Error,
>)
    ensures
        serialize_view(r) == Ok::<Value, ErrorView>(externally_tagged(tag@, content@)),
{
    if content.is_none() {
        Ok(Intermediate::String(tag.to_owned()))
    } else {
        Ok(Intermediate::Object(single_entry(tag, content)))
    }
}

/// Serialize an internally tagged variant.
pub fn serialize_internally_tagged(tag_field: &str, tag: &str, content: Intermediate) -> (r: Result<
    Intermediate,
    Error,
>)
    ensures
        serialize_view(r) == internally_tagged(tag_field@, tag@, content@),
{
    match content {
        Intermediate::Null => Ok(
            Intermediate::Object(single_entry(tag_field, Intermediate::String(tag.to_owned()))),
        ),
        Intermediate::Array(items) => {
            proof {
                lemma_values_of(items@);
            }
            if items.len() == 0 {
                Ok(
                    Intermediate::Object(
                        single_entry(tag_field, Intermediate::String(tag.to_owned())),
                    ),
                )
            } else {
                Err(Error::custom_static("enum cannot be tagged internally"))
            }
        },
        Intermediate::Object(entries) => {
            let mut map = single_entry(tag_field, Intermediate::String(tag.to_owned()));
            extend(&mut map, entries);
            Ok(Intermediate::Object(map))
        },
        _ => Err(Error::custom_static("enum cannot be tagged internally")),
    }
}

/// Serialize an adjacently tagged variant.
pub fn serialize_adjacently_tagged(
    tag_field: &str,
    content_field: &str,
    tag: &str,
    content: Intermediate,
) -> (r: Result<Intermediate, Error>)
    ensures
        serialize_view(r) == Ok::<Value, ErrorView>(
            adjacently_tagged(tag_field@, content_field@, tag@, content@),
        ),
{
    let mut map = single_entry(tag_field, Intermediate::String(tag.to_owned()));
    let _ = map.insert(content_field.to_owned(), content);
    Ok(Intermediate::Object(map))
}

/// Serialize a variant of an enum, given its name and what its content was
/// serialized to: `Null` for a variant without fields, else what its named
/// or unnamed fields were serialized to.
pub fn serialize_enum(tagging: &Tagging, tag: &str, content: Intermediate) -> (r: Result<
    Intermediate,
    Error,
>)
    ensures
        serialize_view(r) == serialized_enum(tagging@, tag@, content@),
{
    match tagging {
        Tagging::External => serialize_externally_tagged(tag, content),
        Tagging::Internal(tag_field) => serialize_internally_tagged(
            tag_field.as_str(),
            tag,
            content,
        ),
        Tagging::Adjacent(tag_field, content_field) => serialize_adjacently_tagged(
            tag_field.as_str(),
            content_field.as_str(),
            tag,
            content,
        ),
    }
}

/// A variant of an enum, as far as the choice of a variant goes.
#[derive(Debug, Clone, Copy)]
pub struct VariantTag<'a> {
    /// The name of the variant in the intermediate value.
    pub name: &'a str,
    /// Whether the variant has fields, so that it cannot be made without
    /// content.
    pub needs_content: bool,
}

impl<'a> View for VariantTag<'a> {
    type V = (Seq<char>, bool);

    open spec fn view(&self) -> (Seq<char>, bool) {
        (self.name@, self.needs_content)
    }
}

/// The variants, as their names and whether they need content.
pub open spec fn variants_view(variants: Seq<VariantTag>) -> Seq<(Seq<char>, bool)> {
    Seq::new(variants.len(), |i: int| variants[i]@)
}

/// The variant that was chosen, and the content to make it of or update it
/// with, if there is any.
#[derive(Debug, Clone, Copy)]
pub struct Selected<'a> {
    /// The place of the variant among the variants of the enum.
    pub index: usize,
    /// The content.
    pub content: Option<&'a Intermediate>,
}

impl<'a> View for Selected<'a> {
    type V = (int, Option<Value>);

    open spec fn view(&self) -> (int, Option<Value>) {
        (
            self.index as int,
            match self.content {
                Some(c) => Some(c@),
                None => None,
            },
        )
    }
}

/// A result of choosing a variant, as what it stands for.
pub open spec fn selected_view(r: Result<Selected, Error>) -> Result<
    (int, Option<Value>),
    ErrorView,
> {
    match r {
        Ok(s) => Ok(s@),
        Err(e) => Err(e@),
    }
}

/// The place of the first variant with the given name.
pub open spec fn find_variant(variants: Seq<(Seq<char>, bool)>, name: Seq<char>) -> Option<int>
    decreases variants.len(),
{
    if variants.len() == 0 {
        None
    } else {
        match find_variant(variants.drop_last(), name) {
            Some(i) => Some(i),
            None => if variants.last().0 == name {
                Some(variants.len() - 1)
            } else {
                None
            },
        }
    }
}

/// What `find_variant` finds: the first place that holds the name, if any
/// does.
pub proof fn lemma_find_variant(variants: Seq<(Seq<char>, bool)>, name: Seq<char>)
    ensures
        match find_variant(variants, name) {
            Some(i) => 0 <= i < variants.len() && variants[i].0 == name && forall|j: int|
                0 <= j < i ==> variants[j].0 != name,
            None => forall|j: int| 0 <= j < variants.len() ==> variants[j].0 != name,
        },
    decreases variants.len(),
{
    if variants.len() > 0 {
        let prev = variants.drop_last();
        lemma_find_variant(prev, name);
        assert forall|j: int| 0 <= j < prev.len() implies prev[j] == variants[j] by {}
        match find_variant(prev, name) {
            Some(i) => {
                assert(prev[i] == variants[i]);
                assert forall|j: int| 0 <= j < i implies variants[j].0 != name by {
                    assert(prev[j] == variants[j]);
                }
            },
            None => {
                assert forall|j: int| 0 <= j < variants.len() - 1 implies variants[j].0
                    != name by {
                    assert(prev[j] == variants[j]);
                }
            },
        }
    }
}

/// The variant that a name without content chooses: the variant of the
/// name, which must not need content.
pub open spec fn selected_by_name(variants: Seq<(Seq<char>, bool)>, name: Seq<char>) -> Result<
    (int, Option<Value>),
    ErrorView,
> {
    match find_variant(variants, name) {
        None => Err(ErrorView::UnknownEnumVariant),
        Some(i) => if variants[i].1 {
            Err(ErrorView::MissingEnumVariantContent)
        } else {
            Ok((i, None))
        },
    }
}

/// The variant that a value chooses under external tagging: a string names
/// a variant without content, a map of one entry names the variant by its
/// key and holds the content as its value; nothing else names a variant.
pub open spec fn selected_externally(variants: Seq<(Seq<char>, bool)>, val: Value) -> Result<
    (int, Option<Value>),
    ErrorView,
> {
    match val {
        Value::String(name) => selected_by_name(variants, name),
        Value::Object(entries) => if entries.len() == 1 {
            match find_variant(variants, entries[0].0) {
                Some(i) => Ok((i, Some(entries[0].1))),
                None => Err(ErrorView::UnknownEnumVariant),
            }
        } else {
            Err(ErrorView::UnknownEnumVariant)
        },
        _ => Err(ErrorView::UnknownEnumVariant),
    }
}

/// The one error of a named field.
pub open spec fn field_error(field: Seq<char>, error: ErrorView) -> ErrorView {
    ErrorView::NamedFieldErrors(seq![(field, error)])
}

/// The name that a map gives under the key of the name; where the key is
/// missing, the name of the current variant stands in, if there is one.
pub open spec fn tag_of(
    entries: Seq<(Seq<char>, Value)>,
    tag_field: Seq<char>,
    current: Option<Seq<char>>,
) -> Result<Seq<char>, ErrorView> {
    match lookup(entries, tag_field) {
        Some(Value::String(name)) => Ok(name),
        Some(_) => Err(field_error(tag_field, ErrorView::InvalidValue("enum variant name"@))),
        None => match current {
            Some(name) => Ok(name),
            None => Err(field_error(tag_field, ErrorView::MissingField)),
        },
    }
}

/// The content of the variant at a place, under internal tagging (no key
/// for the content: the whole value is the content) or adjacent tagging
/// (the content stands under its key, and may be missing where the variant
/// needs none).
pub open spec fn content_of(
    variants: Seq<(Seq<char>, bool)>,
    index: int,
    val: Value,
    content_field: Option<Seq<char>>,
) -> Result<(int, Option<Value>), ErrorView> {
    match content_field {
        None => Ok((index, Some(val))),
        Some(key) => match lookup(val->Object_0, key) {
            Some(content) => Ok((index, Some(content))),
            None => if variants[index].1 {
                Err(field_error(key, ErrorView::MissingField))
            } else {
                Ok((index, None))
            },
        },
    }
}

/// The variant that a value chooses under internal or adjacent tagging.
pub open spec fn selected_internally(
    variants: Seq<(Seq<char>, bool)>,
    tag_field: Seq<char>,
    content_field: Option<Seq<char>>,
    val: Value,
    current: Option<Seq<char>>,
) -> Result<(int, Option<Value>), ErrorView> {
    match val {
        Value::Object(entries) => match tag_of(entries, tag_field, current) {
            Err(e) => Err(e),
            Ok(name) => match find_variant(variants, name) {
                None => Err(ErrorView::UnknownEnumVariant),
                Some(i) => content_of(variants, i, val, content_field),
            },
        },
        _ => Err(ErrorView::InvalidValue("object"@)),
    }
}

/// The variant that a value chooses under a tagging, and the content that
/// the value holds for it. `current` is the name of the variant that an
/// object to update has, and is `None` where an object is to be made.
pub open spec fn selected(
    tagging: TaggingView,
    variants: Seq<(Seq<char>, bool)>,
    val: Value,
    current: Option<Seq<char>>,
) -> Result<(int, Option<Value>), ErrorView> {
    match tagging {
        TaggingView::External => selected_externally(variants, val),
        TaggingView::Internal(tag_field) => selected_internally(
            variants,
            tag_field,
            None,
            val,
            current,
        ),
        TaggingView::Adjacent(tag_field, content_field) => selected_internally(
            variants,
            tag_field,
            Some(content_field),
            val,
            current,
        ),
    }
}

/// The place of the first variant with a given name.
pub fn find_variant_by_name(variants: &[VariantTag], name: &str) -> (r: Option<usize>)
    ensures
        match r {
            Some(i) => i < variants@.len() && find_variant(variants_view(variants@), name@)
                == Some(i as int),
            None => find_variant(variants_view(variants@), name@) is None,
        },
{
    let ghost all = variants_view(variants@);
    let mut i: usize = 0;
    proof {
        assert(all.subrange(0, 0) =~= Seq::empty());
    }
    while i < variants.len()
        invariant
            i <= variants@.len(),
            all == variants_view(variants@),
            find_variant(all.subrange(0, i as int), name@) is None,
        decreases variants.len() - i,
    {
        proof {
            assert(all.subrange(0, i + 1).drop_last() =~= all.subrange(0, i as int));
            assert(all.subrange(0, i + 1).last() == variants@[i as int]@);
        }
        if str_eq(variants[i].name, name) {
            proof {
                lemma_find_variant(all.subrange(0, i + 1), name@);
                lemma_find_variant(all, name@);
                let found = find_variant(all, name@);
                assert(all[i as int] == all.subrange(0, i + 1)[i as int]);
                if found is Some && found->0 < i {
                    assert(all.subrange(0, i + 1)[found->0] == all[found->0]);
                }
            }
            return Some(i);
        }
        i += 1;
    }
    proof {
        assert(all.subrange(0, i as int) =~= all);
    }
    None
}

/// The one error of a named field.
fn named_field_error(field: &str, error: Error) -> (r: Error)
    ensures
        r@ == field_error(field@, error@),
{
    let ghost inner = error@;
    let mut errors: ErrorList<NamedFieldError> = ErrorList::new();
    errors.push(NamedFieldError::new(field, error));
    proof {
        lemma_named_views(errors@);
        assert(named_views(errors@) =~= seq![(field@, inner)]);
    }
    Error::NamedFieldErrors(errors)
}

/// Choose the variant of an externally tagged enum.
pub fn select_externally_tagged<'a>(variants: &[VariantTag], val: &'a Intermediate) -> (r: Result<
    Selected<'a>,
    Error,
>)
    ensures
        selected_view(r) == selected_externally(variants_view(variants@), val@),
{
    match val {
        Intermediate::String(name) => match find_variant_by_name(variants, name.as_str()) {
            None => Err(Error::UnknownEnumVariant),
            Some(index) => if variants[index].needs_content {
                Err(Error::MissingEnumVariantContent)
            } else {
                Ok(Selected { index, content: None })
            },
        },
        Intermediate::Object(map) => {
            if map.len() == 1 {
                match map.get_index(0) {
                    Some((key, content)) => match find_variant_by_name(variants, key.as_str()) {
                        Some(index) => Ok(Selected { index, content: Some(content) }),
                        None => Err(Error::UnknownEnumVariant),
                    },
                    None => Err(Error::UnknownEnumVariant),
                }
            } else {
                Err(Error::UnknownEnumVariant)
            }
        },
        _ => Err(Error::UnknownEnumVariant),
    }
}

/// Choose the variant of an internally tagged enum (no key for the
/// content) or of an adjacently tagged one.
pub fn select_internally_tagged<'a>(
    variants: &[VariantTag],
    tag_field: &str,
    content_field: Option<&str>,
    val: &'a Intermediate,
    current: Option<&str>,
) -> (r: Result<Selected<'a>, Error>)
    ensures
        selected_view(r) == selected_internally(
            variants_view(variants@),
            tag_field@,
            match content_field {
                Some(key) => Some(key@),
                None => None,
            },
            val@,
            match current {
                Some(name) => Some(name@),
                None => None,
            },
        ),
{
    let map = match val.as_map() {
        Some(map) => map,
        None => {
            return Err(Error::invalid_value("object"));
        },
    };
    let found = match map.get(tag_field) {
        Some(tag) => match tag.as_str() {
            Some(name) => find_variant_by_name(variants, name),
            None => {
                return Err(
                    named_field_error(tag_field, Error::invalid_value("enum variant name")),
                );
            },
        },
        None => match current {
            Some(name) => find_variant_by_name(variants, name),
            None => {
                return Err(named_field_error(tag_field, Error::MissingField));
            },
        },
    };
    let index = match found {
        Some(index) => index,
        None => {
            return Err(Error::UnknownEnumVariant);
        },
    };
    match content_field {
        None => Ok(Selected { index, content: Some(val) }),
        Some(key) => match map.get(key) {
            Some(content) => Ok(Selected { index, content: Some(content) }),
            None => if variants[index].needs_content {
                Err(named_field_error(key, Error::MissingField))
            } else {
                Ok(Selected { index, content: None })
            },
        },
    }
}

/// Choose the variant of an enum that a value stands for, and the content
/// to make the variant of or to update it with. `current` is the name of
/// the variant that an object to update has, and is `None` where an object
/// is to be made.
pub fn select_variant<'a>(
    tagging: &Tagging,
    variants: &[VariantTag],
    val: &'a Intermediate,
    current: Option<&str>,
) -> (r: Result<Selected<'a>, Error>)
    ensures
        selected_view(r) == selected(
            tagging@,
            variants_view(variants@),
            val@,
            match current {
                Some(name) => Some(name@),
                None => None,
            },
        ),
{
    match tagging {
        Tagging::External => select_externally_tagged(variants, val),
        Tagging::Internal(tag_field) => select_internally_tagged(
            variants,
            tag_field.as_str(),
            None,
            val,
            current,
        ),
        Tagging::Adjacent(tag_field, content_field) => select_internally_tagged(
            variants,
            tag_field.as_str(),
            Some(content_field.as_str()),
            val,
            current,
        ),
    }
}

} // verus!
