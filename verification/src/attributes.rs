//! The annotations of a struct, an enum, a field or a variant, and what
//! they ask for.
use vstd::prelude::*;
use crate::enums::{Tagging, TaggingView};
use crate::text::str_eq;

verus! {

/// A literal in an annotation.
#[derive(Debug)]
pub enum Lit {
    /// A string.
    Str(String),
    /// Any other literal.
    Other,
}

/// What a [`Lit`] stands for.
pub enum LitView {
    Str(Seq<char>),
    Other,
}

impl View for Lit {
    type V = LitView;

    open spec fn view(&self) -> LitView {
        match self {
            Lit::Str(s) => LitView::Str(s@),
            Lit::Other => LitView::Other,
        }
    }
}

impl Clone for Lit {
    fn clone(&self) -> (r: Self)
        ensures
            r@ == self@,
    {
        match self {
            Lit::Str(s) => Lit::Str(s.clone()),
            Lit::Other => Lit::Other,
        }
    }
}

/// One item of the list of an annotation.
#[derive(Debug)]
pub enum NestedMeta {
    /// A flag: a path alone. The string is the path where it is one name.
    Path(Option<String>),
    /// A path with a literal. The string is the path where it is one name.
    NameValue(Option<String>, Lit),
    /// Anything else.
    Other,
}

/// What a [`NestedMeta`] stands for.
pub enum NestedMetaView {
    Path(Option<Seq<char>>),
    NameValue(Option<Seq<char>>, LitView),
    Other,
}

/// What an optional string stands for.
pub open spec fn name_view(name: Option<String>) -> Option<Seq<char>> {
    match name {
        Some(s) => Some(s@),
        None => None,
    }
}

impl View for NestedMeta {
    type V = NestedMetaView;

    open spec fn view(&self) -> NestedMetaView {
        match self {
            NestedMeta::Path(p) => NestedMetaView::Path(name_view(*p)),
            NestedMeta::NameValue(p, lit) => NestedMetaView::NameValue(name_view(*p), lit@),
            NestedMeta::Other => NestedMetaView::Other,
        }
    }
}

/// An annotation.
#[derive(Debug)]
pub struct Attribute {
    /// The path of the annotation, where it is one name.
    pub path: Option<String>,
    /// The items of the annotation, where it is a list.
    pub nested: Option<Vec<NestedMeta>>,
}

/// What an [`Attribute`] stands for.
pub struct AttributeView {
    pub path: Option<Seq<char>>,
    pub nested: Option<Seq<NestedMetaView>>,
}

impl View for Attribute {
    type V = AttributeView;

    open spec fn view(&self) -> AttributeView {
        AttributeView {
            path: name_view(self.path),
            nested: match self.nested {
                Some(items) => Some(Seq::new(items@.len(), |i: int| items@[i]@)),
                None => None,
            },
        }
    }
}

/// The annotations, as what they stand for.
pub open spec fn attrs_view(attrs: Seq<Attribute>) -> Seq<AttributeView> {
    Seq::new(attrs.len(), |i: int| attrs[i]@)
}

/// A field of a struct or of a variant.
#[derive(Debug)]
pub struct Field {
    /// The annotations of the field.
    pub attrs: Vec<Attribute>,
    /// The name of the field, where it has one.
    pub ident: Option<String>,
}

/// A variant of an enum.
#[derive(Debug)]
pub struct Variant {
    /// The annotations of the variant.
    pub attrs: Vec<Attribute>,
    /// The name of the variant.
    pub ident: String,
}

/// The literal of the first of the first `n` items that gives one to the
/// name.
pub open spec fn item_value(items: Seq<NestedMetaView>, name: Seq<char>, n: nat) -> Option<LitView>
    decreases n,
{
    if n == 0 || n > items.len() {
        None
    } else {
        match item_value(items, name, (n - 1) as nat) {
            Some(lit) => Some(lit),
            None => match items[n - 1] {
                NestedMetaView::NameValue(Some(path), lit) => if path == name {
                    Some(lit)
                } else {
                    None
                },
                _ => None,
            },
        }
    }
}

/// Whether one of the first `n` items is the flag of the name.
pub open spec fn item_flag(items: Seq<NestedMetaView>, name: Seq<char>, n: nat) -> bool
    decreases n,
{
    if n == 0 || n > items.len() {
        false
    } else {
        item_flag(items, name, (n - 1) as nat) || items[n - 1] == NestedMetaView::Path(Some(name))
    }
}

/// The items of an annotation that counts: its path is `serde` and it is a
/// list.
pub open spec fn serde_items(attr: AttributeView) -> Option<Seq<NestedMetaView>> {
    if attr.path == Some("serde"@) {
        attr.nested
    } else {
        None
    }
}

/// The literal that the first `n` annotations give to the name: that of
/// the first item that gives one, in the first annotation that has such an
/// item.
pub open spec fn attr_value(attrs: Seq<AttributeView>, name: Seq<char>, n: nat) -> Option<LitView>
    decreases n,
{
    if n == 0 || n > attrs.len() {
        None
    } else {
        match attr_value(attrs, name, (n - 1) as nat) {
            Some(lit) => Some(lit),
            None => match serde_items(attrs[n - 1]) {
                Some(items) => item_value(items, name, items.len()),
                None => None,
            },
        }
    }
}

/// Whether one of the first `n` annotations has the flag of the name.
pub open spec fn attr_flag(attrs: Seq<AttributeView>, name: Seq<char>, n: nat) -> bool
    decreases n,
{
    if n == 0 || n > attrs.len() {
        false
    } else {
        attr_flag(attrs, name, (n - 1) as nat) || match serde_items(attrs[n - 1]) {
            Some(items) => item_flag(items, name, items.len()),
            None => false,
        }
    }
}

/// A value that has been found stays the value.
pub proof fn lemma_item_value_found(items: Seq<NestedMetaView>, name: Seq<char>, at: nat, n: nat)
    requires
        item_value(items, name, at) is Some,
        at <= n <= items.len(),
    ensures
        item_value(items, name, n) == item_value(items, name, at),
    decreases n,
{
    if n > at {
        lemma_item_value_found(items, name, at, (n - 1) as nat);
    }
}

/// A value that has been found stays the value.
pub proof fn lemma_attr_value_found(attrs: Seq<AttributeView>, name: Seq<char>, at: nat, n: nat)
    requires
        attr_value(attrs, name, at) is Some,
        at <= n <= attrs.len(),
    ensures
        attr_value(attrs, name, n) == attr_value(attrs, name, at),
    decreases n,
{
    if n > at {
        lemma_attr_value_found(attrs, name, at, (n - 1) as nat);
    }
}

/// A flag that has been found stays.
pub proof fn lemma_item_flag_found(items: Seq<NestedMetaView>, name: Seq<char>, at: nat, n: nat)
    requires
        item_flag(items, name, at),
        at <= n <= items.len(),
    ensures
        item_flag(items, name, n),
    decreases n,
{
    if n > at {
        lemma_item_flag_found(items, name, at, (n - 1) as nat);
    }
}

/// A flag that has been found stays.
pub proof fn lemma_attr_flag_found(attrs: Seq<AttributeView>, name: Seq<char>, at: nat, n: nat)
    requires
        attr_flag(attrs, name, at),
        at <= n <= attrs.len(),
    ensures
        attr_flag(attrs, name, n),
    decreases n,
{
    if n > at {
        lemma_attr_flag_found(attrs, name, at, (n - 1) as nat);
    }
}

/// Whether an optional name is the given name.
fn is_ident(path: &Option<String>, name: &str) -> (r: bool)
    ensures
        r == (name_view(*path) == Some(name@)),
{
    match path {
        Some(p) => str_eq(p.as_str(), name),
        None => false,
    }
}

/// The items of an annotation that counts.
fn items_of(attr: &Attribute) -> (r: Option<&Vec<NestedMeta>>)
    ensures
        match r {
            Some(items) => serde_items(attr@) == Some(Seq::new(items@.len(), |i: int| items@[i]@)),
            None => serde_items(attr@) is None,
        },
{
    if is_ident(&attr.path, "serde") {
        match &attr.nested {
            Some(items) => Some(items),
            None => None,
        }
    } else {
        None
    }
}

/// Get value of a given attribute.
pub fn get_attr_value(attrs: &[Attribute], name: &str) -> (r: Option<Lit>)
    ensures
        match r {
            Some(lit) => attr_value(attrs_view(attrs@), name@, attrs@.len()) == Some(lit@),
            None => attr_value(attrs_view(attrs@), name@, attrs@.len()) is None,
        },
{
    let ghost all = attrs_view(attrs@);
    let mut a: usize = 0;
    while a < attrs.len()
        invariant
            a <= attrs@.len(),
            all == attrs_view(attrs@),
            attr_value(all, name@, a as nat) is None,
        decreases attrs.len() - a,
    {
        match items_of(&attrs[a]) {
            Some(items) => {
                let ghost views = Seq::new(items@.len(), |i: int| items@[i]@);
                let mut i: usize = 0;
                while i < items.len()
                    invariant
                        i <= items@.len(),
                        a < attrs@.len(),
                        all == attrs_view(attrs@),
                        attr_value(all, name@, a as nat) is None,
                        views == Seq::new(items@.len(), |i: int| items@[i]@),
                        serde_items(all[a as int]) == Some(views),
                        item_value(views, name@, i as nat) is None,
                    decreases items.len() - i,
                {
                    match &items[i] {
                        NestedMeta::NameValue(path, lit) => {
                            if is_ident(path, name) {
                                proof {
                                    lemma_item_value_found(
                                        views,
                                        name@,
                                        (i + 1) as nat,
                                        views.len(),
                                    );
                                    lemma_attr_value_found(
                                        all,
                                        name@,
                                        (a + 1) as nat,
                                        all.len(),
                                    );
                                }
                                return Some(lit.clone());
                            }
                        },
                        _ => {},
                    }
                    i += 1;
                }
            },
            None => {},
        }
        a += 1;
    }
    None
}

/// Check if a given attribute flag is present.
pub fn has_flag(attrs: &[Attribute], name: &str) -> (r: bool)
    ensures
        r == attr_flag(attrs_view(attrs@), name@, attrs@.len()),
{
    let ghost all = attrs_view(attrs@);
    let mut a: usize = 0;
    while a < attrs.len()
        invariant
            a <= attrs@.len(),
            all == attrs_view(attrs@),
            !attr_flag(all, name@, a as nat),
        decreases attrs.len() - a,
    {
        match items_of(&attrs[a]) {
            Some(items) => {
                let ghost views = Seq::new(items@.len(), |i: int| items@[i]@);
                let mut i: usize = 0;
                while i < items.len()
                    invariant
                        i <= items@.len(),
                        a < attrs@.len(),
                        all == attrs_view(attrs@),
                        !attr_flag(all, name@, a as nat),
                        views == Seq::new(items@.len(), |i: int| items@[i]@),
                        serde_items(all[a as int]) == Some(views),
                        !item_flag(views, name@, i as nat),
                    decreases items.len() - i,
                {
                    match &items[i] {
                        NestedMeta::Path(path) => {
                            if is_ident(path, name) {
                                proof {
                                    lemma_item_flag_found(
                                        views,
                                        name@,
                                        (i + 1) as nat,
                                        views.len(),
                                    );
                                    lemma_attr_flag_found(
                                        all,
                                        name@,
                                        (a + 1) as nat,
                                        all.len(),
                                    );
                                }
                                return true;
                            }
                        },
                        _ => {},
                    }
                    i += 1;
                }
            },
            None => {},
        }
        a += 1;
    }
    false
}

/// The string that the annotations give to a name, if they give it
/// anything.
pub open spec fn attr_string(attrs: Seq<Attribute>, name: Seq<char>) -> Option<Seq<char>> {
    match attr_value(attrs_view(attrs), name, attrs.len()) {
        Some(LitView::Str(s)) => Some(s),
        _ => None,
    }
}

/// Whether what the annotations give to a name, if anything, is a string.
pub open spec fn attr_is_string(attrs: Seq<Attribute>, name: Seq<char>) -> bool {
    !(attr_value(attrs_view(attrs), name, attrs.len()) matches Some(LitView::Other))
}

/// The string that the annotations give to a name.
fn get_attr_string(attrs: &[Attribute], name: &str) -> (r: Option<String>)
    requires
        attr_is_string(attrs@, name@),
    ensures
        name_view(r) == attr_string(attrs@, name@),
{
    match get_attr_value(attrs, name) {
        Some(Lit::Str(s)) => Some(s),
        _ => None,
    }
}

/// Get the rename attribute for a given field or the field name.
pub fn get_field_name(field: &Field) -> (r: String)
    requires
        attr_is_string(field.attrs@, "rename"@),
        attr_string(field.attrs@, "rename"@) is None ==> field.ident is Some,
    ensures
        r@ == match attr_string(field.attrs@, "rename"@) {
            Some(name) => name,
            None => field.ident->0@,
        },
{
    match get_attr_string(field.attrs.as_slice(), "rename") {
        Some(name) => name,
        None => match &field.ident {
            Some(ident) => ident.clone(),
            None => String::new(),
        },
    }
}

/// Get the skip_serializing_if path for a given field (if present).
pub fn get_skip_field_serializing_if(field: &Field) -> (r: Option<String>)
    requires
        attr_is_string(field.attrs@, "skip_serializing_if"@),
    ensures
        name_view(r) == attr_string(field.attrs@, "skip_serializing_if"@),
{
    get_attr_string(field.attrs.as_slice(), "skip_serializing_if")
}

/// Get field serializer path (if present).
pub fn get_field_serializer(field: &Field) -> (r: Option<String>)
    requires
        attr_is_string(field.attrs@, "serialize_with"@),
    ensures
        name_view(r) == attr_string(field.attrs@, "serialize_with"@),
{
    get_attr_string(field.attrs.as_slice(), "serialize_with")
}

/// Get field deserializer path (if present).
pub fn get_field_deserializer(field: &Field) -> (r: Option<String>)
    requires
        attr_is_string(field.attrs@, "deserialize_with"@),
    ensures
        name_view(r) == attr_string(field.attrs@, "deserialize_with"@),
{
    get_attr_string(field.attrs.as_slice(), "deserialize_with")
}

/// Get field updater path (if present).
pub fn get_field_updater(field: &Field) -> (r: Option<String>)
    requires
        attr_is_string(field.attrs@, "update_with"@),
    ensures
        name_view(r) == attr_string(field.attrs@, "update_with"@),
{
    get_attr_string(field.attrs.as_slice(), "update_with")
}

/// Get enum tag attribute (if present).
pub fn get_enum_tag(attrs: &[Attribute]) -> (r: Option<String>)
    requires
        attr_is_string(attrs@, "tag"@),
    ensures
        name_view(r) == attr_string(attrs@, "tag"@),
{
    get_attr_string(attrs, "tag")
}

/// Get enum content attribute (if present).
pub fn get_enum_content(attrs: &[Attribute]) -> (r: Option<String>)
    requires
        attr_is_string(attrs@, "content"@),
    ensures
        name_view(r) == attr_string(attrs@, "content"@),
{
    get_attr_string(attrs, "content")
}

/// Get the rename attribute for a given enum variant or the variant name.
pub fn get_variant_name(variant: &Variant) -> (r: String)
    requires
        attr_is_string(variant.attrs@, "rename"@),
    ensures
        r@ == match attr_string(variant.attrs@, "rename"@) {
            Some(name) => name,
            None => variant.ident@,
        },
{
    match get_attr_string(variant.attrs.as_slice(), "rename") {
        Some(name) => name,
        None => variant.ident.clone(),
    }
}

/// The tagging that the annotations of an enum ask for.
pub fn get_enum_tagging(attrs: &[Attribute]) -> (r: Tagging)
    requires
        attr_is_string(attrs@, "tag"@),
        attr_is_string(attrs@, "content"@),
    ensures
        r@ == match (attr_string(attrs@, "tag"@), attr_string(attrs@, "content"@)) {
            (None, _) => TaggingView::External,
            (Some(t), None) => TaggingView::Internal(t),
            (Some(t), Some(c)) => TaggingView::Adjacent(t, c),
        },
{
    let tag = get_attr_string(attrs, "tag");
    let content = get_attr_string(attrs, "content");
    Tagging::new(tag, content)
}

/// How a named field takes part in a protocol.
#[derive(Debug, Clone, Copy, PartialEq, Eq, Structural)]
pub enum FieldMode {
    /// The field takes no part.
    Skip,
    /// The field is flattened: it stands for entries of the map of its
    /// struct.
    Flatten,
    /// The field stands under its key, and may be missing: it then has the
    /// default of its type.
    Default,
    /// The field stands under its key.
    Keyed,
}

/// How a field is serialized: a field with `skip` or `skip_serializing`
/// not at all, one with `flatten` flattened, any other under its key.
pub open spec fn serialize_mode_of(attrs: Seq<Attribute>) -> FieldMode {
    let all = attrs_view(attrs);
    if attr_flag(all, "skip"@, attrs.len()) || attr_flag(all, "skip_serializing"@, attrs.len()) {
        FieldMode::Skip
    } else if attr_flag(all, "flatten"@, attrs.len()) {
        FieldMode::Flatten
    } else {
        FieldMode::Keyed
    }
}

/// How a field is deserialized: a field with `skip` or
/// `skip_deserializing` not at all, one with `flatten` flattened, one with
/// `default` under its key or by default, any other under its key.
pub open spec fn deserialize_mode_of(attrs: Seq<Attribute>) -> FieldMode {
    let all = attrs_view(attrs);
    if attr_flag(all, "skip"@, attrs.len()) || attr_flag(all, "skip_deserializing"@, attrs.len()) {
        FieldMode::Skip
    } else if attr_flag(all, "flatten"@, attrs.len()) {
        FieldMode::Flatten
    } else if attr_flag(all, "default"@, attrs.len()) {
        FieldMode::Default
    } else {
        FieldMode::Keyed
    }
}

/// How a field is updated: a field with `skip` or `skip_deserializing` not
/// at all, one with `flatten` flattened, any other under its key.
pub open spec fn update_mode_of(attrs: Seq<Attribute>) -> FieldMode {
    let all = attrs_view(attrs);
    if attr_flag(all, "skip"@, attrs.len()) || attr_flag(all, "skip_deserializing"@, attrs.len()) {
        FieldMode::Skip
    } else if attr_flag(all, "flatten"@, attrs.len()) {
        FieldMode::Flatten
    } else {
        FieldMode::Keyed
    }
}

/// How a field is serialized.
pub fn serialize_mode(field: &Field) -> (r: FieldMode)
    ensures
        r == serialize_mode_of(field.attrs@),
{
    let attrs = field.attrs.as_slice();
    if has_flag(attrs, "skip") || has_flag(attrs, "skip_serializing") {
        FieldMode::Skip
    } else if has_flag(attrs, "flatten") {
        FieldMode::Flatten
    } else {
        FieldMode::Keyed
    }
}

/// How a field is deserialized.
pub fn deserialize_mode(field: &Field) -> (r: FieldMode)
    ensures
        r == deserialize_mode_of(field.attrs@),
{
    let attrs = field.attrs.as_slice();
    if has_flag(attrs, "skip") || has_flag(attrs, "skip_deserializing") {
        FieldMode::Skip
    } else if has_flag(attrs, "flatten") {
        FieldMode::Flatten
    } else if has_flag(attrs, "default") {
        FieldMode::Default
    } else {
        FieldMode::Keyed
    }
}

/// How a field is updated.
pub fn update_mode(field: &Field) -> (r: FieldMode)
    ensures
        r == update_mode_of(field.attrs@),
{
    let attrs = field.attrs.as_slice();
    if has_flag(attrs, "skip") || has_flag(attrs, "skip_deserializing") {
        FieldMode::Skip
    } else if has_flag(attrs, "flatten") {
        FieldMode::Flatten
    } else {
        FieldMode::Keyed
    }
}

} // verus!
