use serde_lite::attributes::{
    deserialize_mode, get_attr_value, get_enum_content, get_enum_tag, get_enum_tagging,
    get_field_deserializer, get_field_name, get_field_serializer, get_field_updater,
    get_skip_field_serializing_if, get_variant_name, has_flag, serialize_mode, update_mode,
    Attribute, Field, FieldMode, Lit, NestedMeta, Variant,
};
use serde_lite::enums::Tagging;

fn name(s: &str) -> Option<String> {
    Some(String::from(s))
}

fn flag(s: &str) -> NestedMeta {
    NestedMeta::Path(name(s))
}

fn pair(key: &str, value: &str) -> NestedMeta {
    NestedMeta::NameValue(name(key), Lit::Str(String::from(value)))
}

fn serde(items: Vec<NestedMeta>) -> Attribute {
    Attribute { path: name("serde"), nested: Some(items) }
}

fn field(ident: &str, attrs: Vec<Attribute>) -> Field {
    Field { attrs, ident: name(ident) }
}

fn string(lit: Option<Lit>) -> Option<String> {
    match lit {
        Some(Lit::Str(s)) => Some(s),
        _ => None,
    }
}

#[test]
fn the_first_value_of_a_name_is_found() {
    let attrs = vec![
        Attribute { path: name("doc"), nested: Some(vec![pair("rename", "no")]) },
        Attribute { path: name("serde"), nested: None },
        Attribute { path: None, nested: Some(vec![pair("rename", "no")]) },
        serde(vec![flag("rename"), NestedMeta::Other, pair("tag", "t"), pair("rename", "first")]),
        serde(vec![pair("rename", "second"), pair("content", "c")]),
    ];
    assert_eq!(string(get_attr_value(&attrs, "rename")), name("first"));
    assert_eq!(string(get_attr_value(&attrs, "tag")), name("t"));
    assert_eq!(string(get_attr_value(&attrs, "content")), name("c"));
    assert!(get_attr_value(&attrs, "other").is_none());
    assert!(get_attr_value(&attrs, "renam").is_none());
    assert!(get_attr_value(&[], "rename").is_none());
    let other = vec![serde(vec![NestedMeta::NameValue(name("rename"), Lit::Other)])];
    assert!(matches!(get_attr_value(&other, "rename"), Some(Lit::Other)));
}

#[test]
fn a_flag_is_a_name_alone() {
    let attrs = vec![
        Attribute { path: name("other"), nested: Some(vec![flag("skip")]) },
        serde(vec![pair("flatten", "x"), NestedMeta::Path(None), flag("default")]),
    ];
    assert!(has_flag(&attrs, "default"));
    assert!(!has_flag(&attrs, "skip"));
    assert!(!has_flag(&attrs, "flatten"));
    assert!(!has_flag(&attrs, "defaul"));
    assert!(!has_flag(&[], "default"));
}

#[test]
fn a_field_goes_by_its_name_or_its_new_name() {
    assert_eq!(get_field_name(&field("plain", vec![])), "plain");
    assert_eq!(get_field_name(&field("plain", vec![serde(vec![flag("rename")])])), "plain");
    assert_eq!(get_field_name(&field("old", vec![serde(vec![pair("rename", "new")])])), "new");
    let nameless = Field { attrs: vec![serde(vec![pair("rename", "new")])], ident: None };
    assert_eq!(get_field_name(&nameless), "new");
}

#[test]
fn a_variant_goes_by_its_name_or_its_new_name() {
    let plain = Variant { attrs: vec![], ident: String::from("Variant1") };
    assert_eq!(get_variant_name(&plain), "Variant1");
    let renamed =
        Variant { attrs: vec![serde(vec![pair("rename", "v2")])], ident: String::from("Variant2") };
    assert_eq!(get_variant_name(&renamed), "v2");
}

#[test]
fn the_paths_of_a_field_are_found_by_their_names() {
    let f = field(
        "f",
        vec![serde(vec![
            pair("skip_serializing_if", "Option::is_none"),
            pair("serialize_with", "ser"),
            pair("deserialize_with", "de"),
            pair("update_with", "up"),
        ])],
    );
    assert_eq!(get_skip_field_serializing_if(&f), name("Option::is_none"));
    assert_eq!(get_field_serializer(&f), name("ser"));
    assert_eq!(get_field_deserializer(&f), name("de"));
    assert_eq!(get_field_updater(&f), name("up"));
    let plain = field("f", vec![]);
    assert_eq!(get_skip_field_serializing_if(&plain), None);
    assert_eq!(get_field_serializer(&plain), None);
    assert_eq!(get_field_deserializer(&plain), None);
    assert_eq!(get_field_updater(&plain), None);
}

#[test]
fn the_keys_of_an_enum_choose_its_tagging() {
    let none: Vec<Attribute> = vec![];
    let tag = vec![serde(vec![pair("tag", "type")])];
    let both = vec![serde(vec![pair("tag", "type"), pair("content", "data")])];
    let content = vec![serde(vec![pair("content", "data")])];
    assert_eq!(get_enum_tag(&none), None);
    assert_eq!(get_enum_tag(&both), name("type"));
    assert_eq!(get_enum_content(&tag), None);
    assert_eq!(get_enum_content(&both), name("data"));
    assert!(matches!(get_enum_tagging(&none), Tagging::External));
    assert!(matches!(get_enum_tagging(&content), Tagging::External));
    assert!(matches!(get_enum_tagging(&tag), Tagging::Internal(t) if t == "type"));
    assert!(
        matches!(get_enum_tagging(&both), Tagging::Adjacent(t, c) if t == "type" && c == "data")
    );
}

#[test]
fn the_flags_of_a_field_choose_how_it_takes_part() {
    let plain = field("f", vec![]);
    let skip = field("f", vec![serde(vec![flag("skip"), flag("flatten")])]);
    let skip_ser = field("f", vec![serde(vec![flag("skip_serializing"), flag("default")])]);
    let skip_de = field("f", vec![serde(vec![flag("skip_deserializing")])]);
    let flatten = field("f", vec![serde(vec![flag("default")]), serde(vec![flag("flatten")])]);
    let default = field("f", vec![serde(vec![flag("default")])]);
    let modes = |f: &Field| (serialize_mode(f), deserialize_mode(f), update_mode(f));
    assert_eq!(modes(&plain), (FieldMode::Keyed, FieldMode::Keyed, FieldMode::Keyed));
    assert_eq!(modes(&skip), (FieldMode::Skip, FieldMode::Skip, FieldMode::Skip));
    assert_eq!(modes(&skip_ser), (FieldMode::Skip, FieldMode::Default, FieldMode::Keyed));
    assert_eq!(modes(&skip_de), (FieldMode::Keyed, FieldMode::Skip, FieldMode::Skip));
    assert_eq!(modes(&flatten), (FieldMode::Flatten, FieldMode::Flatten, FieldMode::Flatten));
    assert_eq!(modes(&default), (FieldMode::Keyed, FieldMode::Default, FieldMode::Keyed));
}
