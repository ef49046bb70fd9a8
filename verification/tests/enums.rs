use serde_lite::enums::{
    find_variant_by_name, select_externally_tagged, select_internally_tagged, select_variant,
    serialize_adjacently_tagged, serialize_enum, serialize_externally_tagged,
    serialize_internally_tagged, Tagging, VariantTag,
};
use serde_lite::{Error, Intermediate, Number, Object};

fn unsigned(n: u64) -> Intermediate {
    Intermediate::Number(Number::UnsignedInt(n))
}

fn object(entries: Vec<(&'static str, Intermediate)>) -> Intermediate {
    let mut map = Object::new();
    for (key, value) in entries {
        map.insert_with_static_key(key, value);
    }
    Intermediate::Object(map)
}

const VARIANTS: [VariantTag<'static>; 3] = [
    VariantTag { name: "Variant1", needs_content: false },
    VariantTag { name: "Variant2", needs_content: true },
    VariantTag { name: "Variant12", needs_content: true },
];

fn named_error(error: Error) -> (String, Error) {
    match error {
        Error::NamedFieldErrors(list) => {
            let mut items = list.into_vec();
            assert_eq!(items.len(), 1);
            let item = items.pop().unwrap();
            (String::from(item.field()), item.into_error())
        }
        other => panic!("unexpected {:?}", other),
    }
}

#[test]
fn external_tag_round_trip() {
    let bare = serialize_externally_tagged("Variant1", Intermediate::Null).unwrap();
    assert_eq!(bare, Intermediate::from("Variant1"));
    let with_content = serialize_externally_tagged("Variant2", unsigned(42)).unwrap();
    assert_eq!(with_content, object(vec![("Variant2", unsigned(42))]));

    let selected = select_externally_tagged(&VARIANTS, &bare).unwrap();
    assert_eq!((selected.index, selected.content), (0, None));
    let selected = select_externally_tagged(&VARIANTS, &with_content).unwrap();
    assert_eq!((selected.index, selected.content), (1, Some(&unsigned(42))));
}

#[test]
fn a_variant_is_found_by_its_whole_name() {
    assert_eq!(find_variant_by_name(&VARIANTS, "Variant1"), Some(0));
    assert_eq!(find_variant_by_name(&VARIANTS, "Variant12"), Some(2));
    assert_eq!(find_variant_by_name(&VARIANTS, "Variant"), None);
    assert_eq!(find_variant_by_name(&VARIANTS, "variant1"), None);
    assert_eq!(find_variant_by_name(&[], "Variant1"), None);
    let twice = [
        VariantTag { name: "A", needs_content: true },
        VariantTag { name: "A", needs_content: false },
    ];
    assert_eq!(find_variant_by_name(&twice, "A"), Some(0));
}

#[test]
fn external_tagging_rejects_every_other_shape() {
    let unknown = |value: Intermediate| {
        matches!(select_externally_tagged(&VARIANTS, &value), Err(Error::UnknownEnumVariant))
    };
    assert!(unknown(Intermediate::from("foo")));
    assert!(unknown(Intermediate::Null));
    assert!(unknown(unsigned(1)));
    assert!(unknown(Intermediate::Array(vec![Intermediate::from("Variant1")])));
    assert!(unknown(object(vec![])));
    assert!(unknown(object(vec![("foo", unsigned(1))])));
    assert!(unknown(object(vec![("Variant1", Intermediate::Null), ("Variant2", unsigned(1))])));
    assert!(matches!(
        select_externally_tagged(&VARIANTS, &Intermediate::from("Variant2")),
        Err(Error::MissingEnumVariantContent)
    ));
    let with_null = object(vec![("Variant1", Intermediate::Null)]);
    let selected = select_externally_tagged(&VARIANTS, &with_null).unwrap();
    assert_eq!((selected.index, selected.content), (0, Some(&Intermediate::Null)));
}

#[test]
fn internal_tagging_puts_the_name_before_the_content() {
    let none = serialize_internally_tagged("type", "Variant1", Intermediate::Null).unwrap();
    assert_eq!(none, object(vec![("type", Intermediate::from("Variant1"))]));
    let empty = serialize_internally_tagged("type", "Variant1", Intermediate::Array(vec![])).unwrap();
    assert_eq!(empty, object(vec![("type", Intermediate::from("Variant1"))]));
    let content = object(vec![("a", unsigned(1)), ("b", unsigned(2))]);
    let merged = serialize_internally_tagged("type", "Variant2", content).unwrap();
    assert_eq!(
        merged,
        object(vec![("type", Intermediate::from("Variant2")), ("a", unsigned(1)), ("b", unsigned(2))])
    );
    for content in [unsigned(1), Intermediate::from("s"), Intermediate::Array(vec![unsigned(1)])] {
        assert!(matches!(
            serialize_internally_tagged("type", "Variant2", content),
            Err(Error::Custom(m)) if m == "enum cannot be tagged internally"
        ));
    }
}

#[test]
fn adjacent_tagging_puts_the_content_under_its_own_key() {
    let value = serialize_adjacently_tagged("t", "c", "Variant2", unsigned(5)).unwrap();
    assert_eq!(value, object(vec![("t", Intermediate::from("Variant2")), ("c", unsigned(5))]));
    let value = serialize_adjacently_tagged("t", "c", "Variant1", Intermediate::Null).unwrap();
    assert_eq!(value, object(vec![("t", Intermediate::from("Variant1")), ("c", Intermediate::Null)]));
}

#[test]
fn the_tagging_chooses_the_form() {
    let external = Tagging::new(None, Some(String::from("ignored")));
    let internal = Tagging::new(Some(String::from("t")), None);
    let adjacent = Tagging::new(Some(String::from("t")), Some(String::from("c")));
    let content = || object(vec![("a", unsigned(1))]);
    assert_eq!(
        serialize_enum(&external, "V", content()).unwrap(),
        object(vec![("V", content())])
    );
    assert_eq!(
        serialize_enum(&internal, "V", content()).unwrap(),
        object(vec![("t", Intermediate::from("V")), ("a", unsigned(1))])
    );
    assert_eq!(
        serialize_enum(&adjacent, "V", content()).unwrap(),
        object(vec![("t", Intermediate::from("V")), ("c", content())])
    );
}

#[test]
fn internal_tag_partial_update_without_discriminant() {
    let tagging = Tagging::new(Some(String::from("type")), None);
    let input = object(vec![("field2", Intermediate::from("world"))]);

    let selected = select_variant(&tagging, &VARIANTS, &input, Some("Variant2")).unwrap();
    assert_eq!((selected.index, selected.content), (1, Some(&input)));

    let (field, error) = named_error(select_variant(&tagging, &VARIANTS, &input, None).unwrap_err());
    assert_eq!(field, "type");
    assert!(matches!(error, Error::MissingField));
}

#[test]
fn internal_tagging_reads_the_name_from_its_key() {
    let input = object(vec![("type", Intermediate::from("Variant2")), ("a", unsigned(1))]);
    let selected = select_internally_tagged(&VARIANTS, "type", None, &input, None).unwrap();
    assert_eq!((selected.index, selected.content), (1, Some(&input)));
    let selected =
        select_internally_tagged(&VARIANTS, "type", None, &input, Some("Variant1")).unwrap();
    assert_eq!(selected.index, 1);

    let not_a_name = object(vec![("type", unsigned(1))]);
    let (field, error) = named_error(
        select_internally_tagged(&VARIANTS, "type", None, &not_a_name, Some("Variant1"))
            .unwrap_err(),
    );
    assert_eq!(field, "type");
    assert!(matches!(error, Error::InvalidValue(m) if m == "enum variant name"));

    let unknown = object(vec![("type", Intermediate::from("foo"))]);
    assert!(matches!(
        select_internally_tagged(&VARIANTS, "type", None, &unknown, None),
        Err(Error::UnknownEnumVariant)
    ));
    assert!(matches!(
        select_internally_tagged(&VARIANTS, "type", None, &object(vec![]), Some("foo")),
        Err(Error::UnknownEnumVariant)
    ));
    assert!(matches!(
        select_internally_tagged(&VARIANTS, "type", None, &Intermediate::Null, None),
        Err(Error::InvalidValue(m)) if m == "object"
    ));
}

#[test]
fn adjacent_tagging_reads_the_content_from_its_key() {
    let input = object(vec![("t", Intermediate::from("Variant2")), ("c", unsigned(5))]);
    let selected = select_internally_tagged(&VARIANTS, "t", Some("c"), &input, None).unwrap();
    assert_eq!((selected.index, selected.content), (1, Some(&unsigned(5))));

    let no_content = object(vec![("t", Intermediate::from("Variant1"))]);
    let selected = select_internally_tagged(&VARIANTS, "t", Some("c"), &no_content, None).unwrap();
    assert_eq!((selected.index, selected.content), (0, None));

    let missing = object(vec![("t", Intermediate::from("Variant2"))]);
    let (field, error) = named_error(
        select_internally_tagged(&VARIANTS, "t", Some("c"), &missing, None).unwrap_err(),
    );
    assert_eq!(field, "c");
    assert!(matches!(error, Error::MissingField));

    let only_content = object(vec![("c", unsigned(6))]);
    let selected =
        select_internally_tagged(&VARIANTS, "t", Some("c"), &only_content, Some("Variant2"))
            .unwrap();
    assert_eq!((selected.index, selected.content), (1, Some(&unsigned(6))));
}
