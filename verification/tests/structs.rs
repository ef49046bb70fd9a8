use serde_lite::structs::{
    deserialize_single_field, extend, flatten_error, serialize_named_fields,
    serialize_unnamed_fields, serialize_unnamed_fields_0, serialize_unnamed_fields_1,
    serialize_unnamed_fields_n, update_single_field, NamedFields, NamedOutput, UnnamedFields,
};
use serde_lite::{Deserialize, Error, Intermediate, Number, Object, Serialize};

fn unsigned(n: u64) -> Intermediate {
    Intermediate::Number(Number::UnsignedInt(n))
}

fn object(entries: Vec<(&'static str, Intermediate)>) -> Intermediate {
    let mut map = Object::new();
    for (key, value) in entries {
        map.insert_with_static_key(key, value);
    }
    Intermediate::Object(map)
}

fn keyed(key: &str, result: Result<Intermediate, Error>) -> NamedOutput {
    NamedOutput::Keyed(String::from(key), result)
}

fn flattened(name: &str, result: Result<Intermediate, Error>) -> NamedOutput {
    NamedOutput::Flattened(String::from(name), result)
}

fn named(error: Error) -> Vec<(String, Error)> {
    match error {
        Error::NamedFieldErrors(list) => list
            .into_vec()
            .into_iter()
            .map(|e| (String::from(e.field()), e.into_error()))
            .collect(),
        other => panic!("unexpected {:?}", other),
    }
}

fn unnamed(error: Error) -> Vec<(usize, Error)> {
    match error {
        Error::UnnamedFieldErrors(list) => {
            list.into_vec().into_iter().map(|e| (e.field_index(), e.into_error())).collect()
        }
        other => panic!("unexpected {:?}", other),
    }
}

#[derive(Debug)]
struct Two {
    field1: u32,
    field2: String,
}

impl Deserialize for Two {
    fn deserialize(val: &Intermediate) -> Result<Self, Error> {
        let mut fields = NamedFields::new(val)?;
        let field1 = fields.required::<u32>("field1");
        let field2 = fields.required::<String>("field2");
        fields.finish()?;
        Ok(Self { field1: field1.unwrap(), field2: field2.unwrap() })
    }
}

impl Serialize for Two {
    fn serialize(&self) -> Result<Intermediate, Error> {
        serialize_named_fields(vec![
            keyed("field1", self.field1.serialize()),
            keyed("field2", self.field2.serialize()),
        ])
    }
}

#[test]
fn aggregated_field_errors() {
    let input = object(vec![("field1", Intermediate::from("not-a-number"))]);
    let errors = named(Two::deserialize(&input).unwrap_err());
    assert_eq!(errors.len(), 2);
    assert_eq!(errors[0].0, "field1");
    assert!(matches!(&errors[0].1, Error::InvalidValue(m) if m == "unsigned integer"));
    assert_eq!(errors[1].0, "field2");
    assert!(matches!(errors[1].1, Error::MissingField));
}

#[test]
fn named_fields_want_a_map() {
    assert!(matches!(
        Two::deserialize(&Intermediate::Array(vec![])),
        Err(Error::InvalidValue(m)) if m == "object"
    ));
    let two = Two::deserialize(&object(vec![
        ("field2", Intermediate::from("s")),
        ("field1", unsigned(1)),
        ("more", unsigned(2)),
    ]))
    .unwrap();
    assert_eq!((two.field1, two.field2.as_str()), (1, "s"));
}

#[test]
fn a_field_with_a_default_swallows_its_error() {
    let input = object(vec![("a", Intermediate::from("not-a-number")), ("b", unsigned(7))]);
    let fields = NamedFields::new(&input).unwrap();
    assert_eq!(fields.or_default::<u32>("a"), 0);
    assert_eq!(fields.or_default::<u32>("b"), 7);
    assert_eq!(fields.or_default::<u32>("c"), 0);
    assert_eq!(fields.or_default::<Option<String>>("c"), None);
    assert!(fields.finish().is_ok());
}

#[test]
fn flatten() {
    let inner = Two { field1: 1, field2: String::from("s") };
    let outer = serialize_named_fields(vec![
        keyed("own", true.serialize()),
        flattened("inner", inner.serialize()),
    ])
    .unwrap();
    assert_eq!(
        outer,
        object(vec![
            ("own", Intermediate::Bool(true)),
            ("field1", unsigned(1)),
            ("field2", Intermediate::from("s")),
        ])
    );
    assert!(outer.as_map().unwrap().get("inner").is_none());

    let mut fields = NamedFields::new(&outer).unwrap();
    let own = fields.required::<bool>("own");
    let inner = fields.flattened::<Two>().unwrap();
    fields.finish().unwrap();
    assert_eq!(own, Some(true));
    let inner = inner.unwrap();
    assert_eq!((inner.field1, inner.field2.as_str()), (1, "s"));
}

#[test]
fn a_flattened_field_sets_its_entries_over_those_before_it() {
    let value = serialize_named_fields(vec![
        keyed("a", Ok(unsigned(1))),
        keyed("b", Ok(unsigned(2))),
        flattened("f", Ok(object(vec![("b", unsigned(20)), ("c", unsigned(30))]))),
        keyed("a", Ok(unsigned(10))),
    ])
    .unwrap();
    assert_eq!(value, object(vec![("a", unsigned(10)), ("b", unsigned(20)), ("c", unsigned(30))]));
    assert_eq!(serialize_named_fields(vec![]).unwrap(), object(vec![]));
}

#[test]
fn the_errors_of_named_fields_are_gathered_in_their_order() {
    let mut inner = serde_lite::ErrorList::new();
    inner.push(serde_lite::NamedFieldError::new("x", Error::MissingField));
    inner.push(serde_lite::NamedFieldError::new("y", Error::OutOfBounds));
    let errors = named(
        serialize_named_fields(vec![
            keyed("a", Err(Error::OutOfBounds)),
            keyed("b", Ok(unsigned(1))),
            flattened("c", Err(Error::NamedFieldErrors(inner))),
            keyed("d", Err(Error::custom("why"))),
        ])
        .unwrap_err(),
    );
    let keys: Vec<&str> = errors.iter().map(|e| e.0.as_str()).collect();
    assert_eq!(keys, vec!["a", "x", "y", "d"]);
    assert!(matches!(errors[0].1, Error::OutOfBounds));
    assert!(matches!(errors[1].1, Error::MissingField));
    assert!(matches!(errors[2].1, Error::OutOfBounds));
    assert!(matches!(&errors[3].1, Error::Custom(m) if m == "why"));
}

#[test]
fn a_flattened_field_that_is_no_map_ends_it() {
    let result = serialize_named_fields(vec![
        keyed("a", Err(Error::OutOfBounds)),
        flattened("inner", Ok(unsigned(1))),
        keyed("b", Err(Error::OutOfBounds)),
    ]);
    assert!(matches!(result, Err(Error::Custom(m)) if m == "field \"inner\" cannot be flattened"));
    assert!(matches!(
        flatten_error("f"),
        Error::Custom(m) if m == "field \"f\" cannot be flattened"
    ));
    let result = serialize_named_fields(vec![
        keyed("a", Err(Error::OutOfBounds)),
        flattened("inner", Err(Error::MissingField)),
    ]);
    assert!(matches!(result, Err(Error::MissingField)));
}

#[test]
fn a_flattened_field_shares_its_errors_with_its_struct() {
    let input = object(vec![("own", unsigned(1))]);
    let mut fields = NamedFields::new(&input).unwrap();
    let own = fields.required::<String>("own");
    let inner = fields.flattened::<Two>().unwrap();
    assert!(own.is_none() && inner.is_none());
    let errors = named(fields.finish().unwrap_err());
    let keys: Vec<&str> = errors.iter().map(|e| e.0.as_str()).collect();
    assert_eq!(keys, vec!["own", "field1", "field2"]);

    let mut fields = NamedFields::new(&input).unwrap();
    assert!(matches!(
        fields.flattened::<u32>(),
        Err(Error::InvalidValue(m)) if m == "unsigned integer"
    ));
}

#[test]
fn named_fields_are_updated_where_their_key_is_there() {
    let input = object(vec![("a", unsigned(5)), ("b", Intermediate::from("x"))]);
    let (mut a, mut b, mut c) = (1u8, 2u8, 3u8);
    let mut fields = NamedFields::new(&input).unwrap();
    fields.update("a", &mut a);
    fields.update("b", &mut b);
    fields.update("c", &mut c);
    let errors = named(fields.finish().unwrap_err());
    assert_eq!((a, b, c), (5, 2, 3));
    assert_eq!(errors.len(), 1);
    assert_eq!(errors[0].0, "b");

    let mut inner = (1u8,);
    let mut fields = NamedFields::new(&input).unwrap();
    assert!(matches!(
        fields.update_flattened(&mut inner),
        Err(Error::InvalidValue(m)) if m == "an array of length 1"
    ));
}

#[test]
fn extend_sets_every_entry() {
    let mut map = Object::new();
    map.insert_with_static_key("a", unsigned(1));
    let mut more = Object::new();
    more.insert_with_static_key("b", unsigned(2));
    more.insert_with_static_key("a", unsigned(3));
    extend(&mut map, more);
    assert_eq!(Intermediate::Object(map), object(vec![("a", unsigned(3)), ("b", unsigned(2))]));
}

#[test]
fn unnamed_fields_are_serialized_by_their_number() {
    assert_eq!(serialize_unnamed_fields_0().unwrap(), Intermediate::Null);
    assert_eq!(serialize_unnamed_fields(vec![]).unwrap(), Intermediate::Null);
    assert_eq!(serialize_unnamed_fields_1(Ok(unsigned(1))).unwrap(), unsigned(1));
    assert_eq!(serialize_unnamed_fields(vec![Ok(unsigned(1))]).unwrap(), unsigned(1));
    assert!(matches!(
        serialize_unnamed_fields(vec![Err(Error::OutOfBounds)]),
        Err(Error::OutOfBounds)
    ));
    assert_eq!(
        serialize_unnamed_fields(vec![Ok(unsigned(1)), Ok(Intermediate::Null)]).unwrap(),
        Intermediate::Array(vec![unsigned(1), Intermediate::Null])
    );
    assert_eq!(
        serialize_unnamed_fields_n(vec![Ok(unsigned(1))]).unwrap(),
        Intermediate::Array(vec![unsigned(1)])
    );
    let errors = unnamed(
        serialize_unnamed_fields(vec![
            Err(Error::OutOfBounds),
            Ok(unsigned(1)),
            Err(Error::MissingField),
        ])
        .unwrap_err(),
    );
    assert_eq!(errors.len(), 2);
    assert!(matches!(errors[0], (0, Error::OutOfBounds)));
    assert!(matches!(errors[1], (2, Error::MissingField)));
}

#[test]
fn unnamed_fields_are_read_by_their_places() {
    let input = Intermediate::Array(vec![unsigned(1), unsigned(300), unsigned(3), unsigned(4)]);
    let mut fields = UnnamedFields::new(&input, 3).unwrap();
    let f0 = fields.field::<u8>(0);
    let f1 = fields.field::<u8>(1);
    let f2 = fields.field::<String>(2);
    assert_eq!((f0, f1, f2), (Some(1), None, None));
    let errors = unnamed(fields.finish().unwrap_err());
    assert_eq!(errors.len(), 2);
    assert!(matches!(errors[0], (1, Error::OutOfBounds)));
    assert!(matches!(&errors[1], (2, Error::InvalidValue(m)) if m == "string"));

    assert!(matches!(
        UnnamedFields::new(&input, 5).map(|_| ()),
        Err(Error::InvalidValue(m)) if m == "array of length 5"
    ));
    assert!(matches!(
        UnnamedFields::new(&Intermediate::Null, 2).map(|_| ()),
        Err(Error::InvalidValue(m)) if m == "array"
    ));

    let (mut a, mut b) = (0u8, 0u8);
    let mut fields = UnnamedFields::new(&input, 2).unwrap();
    fields.update(0, &mut a);
    fields.update(1, &mut b);
    let errors = unnamed(fields.finish().unwrap_err());
    assert_eq!((a, b), (1, 0));
    assert!(matches!(errors[..], [(1, Error::OutOfBounds)]));
}

#[test]
fn the_one_unnamed_field_is_the_value_itself() {
    assert_eq!(deserialize_single_field::<u8>(&unsigned(1)).unwrap(), 1);
    assert_eq!(
        deserialize_single_field::<u8>(&Intermediate::Array(vec![unsigned(1)])).unwrap(),
        1
    );
    assert_eq!(
        deserialize_single_field::<Vec<u8>>(&Intermediate::Array(vec![unsigned(1)])).unwrap(),
        vec![1]
    );
    assert!(matches!(
        deserialize_single_field::<u8>(&Intermediate::Array(vec![unsigned(1), unsigned(2)])),
        Err(Error::InvalidValue(m)) if m == "unsigned integer"
    ));
    assert!(matches!(
        deserialize_single_field::<u8>(&Intermediate::Array(vec![unsigned(300)])),
        Err(Error::InvalidValue(m)) if m == "unsigned integer"
    ));
    assert!(matches!(deserialize_single_field::<u8>(&unsigned(300)), Err(Error::OutOfBounds)));
}

#[test]
fn the_one_unnamed_field_is_updated_with_the_value_or_the_first_of_an_array() {
    let mut field = 0u8;
    update_single_field(&mut field, &unsigned(1)).unwrap();
    assert_eq!(field, 1);
    update_single_field(&mut field, &Intermediate::Array(vec![unsigned(2), unsigned(3)])).unwrap();
    assert_eq!(field, 2);
    assert!(matches!(
        update_single_field(&mut field, &Intermediate::Array(vec![])),
        Err(Error::InvalidValue(m)) if m == "array of length 1"
    ));
    assert!(matches!(
        update_single_field(&mut field, &Intermediate::Array(vec![unsigned(300)])),
        Err(Error::OutOfBounds)
    ));
    assert!(matches!(update_single_field(&mut field, &unsigned(300)), Err(Error::OutOfBounds)));
    assert_eq!(field, 2);
}

fn twice(val: &Intermediate) -> Result<u32, Error> {
    u32::deserialize(val).map(|v| v * 2)
}

fn add(field: &mut u32, val: &Intermediate) -> Result<(), Error> {
    *field += u32::deserialize(val)?;
    Ok(())
}

fn whole(val: &Intermediate) -> Result<usize, Error> {
    val.as_map().map(|m| m.len()).ok_or(Error::MissingField)
}

#[test]
fn a_field_is_read_with_a_function_of_the_callers() {
    let input = object(vec![("a", unsigned(5)), ("b", Intermediate::from("x"))]);
    let mut fields = NamedFields::new(&input).unwrap();
    assert_eq!(fields.required_with("a", twice), Some(10));
    assert_eq!(fields.required_with("b", twice), None);
    assert_eq!(fields.required_with("c", twice), None);
    assert_eq!(fields.or_default_with("a", twice), 10);
    assert_eq!(fields.or_default_with("b", twice), 0);
    assert_eq!(fields.or_default_with("c", twice), 0);
    assert_eq!(fields.flattened_with(whole).unwrap(), Some(2));
    let errors = named(fields.finish().unwrap_err());
    assert_eq!(errors.len(), 2);
    assert_eq!(errors[0].0, "b");
    assert!(matches!(&errors[0].1, Error::InvalidValue(m) if m == "unsigned integer"));
    assert_eq!(errors[1].0, "c");
    assert!(matches!(errors[1].1, Error::MissingField));
}

#[test]
fn a_field_is_updated_with_a_function_of_the_callers() {
    let input = object(vec![("a", unsigned(5)), ("b", Intermediate::from("x"))]);
    let (mut a, mut b, mut c) = (1u32, 2u32, 3u32);
    let mut fields = NamedFields::new(&input).unwrap();
    fields.update_with("a", &mut a, add);
    fields.update_with("b", &mut b, add);
    fields.update_with("c", &mut c, add);
    let mut count = 0usize;
    fields
        .update_flattened_with(&mut count, |field: &mut usize, val: &Intermediate| {
            *field = whole(val)?;
            Ok(())
        })
        .unwrap();
    assert!(matches!(
        fields.update_flattened_with(&mut count, |_: &mut usize, _: &Intermediate| {
            Err(Error::OutOfBounds)
        }),
        Err(Error::OutOfBounds)
    ));
    let errors = named(fields.finish().unwrap_err());
    assert_eq!((a, b, c, count), (6, 2, 3, 2));
    assert_eq!(errors.len(), 1);
    assert_eq!(errors[0].0, "b");
}
