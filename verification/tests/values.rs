use serde_lite::intermediate::merge_into;
use serde_lite::{Deserialize, Error, Intermediate, Number, Object, Serialize, Update};

fn unsigned(n: u64) -> Intermediate {
    Intermediate::Number(Number::UnsignedInt(n))
}

fn object(entries: Vec<(&'static str, Intermediate)>) -> Object {
    let mut map = Object::new();
    for (key, value) in entries {
        map.insert_with_static_key(key, value);
    }
    map
}

#[test]
fn accessors_give_the_value_of_their_variant_only() {
    let values = vec![
        Intermediate::Null,
        Intermediate::Bool(true),
        unsigned(7),
        Intermediate::from("x"),
        Intermediate::Array(vec![unsigned(1)]),
        Intermediate::Object(Object::new()),
    ];
    let is_none: Vec<bool> = values.iter().map(|v| v.is_none()).collect();
    assert_eq!(is_none, vec![true, false, false, false, false, false]);
    let bools: Vec<Option<bool>> = values.iter().map(|v| v.as_bool()).collect();
    assert_eq!(bools, vec![None, Some(true), None, None, None, None]);
    let numbers: Vec<Option<Number>> = values.iter().map(|v| v.as_number()).collect();
    assert_eq!(numbers, vec![None, None, Some(Number::UnsignedInt(7)), None, None, None]);
    let strings: Vec<Option<&str>> = values.iter().map(|v| v.as_str()).collect();
    assert_eq!(strings, vec![None, None, None, Some("x"), None, None]);
    let arrays: Vec<bool> = values.iter().map(|v| v.as_array().is_some()).collect();
    assert_eq!(arrays, vec![false, false, false, false, true, false]);
    let maps: Vec<bool> = values.iter().map(|v| v.as_map().is_some()).collect();
    assert_eq!(maps, vec![false, false, false, false, false, true]);
}

#[test]
fn as_char_wants_exactly_one_character() {
    assert_eq!(Intermediate::from("a").as_char(), Some('a'));
    assert_eq!(Intermediate::from("é").as_char(), Some('é'));
    assert_eq!(Intermediate::from("").as_char(), None);
    assert_eq!(Intermediate::from("ab").as_char(), None);
    assert_eq!(unsigned(1).as_char(), None);
}

#[test]
fn object_keeps_each_key_once_in_insertion_order() {
    let mut map = Object::with_capacity(4);
    assert!(map.is_empty());
    assert_eq!(map.insert(String::from("b"), unsigned(1)), None);
    assert_eq!(map.insert(String::from("a"), unsigned(2)), None);
    assert_eq!(map.insert(String::from("b"), unsigned(3)), Some(unsigned(1)));
    assert_eq!(map.len(), 2);
    assert_eq!(map.get("b"), Some(&unsigned(3)));
    assert_eq!(map.get("a"), Some(&unsigned(2)));
    assert_eq!(map.get("c"), None);
    let (key, value) = map.get_index(0).unwrap();
    assert_eq!((key.as_str(), value), ("b", &unsigned(3)));
    let (key, value) = map.get_index(1).unwrap();
    assert_eq!((key.as_str(), value), ("a", &unsigned(2)));
    assert!(map.get_index(2).is_none());
}

#[test]
fn object_value_is_changed_in_place() {
    let mut map = object(vec![("x", unsigned(1)), ("y", unsigned(2))]);
    *map.get_mut("x").unwrap() = Intermediate::Bool(false);
    assert!(map.get_mut("z").is_none());
    assert_eq!(map.get("x"), Some(&Intermediate::Bool(false)));
    assert_eq!(map.get("y"), Some(&unsigned(2)));
    assert_eq!(map.get_index(0).unwrap().0, "x");
}

#[test]
fn equality_is_by_the_tree_and_the_order_of_entries() {
    let a = Intermediate::Object(object(vec![("x", unsigned(1)), ("y", Intermediate::from("s"))]));
    let b = Intermediate::Object(object(vec![("x", unsigned(1)), ("y", Intermediate::from("s"))]));
    let c = Intermediate::Object(object(vec![("y", Intermediate::from("s")), ("x", unsigned(1))]));
    assert_eq!(a, b);
    assert_ne!(a, c);
    assert_eq!(a.clone(), a);
    assert_ne!(unsigned(1), Intermediate::Number(Number::SignedInt(1)));
    assert_ne!(
        Intermediate::Array(vec![unsigned(1)]),
        Intermediate::Array(vec![unsigned(1), unsigned(1)])
    );
}

#[test]
fn merge_replaces_scalars_and_merges_arrays_by_place() {
    let mut cur = Intermediate::Array(vec![
        Intermediate::Array(vec![unsigned(1), unsigned(2)]),
        unsigned(3),
        unsigned(4),
    ]);
    let new =
        Intermediate::Array(vec![Intermediate::Array(vec![unsigned(9)]), Intermediate::from("s")]);
    merge_into(&mut cur, &new);
    assert_eq!(
        cur,
        Intermediate::Array(vec![Intermediate::Array(vec![unsigned(9)]), Intermediate::from("s")])
    );
    let mut cur = unsigned(1);
    merge_into(&mut cur, &Intermediate::Null);
    assert_eq!(cur, Intermediate::Null);
}

#[test]
fn merge_of_objects_keeps_untouched_keys() {
    let inner = object(vec![("a", unsigned(1)), ("b", unsigned(2))]);
    let mut cur = Intermediate::Object(object(vec![
        ("x", unsigned(1)),
        ("y", Intermediate::Object(inner)),
    ]));
    let patch = object(vec![("b", unsigned(20)), ("c", unsigned(30))]);
    let new = Intermediate::Object(object(vec![
        ("y", Intermediate::Object(patch)),
        ("z", unsigned(4)),
    ]));
    cur.update(&new).unwrap();
    let expected_inner = object(vec![("a", unsigned(1)), ("b", unsigned(20)), ("c", unsigned(30))]);
    let expected = Intermediate::Object(object(vec![
        ("x", unsigned(1)),
        ("y", Intermediate::Object(expected_inner)),
        ("z", unsigned(4)),
    ]));
    assert_eq!(cur, expected);
}

#[test]
fn object_takes_part_in_the_protocols() {
    let map = object(vec![("x", unsigned(1))]);
    let value = map.serialize().unwrap();
    assert_eq!(value, Intermediate::Object(map.clone()));
    assert_eq!(Object::deserialize(&value).unwrap(), map);
    assert!(matches!(
        Object::deserialize(&Intermediate::Null),
        Err(Error::InvalidValue(m)) if m == "map"
    ));
    let mut cur = object(vec![("y", unsigned(2))]);
    cur.update(&value).unwrap();
    assert_eq!(cur, object(vec![("y", unsigned(2)), ("x", unsigned(1))]));
    assert!(cur.update(&unsigned(1)).is_err());
}

#[test]
fn values_are_made_from_plain_values() {
    assert_eq!(Intermediate::from(()), Intermediate::Null);
    assert_eq!(Intermediate::from(true), Intermediate::Bool(true));
    assert_eq!(Intermediate::from(-3i8), Intermediate::Number(Number::SignedInt(-3)));
    assert_eq!(Intermediate::from(-3i64), Intermediate::Number(Number::SignedInt(-3)));
    assert_eq!(Intermediate::from(3u16), unsigned(3));
    assert_eq!(Intermediate::from(u64::MAX), unsigned(u64::MAX));
    assert_eq!(Intermediate::from(String::from("s")), Intermediate::String(String::from("s")));
    assert_eq!(Intermediate::from(Number::Float(1)), Intermediate::Number(Number::Float(1)));
    assert_eq!(Intermediate::from(vec![unsigned(1)]), Intermediate::Array(vec![unsigned(1)]));
    assert!(Intermediate::from(Object::default()).as_map().unwrap().is_empty());
}

#[test]
fn numbers_convert_to_integers_within_their_range() {
    assert_eq!(u8::try_from(Number::UnsignedInt(255)).unwrap(), 255);
    assert!(matches!(u8::try_from(Number::UnsignedInt(256)), Err(Error::OutOfBounds)));
    assert!(matches!(u8::try_from(Number::SignedInt(-1)), Err(Error::OutOfBounds)));
    assert_eq!(i8::try_from(Number::SignedInt(-128)).unwrap(), -128);
    assert_eq!(i64::try_from(Number::UnsignedInt(5)).unwrap(), 5);
    assert!(matches!(i64::try_from(Number::UnsignedInt(u64::MAX)), Err(Error::OutOfBounds)));
    assert_eq!(u64::try_from(Number::SignedInt(5)).unwrap(), 5);
    assert!(matches!(u64::try_from(Number::SignedInt(-5)), Err(Error::OutOfBounds)));
    assert!(matches!(i32::try_from(Number::Float(0)), Err(Error::UnsupportedConversion)));
    assert_eq!(usize::try_from(Number::UnsignedInt(9)).unwrap(), 9);
    assert_eq!(Number::SignedInt(7).to_integer(0, 10).unwrap(), 7);
}
