use std::collections::HashMap;
use std::rc::Rc;
use std::sync::Arc;

use serde_lite::{Deserialize, Error, Intermediate, Number, Object, Serialize, Update};

fn unsigned(n: u64) -> Intermediate {
    Intermediate::Number(Number::UnsignedInt(n))
}

fn signed(n: i64) -> Intermediate {
    Intermediate::Number(Number::SignedInt(n))
}

fn text(s: &str) -> Intermediate {
    Intermediate::String(String::from(s))
}

fn round_trip<T: Serialize + Deserialize + PartialEq + std::fmt::Debug>(v: T) {
    let value = v.serialize().unwrap();
    assert_eq!(T::deserialize(&value).unwrap(), v);
}

#[test]
fn primitives_are_serialized_to_their_variant() {
    assert_eq!(true.serialize().unwrap(), Intermediate::Bool(true));
    assert_eq!((-5i8).serialize().unwrap(), signed(-5));
    assert_eq!(i64::MIN.serialize().unwrap(), signed(i64::MIN));
    assert_eq!(5u16.serialize().unwrap(), unsigned(5));
    assert_eq!(u64::MAX.serialize().unwrap(), unsigned(u64::MAX));
    assert_eq!(7usize.serialize().unwrap(), unsigned(7));
    assert_eq!((-7isize).serialize().unwrap(), signed(-7));
    assert_eq!('x'.serialize().unwrap(), text("x"));
    assert_eq!(String::from("hello").serialize().unwrap(), text("hello"));
    assert_eq!("hello".serialize().unwrap(), text("hello"));
    assert_eq!(().serialize().unwrap(), Intermediate::Array(vec![]));
}

#[test]
fn wide_integers_out_of_range_are_not_serialized() {
    assert_eq!((i64::MAX as i128).serialize().unwrap(), signed(i64::MAX));
    assert!(matches!((i64::MAX as i128 + 1).serialize(), Err(Error::OutOfBounds)));
    assert!(matches!((i64::MIN as i128 - 1).serialize(), Err(Error::OutOfBounds)));
    assert_eq!((u64::MAX as u128).serialize().unwrap(), unsigned(u64::MAX));
    assert!(matches!((u64::MAX as u128 + 1).serialize(), Err(Error::OutOfBounds)));
}

#[test]
fn round_trip_of_plain_values() {
    round_trip(true);
    round_trip(-128i8);
    round_trip(i16::MAX);
    round_trip(i32::MIN);
    round_trip(i64::MAX);
    round_trip(-1isize);
    round_trip(-12345i128);
    round_trip(u8::MAX);
    round_trip(u16::MAX);
    round_trip(u32::MAX);
    round_trip(u64::MAX);
    round_trip(usize::MAX);
    round_trip(12345u128);
    round_trip('ß');
    round_trip(String::from("hello"));
    round_trip(());
}

#[test]
fn round_trip_of_containers() {
    round_trip(Some(5u8));
    round_trip(None::<u8>);
    round_trip(vec![1u32, 2, 3]);
    round_trip(Vec::<u32>::new());
    round_trip(vec![vec![String::from("a")], vec![]]);
    round_trip([1u8, 2, 3]);
    round_trip([0u8; 0]);
    round_trip((1u8,));
    round_trip((1u8, String::from("x"), false));
    round_trip((1u8, 2u16, 3u32, 4u64, 5i8, 6i16, 7i32, 8i64, 'a', true, 11u8, 12u8));
    round_trip(Box::new(5u8));
    round_trip(Rc::new(String::from("x")));
    round_trip(Arc::new(vec![1u8]));
    round_trip(Intermediate::Array(vec![unsigned(1), text("x")]));
    let mut map = HashMap::new();
    map.insert(1u64, String::from("one"));
    map.insert(20u64, String::from("twenty"));
    round_trip(map);
}

#[test]
fn an_optional_value_that_is_serialized_like_none_comes_back_as_none() {
    let value = Some(None::<u8>).serialize().unwrap();
    assert_eq!(value, Intermediate::Null);
    assert_eq!(Option::<Option<u8>>::deserialize(&value).unwrap(), None);
}

#[test]
fn references_and_pointers_pass_through() {
    let v = 5u8;
    assert_eq!((&v).serialize().unwrap(), unsigned(5));
    assert_eq!((&&v).serialize().unwrap(), unsigned(5));
    let mut w = 6u8;
    assert_eq!((&mut w).serialize().unwrap(), unsigned(6));
    assert_eq!(Box::new(v).serialize().unwrap(), unsigned(5));
    assert_eq!(Rc::new(v).serialize().unwrap(), unsigned(5));
    assert_eq!(Arc::new(v).serialize().unwrap(), unsigned(5));
    let items = [1u8, 2];
    assert_eq!((&items[..]).serialize().unwrap(), Intermediate::Array(vec![unsigned(1), unsigned(2)]));
    let mut boxed = Box::new(1u8);
    boxed.update(&unsigned(9)).unwrap();
    assert_eq!(*boxed, 9);
}

#[test]
fn a_sequence_gathers_the_errors_of_all_its_items() {
    let items: Vec<u128> = vec![1, u128::MAX, 3, u128::MAX];
    match items.serialize() {
        Err(Error::UnnamedFieldErrors(errors)) => {
            assert_eq!(errors.len(), 2);
            let places: Vec<usize> = errors.iter().map(|e| e.field_index()).collect();
            assert_eq!(places, vec![1, 3]);
            assert!(errors.iter().all(|e| matches!(e.error(), Error::OutOfBounds)));
        }
        other => panic!("unexpected {:?}", other),
    }
}

#[test]
fn a_tuple_stops_at_its_first_error() {
    assert!(matches!((1u8, u128::MAX, u128::MAX).serialize(), Err(Error::OutOfBounds)));
    let value = Intermediate::Array(vec![unsigned(1), text("x"), text("y")]);
    assert!(matches!(
        <(u8, u8, bool)>::deserialize(&value),
        Err(Error::InvalidValue(m)) if m == "unsigned integer"
    ));
}

#[test]
fn integers_are_checked_on_the_way_in() {
    assert_eq!(u8::deserialize(&unsigned(255)).unwrap(), 255);
    assert_eq!(u8::deserialize(&signed(255)).unwrap(), 255);
    assert!(matches!(u8::deserialize(&unsigned(256)), Err(Error::OutOfBounds)));
    assert!(matches!(u8::deserialize(&signed(-1)), Err(Error::OutOfBounds)));
    assert_eq!(i8::deserialize(&signed(-128)).unwrap(), -128);
    assert!(matches!(i8::deserialize(&signed(-129)), Err(Error::OutOfBounds)));
    assert!(matches!(i64::deserialize(&unsigned(u64::MAX)), Err(Error::OutOfBounds)));
    assert!(matches!(i128::deserialize(&unsigned(u64::MAX)), Err(Error::OutOfBounds)));
    assert_eq!(u128::deserialize(&unsigned(u64::MAX)).unwrap(), u64::MAX as u128);
    assert!(matches!(
        i64::deserialize(&Intermediate::Number(Number::Float(0))),
        Err(Error::UnsupportedConversion)
    ));
    assert!(matches!(u8::deserialize(&text("x")), Err(Error::InvalidValue(m)) if m == "unsigned integer"));
    assert!(matches!(i8::deserialize(&text("x")), Err(Error::InvalidValue(m)) if m == "integer"));
}

#[test]
fn other_primitives_want_their_variant() {
    assert!(matches!(bool::deserialize(&unsigned(1)), Err(Error::InvalidValue(m)) if m == "bool"));
    assert!(matches!(char::deserialize(&text("ab")), Err(Error::InvalidValue(m)) if m == "character"));
    assert!(matches!(String::deserialize(&unsigned(1)), Err(Error::InvalidValue(m)) if m == "string"));
    assert!(matches!(
        Vec::<u8>::deserialize(&unsigned(1)),
        Err(Error::InvalidValue(m)) if m == "array"
    ));
    assert_eq!(<()>::deserialize(&text("anything")).unwrap(), ());
    assert_eq!(Option::<u8>::deserialize(&Intermediate::Null).unwrap(), None);
    assert_eq!(Option::<u8>::deserialize(&unsigned(1)).unwrap(), Some(1));
    assert!(Option::<u8>::deserialize(&text("x")).is_err());
}

#[test]
fn fixed_arrays_and_tuples_ignore_what_is_past_their_length() {
    let value = Intermediate::Array(vec![unsigned(1), unsigned(2), unsigned(3), text("rest")]);
    assert_eq!(<[u8; 3]>::deserialize(&value).unwrap(), [1, 2, 3]);
    assert_eq!(<(u8, u8)>::deserialize(&value).unwrap(), (1, 2));
    assert_eq!(<[u8; 0]>::deserialize(&Intermediate::Null).unwrap(), [0u8; 0]);
    let short = Intermediate::Array(vec![unsigned(1)]);
    assert!(matches!(
        <[u8; 3]>::deserialize(&short),
        Err(Error::InvalidValue(m)) if m == "an array of length 3"
    ));
    assert!(matches!(
        <(u8, u8)>::deserialize(&Intermediate::Null),
        Err(Error::InvalidValue(m)) if m == "an array of length 2"
    ));
    assert!(matches!(
        <[u8; 12]>::deserialize(&short),
        Err(Error::InvalidValue(m)) if m == "an array of length 12"
    ));
}

#[test]
fn scalars_are_replaced_by_an_update() {
    let mut v = 5u8;
    v.update(&unsigned(6)).unwrap();
    assert_eq!(v, 6);
    assert!(v.update(&unsigned(256)).is_err());
    assert_eq!(v, 6);
    let mut s = String::from("a");
    s.update(&text("b")).unwrap();
    assert_eq!(s, "b");
}

#[test]
fn an_optional_value_is_cleared_made_or_merged() {
    let mut v: Option<Vec<u8>> = Some(vec![1, 2, 3]);
    v.update(&Intermediate::Array(vec![unsigned(9)])).unwrap();
    assert_eq!(v, Some(vec![9]));
    v.update(&Intermediate::Null).unwrap();
    assert_eq!(v, None);
    v.update(&Intermediate::Array(vec![unsigned(4), unsigned(5)])).unwrap();
    assert_eq!(v, Some(vec![4, 5]));
    assert!(v.update(&text("x")).is_err());
    assert_eq!(v, Some(vec![4, 5]));
}

#[test]
fn sequence_update_truncates_and_extends() {
    let mut v: Vec<Vec<u32>> = vec![vec![1, 1], vec![2, 2], vec![3, 3], vec![4], vec![5]];
    let three = Intermediate::Array(vec![
        Intermediate::Array(vec![unsigned(10)]),
        Intermediate::Array(vec![unsigned(20), unsigned(21), unsigned(22)]),
        Intermediate::Array(vec![]),
    ]);
    v.update(&three).unwrap();
    assert_eq!(v, vec![vec![10], vec![20, 21, 22], vec![]]);
    let seven = Intermediate::Array(
        (0..7).map(|n| Intermediate::Array(vec![unsigned(100 + n)])).collect(),
    );
    v.update(&seven).unwrap();
    assert_eq!(v.len(), 7);
    assert_eq!(v, (0..7).map(|n| vec![100 + n]).collect::<Vec<Vec<u32>>>());
}

#[test]
fn sequence_update_stops_at_the_first_error() {
    let mut v: Vec<u8> = vec![1, 2, 3, 4];
    let value = Intermediate::Array(vec![unsigned(9), text("x"), unsigned(7)]);
    assert!(matches!(v.update(&value), Err(Error::InvalidValue(m)) if m == "unsigned integer"));
    assert_eq!(v, vec![9, 2, 3]);
    assert!(matches!(v.update(&unsigned(1)), Err(Error::InvalidValue(m)) if m == "array"));
    assert_eq!(v, vec![9, 2, 3]);
}

#[test]
fn fixed_arrays_and_tuples_update_every_place() {
    let mut a = [1u8, 2, 3];
    a.update(&Intermediate::Array(vec![unsigned(4), unsigned(5), unsigned(6), unsigned(7)])).unwrap();
    assert_eq!(a, [4, 5, 6]);
    assert!(matches!(
        a.update(&Intermediate::Array(vec![unsigned(4)])),
        Err(Error::InvalidValue(m)) if m == "an array of length 3"
    ));
    assert_eq!(a, [4, 5, 6]);
    let mut t = (1u8, String::from("a"));
    t.update(&Intermediate::Array(vec![unsigned(2), text("b")])).unwrap();
    assert_eq!(t, (2, String::from("b")));
    assert!(t.update(&Intermediate::Array(vec![unsigned(3), unsigned(3)])).is_err());
    assert_eq!(t, (3, String::from("b")));
    let mut unit = ();
    unit.update(&Intermediate::Null).unwrap();
}

#[test]
fn a_map_is_serialized_under_its_keys_in_decimal() {
    let mut map = HashMap::new();
    map.insert(7u64, true);
    map.insert(1234567890123u64, false);
    let value = map.serialize().unwrap();
    let object = value.as_map().unwrap();
    assert_eq!(object.len(), 2);
    assert_eq!(object.get("7"), Some(&Intermediate::Bool(true)));
    assert_eq!(object.get("1234567890123"), Some(&Intermediate::Bool(false)));
    let mut failing = HashMap::new();
    failing.insert(1u64, u128::MAX);
    assert!(matches!(failing.serialize(), Err(Error::OutOfBounds)));
}

#[test]
fn a_map_wants_keys_that_are_numbers() {
    let mut object = Object::new();
    object.insert_with_static_key("1", unsigned(10));
    object.insert_with_static_key("x", unsigned(20));
    let value = Intermediate::Object(object);
    assert!(matches!(
        HashMap::<u64, u8>::deserialize(&value),
        Err(Error::InvalidKey(key)) if key == "x"
    ));
    for key in ["+1", "01", "", "-1", "18446744073709551616", "1 "] {
        let mut object = Object::new();
        object.insert_with_owned_key(String::from(key), unsigned(10));
        assert!(matches!(
            HashMap::<u64, u8>::deserialize(&Intermediate::Object(object)),
            Err(Error::InvalidKey(k)) if k == key
        ));
    }
    let mut object = Object::new();
    object.insert_with_static_key("18446744073709551615", unsigned(1));
    object.insert_with_static_key("0", unsigned(2));
    let map = HashMap::<u64, u8>::deserialize(&Intermediate::Object(object)).unwrap();
    assert_eq!(map.len(), 2);
    assert_eq!(map[&u64::MAX], 1);
    assert_eq!(map[&0], 2);
    assert!(matches!(
        HashMap::<u64, u8>::deserialize(&unsigned(1)),
        Err(Error::InvalidValue(m)) if m == "map"
    ));
}

#[test]
fn map_update_merges_by_key_and_deletes_nothing() {
    let mut map: HashMap<u64, Vec<u8>> = HashMap::new();
    map.insert(1, vec![1, 1]);
    map.insert(2, vec![2, 2]);
    map.insert(3, vec![3, 3]);
    let mut object = Object::new();
    object.insert_with_static_key("2", Intermediate::Array(vec![unsigned(9)]));
    object.insert_with_static_key("4", Intermediate::Array(vec![unsigned(4)]));
    map.update(&Intermediate::Object(object)).unwrap();
    assert_eq!(map.len(), 4);
    assert_eq!(map[&1], vec![1, 1]);
    assert_eq!(map[&2], vec![9]);
    assert_eq!(map[&3], vec![3, 3]);
    assert_eq!(map[&4], vec![4]);
}

#[test]
fn map_update_stops_at_the_first_error_and_keeps_the_rest() {
    let mut map: HashMap<u64, u8> = HashMap::new();
    map.insert(1, 1);
    map.insert(2, 2);
    let mut object = Object::new();
    object.insert_with_static_key("1", unsigned(10));
    object.insert_with_static_key("2", text("x"));
    object.insert_with_static_key("3", unsigned(30));
    assert!(matches!(
        map.update(&Intermediate::Object(object)),
        Err(Error::InvalidValue(m)) if m == "unsigned integer"
    ));
    assert_eq!(map.len(), 2);
    assert_eq!(map[&1], 10);
    assert_eq!(map[&2], 2);
    let mut object = Object::new();
    object.insert_with_static_key("zero", unsigned(0));
    assert!(matches!(
        map.update(&Intermediate::Object(object)),
        Err(Error::InvalidKey(key)) if key == "zero"
    ));
    assert!(matches!(map.update(&unsigned(1)), Err(Error::InvalidValue(m)) if m == "map"));
}

#[test]
fn an_intermediate_value_is_its_own_serialization() {
    let value = Intermediate::Array(vec![unsigned(1), text("x")]);
    assert_eq!(value.serialize().unwrap(), value);
    assert_eq!(Intermediate::deserialize(&value).unwrap(), value);
}
