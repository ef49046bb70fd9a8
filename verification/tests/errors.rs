use serde_lite::{Error, ErrorList, NamedFieldError, UnnamedFieldError};

#[test]
fn error_list_keeps_insertion_order() {
    let mut list = ErrorList::new();
    assert!(list.is_empty());
    list.push(NamedFieldError::new("a", Error::MissingField));
    list.push(NamedFieldError::new_static("b", Error::OutOfBounds));
    assert_eq!(list.len(), 2);
    assert!(!list.is_empty());
    let names: Vec<&str> = list.iter().map(|e| e.field()).collect();
    assert_eq!(names, vec!["a", "b"]);
    assert!(matches!(list.get(1).unwrap().error(), Error::OutOfBounds));
    assert!(list.get(2).is_none());
}

#[test]
fn error_list_append_puts_the_other_list_last() {
    let mut first = ErrorList::new();
    first.push(UnnamedFieldError::new(0, Error::MissingField));
    let mut second = ErrorList::new();
    second.push(UnnamedFieldError::new(4, Error::OutOfBounds));
    second.push(UnnamedFieldError::new(2, Error::UnknownEnumVariant));
    first.append(second);
    let places: Vec<usize> = first.iter().map(|e| e.field_index()).collect();
    assert_eq!(places, vec![0, 4, 2]);
    assert_eq!(first.clone().into_vec().len(), 3);
    assert!(ErrorList::<NamedFieldError>::default().is_empty());
}

#[test]
fn field_errors_give_their_parts() {
    let named = NamedFieldError::new("field", Error::custom("why"));
    assert_eq!(named.field(), "field");
    assert!(matches!(named.error(), Error::Custom(m) if m == "why"));
    assert!(matches!(named.clone().into_error(), Error::Custom(m) if m == "why"));
    let unnamed = UnnamedFieldError::new(4, Error::invalid_value("shape"));
    assert_eq!(unnamed.field_index(), 4);
    assert!(matches!(unnamed.error(), Error::InvalidValue(m) if m == "shape"));
    assert!(matches!(unnamed.into_error(), Error::InvalidValue(m) if m == "shape"));
}

#[test]
fn constructors_keep_the_message() {
    assert!(matches!(Error::invalid_value("a"), Error::InvalidValue(m) if m == "a"));
    assert!(matches!(Error::invalid_value_static("b"), Error::InvalidValue(m) if m == "b"));
    assert!(matches!(Error::custom("c"), Error::Custom(m) if m == "c"));
    assert!(matches!(Error::custom_static("d"), Error::Custom(m) if m == "d"));
}

#[test]
fn errors_are_made_from_field_errors() {
    match Error::from(NamedFieldError::new("a", Error::MissingField)) {
        Error::NamedFieldErrors(list) => {
            assert_eq!(list.len(), 1);
            assert_eq!(list.get(0).unwrap().field(), "a");
        }
        other => panic!("unexpected {:?}", other),
    }
    match Error::from(UnnamedFieldError::new(3, Error::MissingField)) {
        Error::UnnamedFieldErrors(list) => {
            assert_eq!(list.len(), 1);
            assert_eq!(list.get(0).unwrap().field_index(), 3);
        }
        other => panic!("unexpected {:?}", other),
    }
    let mut list = ErrorList::new();
    list.push(NamedFieldError::new("x", Error::MissingField));
    list.push(NamedFieldError::new("y", Error::MissingField));
    assert!(matches!(Error::from(list), Error::NamedFieldErrors(l) if l.len() == 2));
    let list: ErrorList<UnnamedFieldError> = ErrorList::new();
    assert!(matches!(Error::from(list), Error::UnnamedFieldErrors(l) if l.is_empty()));
}

#[test]
fn errors_are_written_in_words() {
    assert_eq!(Error::OutOfBounds.to_string(), "value is out of bounds");
    assert_eq!(Error::UnsupportedConversion.to_string(), "conversion not supported");
    assert_eq!(Error::MissingField.to_string(), "missing field");
    assert_eq!(Error::UnknownEnumVariant.to_string(), "unknown enum variant");
    assert_eq!(Error::MissingEnumVariantContent.to_string(), "missing enum variant content");
    assert_eq!(Error::invalid_value("bool").to_string(), "invalid value (bool expected)");
    assert_eq!(Error::InvalidKey(String::from("x")).to_string(), "invalid key (x)");
    assert_eq!(Error::custom("anything").to_string(), "anything");
}

#[test]
fn field_errors_are_written_with_commas_between() {
    let mut inner = ErrorList::new();
    inner.push(UnnamedFieldError::new(0, Error::OutOfBounds));
    inner.push(UnnamedFieldError::new(12, Error::MissingField));
    let mut outer = ErrorList::new();
    outer.push(NamedFieldError::new("a", Error::MissingField));
    outer.push(NamedFieldError::new("b", Error::UnnamedFieldErrors(inner)));
    outer.push(NamedFieldError::new("c", Error::invalid_value("string")));
    let error = Error::NamedFieldErrors(outer);
    assert_eq!(
        error.to_string(),
        "field errors (a: missing field, b: field errors (0: value is out of bounds, \
         12: missing field), c: invalid value (string expected))"
    );
    assert_eq!(error.clone().to_string(), error.to_string());
    assert_eq!(Error::NamedFieldErrors(ErrorList::new()).to_string(), "field errors ()");
    assert_eq!(NamedFieldError::new("f", Error::MissingField).to_string(), "f: missing field");
    assert_eq!(UnnamedFieldError::new(7, Error::MissingField).to_string(), "7: missing field");
}
