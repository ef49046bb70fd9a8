use serde_lite::enums::{select_variant, serialize_enum, Tagging, VariantTag};
use serde_lite::structs::{
    deserialize_single_field, serialize_named_fields, serialize_unnamed_fields,
    update_single_field, NamedFields, NamedOutput, UnnamedFields,
};
use serde_lite::{Deserialize, Error, Intermediate, Number, Object, Serialize, Update};

fn object(entries: Vec<(&'static str, Intermediate)>) -> Intermediate {
    let mut map = Object::new();
    for (key, value) in entries {
        map.insert_with_static_key(key, value);
    }
    Intermediate::Object(map)
}

fn array(items: Vec<Intermediate>) -> Intermediate {
    Intermediate::Array(items)
}

fn external() -> Tagging {
    Tagging::External
}

// ---- structs with named fields --------------------------------------------

struct FlatOuter {
    inner: FlatInner,
}

struct FlatInner {
    number: u32,
    greetings: String,
    foo: Option<String>,
}

impl Deserialize for FlatOuter {
    fn deserialize(val: &Intermediate) -> Result<Self, Error> {
        let mut fields = NamedFields::new(val)?;
        let inner = fields.flattened::<FlatInner>()?;
        fields.finish()?;
        Ok(Self { inner: inner.unwrap() })
    }
}

impl Deserialize for FlatInner {
    fn deserialize(val: &Intermediate) -> Result<Self, Error> {
        let mut fields = NamedFields::new(val)?;
        let number = fields.required::<u32>("number");
        let greetings = fields.required::<String>("hello");
        let foo = fields.or_default::<Option<String>>("foo");
        fields.finish()?;
        Ok(Self { number: number.unwrap(), greetings: greetings.unwrap(), foo })
    }
}

#[test]
fn test_struct_deserialize() {
    let input = object(vec![
        ("number", Intermediate::from(33)),
        ("hello", Intermediate::from("hello")),
    ]);

    let output = FlatOuter::deserialize(&input).unwrap();

    assert_eq!(output.inner.number, 33);
    assert_eq!(output.inner.greetings.as_str(), "hello");
    assert!(output.inner.foo.is_none());

    assert!(FlatOuter::deserialize(&Intermediate::Null).is_err());
}

struct YearOuter {
    inner: YearInner,
}

struct YearInner {
    number: u32,
    greetings: String,
    year: u32,
}

impl Deserialize for YearOuter {
    fn deserialize(val: &Intermediate) -> Result<Self, Error> {
        let mut fields = NamedFields::new(val)?;
        let inner = fields.flattened::<YearInner>()?;
        fields.finish()?;
        Ok(Self { inner: inner.unwrap() })
    }
}

impl Update for YearOuter {
    fn update(&mut self, val: &Intermediate) -> Result<(), Error> {
        let mut fields = NamedFields::new(val)?;
        fields.update_flattened(&mut self.inner)?;
        fields.finish()
    }
}

impl Deserialize for YearInner {
    fn deserialize(val: &Intermediate) -> Result<Self, Error> {
        let mut fields = NamedFields::new(val)?;
        let number = fields.required::<u32>("number");
        let greetings = fields.required::<String>("hello");
        let year = fields.required::<u32>("year");
        fields.finish()?;
        Ok(Self { number: number.unwrap(), greetings: greetings.unwrap(), year: year.unwrap() })
    }
}

impl Update for YearInner {
    fn update(&mut self, val: &Intermediate) -> Result<(), Error> {
        let mut fields = NamedFields::new(val)?;
        fields.update("number", &mut self.number);
        fields.update("hello", &mut self.greetings);
        fields.update("year", &mut self.year);
        fields.finish()
    }
}

#[test]
fn test_struct_update() {
    let input = object(vec![
        ("number", Intermediate::from(33)),
        ("hello", Intermediate::from("hi")),
    ]);

    let mut instance = YearOuter {
        inner: YearInner { number: 0, greetings: String::new(), year: 2021 },
    };

    instance.update(&input).unwrap();

    assert_eq!(instance.inner.number, 33);
    assert_eq!(instance.inner.greetings.as_str(), "hi");
    assert_eq!(instance.inner.year, 2021);

    assert!(instance.update(&Intermediate::Null).is_err());
}

// ---- structs with unnamed fields ------------------------------------------

struct SingleElementTuple(u32);

impl Deserialize for SingleElementTuple {
    fn deserialize(val: &Intermediate) -> Result<Self, Error> {
        Ok(Self(deserialize_single_field::<u32>(val)?))
    }
}

impl Update for SingleElementTuple {
    fn update(&mut self, val: &Intermediate) -> Result<(), Error> {
        update_single_field(&mut self.0, val)
    }
}

struct MultiElementStruct(u32, String);

impl Deserialize for MultiElementStruct {
    fn deserialize(val: &Intermediate) -> Result<Self, Error> {
        let mut fields = UnnamedFields::new(val, 2)?;
        let f0 = fields.field::<u32>(0);
        let f1 = fields.field::<String>(1);
        fields.finish()?;
        Ok(Self(f0.unwrap(), f1.unwrap()))
    }
}

impl Update for MultiElementStruct {
    fn update(&mut self, val: &Intermediate) -> Result<(), Error> {
        let mut fields = UnnamedFields::new(val, 2)?;
        fields.update(0, &mut self.0);
        fields.update(1, &mut self.1);
        fields.finish()
    }
}

#[test]
fn test_tuple_struct_deserialize() {
    let input1 = Intermediate::from(10);
    let input2 = array(vec![Intermediate::from(10)]);

    let output1 = SingleElementTuple::deserialize(&input1).unwrap();

    assert_eq!(output1.0, 10);

    // An array that wraps the one value is unwrapped.
    assert_eq!(SingleElementTuple::deserialize(&input2).unwrap().0, 10);

    let input = array(vec![Intermediate::from(32), Intermediate::from("hello")]);

    let output = MultiElementStruct::deserialize(&input).unwrap();

    assert_eq!(output.0, 32);
    assert_eq!(output.1.as_str(), "hello");

    assert!(MultiElementStruct::deserialize(&Intermediate::Array(vec![])).is_err());
}

#[test]
fn test_tuple_struct_update() {
    let input1 = Intermediate::from(10);
    let input2 = array(vec![Intermediate::from(20)]);

    let mut instance = SingleElementTuple(0);

    instance.update(&input1).unwrap();

    assert_eq!(instance.0, 10);

    instance.update(&input2).unwrap();

    assert_eq!(instance.0, 20);

    let input = array(vec![Intermediate::from(32), Intermediate::from("hello")]);

    let mut instance = MultiElementStruct(0, String::new());

    instance.update(&input).unwrap();

    assert_eq!(instance.0, 32);
    assert_eq!(instance.1.as_str(), "hello");

    assert!(instance.update(&Intermediate::Array(vec![])).is_err());
}

// ---- structs without fields -----------------------------------------------

struct UnitStruct;

struct EmptyStruct {}

struct EmptyTupleStruct();

impl Deserialize for UnitStruct {
    fn deserialize(_: &Intermediate) -> Result<Self, Error> {
        Ok(Self)
    }
}

impl Deserialize for EmptyStruct {
    fn deserialize(_: &Intermediate) -> Result<Self, Error> {
        Ok(Self {})
    }
}

impl Deserialize for EmptyTupleStruct {
    fn deserialize(_: &Intermediate) -> Result<Self, Error> {
        Ok(Self())
    }
}

impl Update for UnitStruct {
    fn update(&mut self, _: &Intermediate) -> Result<(), Error> {
        Ok(())
    }
}

impl Update for EmptyStruct {
    fn update(&mut self, _: &Intermediate) -> Result<(), Error> {
        Ok(())
    }
}

impl Update for EmptyTupleStruct {
    fn update(&mut self, _: &Intermediate) -> Result<(), Error> {
        Ok(())
    }
}

#[test]
fn test_empty_struct_deserialize() {
    assert!(UnitStruct::deserialize(&Intermediate::Null).is_ok());
    assert!(EmptyStruct::deserialize(&Intermediate::Null).is_ok());
    assert!(EmptyTupleStruct::deserialize(&Intermediate::Null).is_ok());
}

#[test]
fn test_empty_struct_update() {
    let mut unit = UnitStruct;
    let mut empty = EmptyStruct {};
    let mut empty_tuple = EmptyTupleStruct();

    assert!(unit.update(&Intermediate::Null).is_ok());
    assert!(empty.update(&Intermediate::Null).is_ok());
    assert!(empty_tuple.update(&Intermediate::Null).is_ok());
}

// ---- externally tagged enum -----------------------------------------------

enum TestEnum {
    Variant1,
    Variant2(u32),
    Variant3 { field1: u32, field2: String },
    Variant4(Vec<u32>),
}

const TEST_ENUM: [VariantTag<'static>; 4] = [
    VariantTag { name: "Variant1", needs_content: false },
    VariantTag { name: "variant2", needs_content: true },
    VariantTag { name: "Variant3", needs_content: true },
    VariantTag { name: "Variant4", needs_content: true },
];

impl TestEnum {
    fn current(&self) -> &'static str {
        match self {
            Self::Variant1 => "Variant1",
            Self::Variant2(..) => "variant2",
            Self::Variant3 { .. } => "Variant3",
            Self::Variant4(..) => "Variant4",
        }
    }
}

impl Deserialize for TestEnum {
    fn deserialize(val: &Intermediate) -> Result<Self, Error> {
        let selected = select_variant(&external(), &TEST_ENUM, val, None)?;
        match (selected.index, selected.content) {
            (0, _) => Ok(Self::Variant1),
            (1, Some(content)) => Ok(Self::Variant2(deserialize_single_field::<u32>(content)?)),
            (2, Some(content)) => {
                let mut fields = NamedFields::new(content)?;
                let field1 = fields.required::<u32>("field1");
                let field2 = fields.required::<String>("field2");
                fields.finish()?;
                Ok(Self::Variant3 { field1: field1.unwrap(), field2: field2.unwrap() })
            }
            (3, Some(content)) => {
                Ok(Self::Variant4(deserialize_single_field::<Vec<u32>>(content)?))
            }
            _ => Err(Error::MissingEnumVariantContent),
        }
    }
}

impl Update for TestEnum {
    fn update(&mut self, val: &Intermediate) -> Result<(), Error> {
        let selected = select_variant(&external(), &TEST_ENUM, val, Some(self.current()))?;
        match (selected.index, selected.content) {
            (0, _) => {
                *self = Self::Variant1;
                Ok(())
            }
            (1, Some(content)) => {
                if let Self::Variant2(f0) = self {
                    update_single_field(f0, content)
                } else {
                    *self = Self::deserialize(val)?;
                    Ok(())
                }
            }
            (2, Some(content)) => {
                if let Self::Variant3 { field1, field2 } = self {
                    let mut fields = NamedFields::new(content)?;
                    fields.update("field1", field1);
                    fields.update("field2", field2);
                    fields.finish()
                } else {
                    *self = Self::deserialize(val)?;
                    Ok(())
                }
            }
            (3, Some(content)) => {
                if let Self::Variant4(f0) = self {
                    update_single_field(f0, content)
                } else {
                    *self = Self::deserialize(val)?;
                    Ok(())
                }
            }
            _ => Err(Error::MissingEnumVariantContent),
        }
    }
}

#[test]
fn test_enum_deserialize() {
    let input1 = Intermediate::from("Variant1");

    let input2 = object(vec![("Variant1", Intermediate::Null)]);

    let input3 = object(vec![("variant2", Intermediate::from(20))]);

    let input4 = object(vec![("variant2", array(vec![Intermediate::from(20)]))]);

    let input5 = object(vec![(
        "Variant3",
        object(vec![("field1", Intermediate::from(10)), ("field2", Intermediate::from("hello"))]),
    )]);

    let input6 = Intermediate::from("foo");

    let input7 = Intermediate::Null;

    let input8 = object(vec![("Variant4", array(vec![]))]);

    let input9 = object(vec![("Variant4", array(vec![Intermediate::from(123)]))]);

    let output1 = TestEnum::deserialize(&input1).unwrap();
    let output2 = TestEnum::deserialize(&input2).unwrap();
    let output3 = TestEnum::deserialize(&input3).unwrap();
    let output5 = TestEnum::deserialize(&input5).unwrap();
    let output8 = TestEnum::deserialize(&input8).unwrap();
    let output9 = TestEnum::deserialize(&input9).unwrap();

    assert!(matches!(output1, TestEnum::Variant1));
    assert!(matches!(output2, TestEnum::Variant1));

    if let TestEnum::Variant2(n) = output3 {
        assert_eq!(n, 20);
    } else {
        panic!("output3 test failed");
    }

    if let TestEnum::Variant3 { field1, field2 } = output5 {
        assert_eq!(field1, 10);
        assert_eq!(field2.as_str(), "hello");
    } else {
        panic!("output4 test failed");
    }

    // An array that wraps the one value of the variant is unwrapped.
    assert!(matches!(TestEnum::deserialize(&input4), Ok(TestEnum::Variant2(20))));
    assert!(TestEnum::deserialize(&input6).is_err());
    assert!(TestEnum::deserialize(&input7).is_err());

    if let TestEnum::Variant4(arr) = output8 {
        assert_eq!(arr.as_slice(), &[][..]);
    } else {
        panic!("output8 test failed");
    }

    if let TestEnum::Variant4(arr) = output9 {
        assert_eq!(arr.as_slice(), &[123][..]);
    } else {
        panic!("output9 test failed");
    }
}

#[test]
fn test_enum_update() {
    let input1 = Intermediate::from("Variant1");

    let input2 = object(vec![("Variant1", Intermediate::Null)]);

    let input3 = object(vec![("variant2", Intermediate::from(20))]);

    let input4 = object(vec![("variant2", array(vec![Intermediate::from(40)]))]);

    let input5 = object(vec![("Variant3", object(vec![("field1", Intermediate::from(20))]))]);

    let input6 = Intermediate::from("foo");

    let input7 = Intermediate::Null;

    let mut instance = TestEnum::Variant2(0);
    instance.update(&input1).unwrap();
    assert!(matches!(instance, TestEnum::Variant1));

    let mut instance = TestEnum::Variant2(0);
    instance.update(&input2).unwrap();
    assert!(matches!(instance, TestEnum::Variant1));

    let mut instance = TestEnum::Variant1;

    instance.update(&input3).unwrap();

    if let TestEnum::Variant2(n) = &instance {
        assert_eq!(*n, 20);
    } else {
        panic!("test failed");
    }

    instance.update(&input4).unwrap();

    if let TestEnum::Variant2(n) = instance {
        assert_eq!(n, 40);
    } else {
        panic!("test failed");
    }

    let mut instance = TestEnum::Variant1;

    assert!(instance.update(&input5).is_err());

    let mut instance = TestEnum::Variant3 { field1: 0, field2: String::new() };

    instance.update(&input5).unwrap();

    if let TestEnum::Variant3 { field1, field2 } = instance {
        assert_eq!(field1, 20);
        assert_eq!(field2.as_str(), "");
    } else {
        panic!("test failed");
    }

    let mut instance = TestEnum::Variant1;

    assert!(instance.update(&input6).is_err());
    assert!(instance.update(&input7).is_err());
}

// ---- internally and adjacently tagged enums -------------------------------

struct TaggedInner {
    field1: u32,
    field2: String,
}

impl Deserialize for TaggedInner {
    fn deserialize(val: &Intermediate) -> Result<Self, Error> {
        let mut fields = NamedFields::new(val)?;
        let field1 = fields.required::<u32>("field1");
        let field2 = fields.required::<String>("field2");
        fields.finish()?;
        Ok(Self { field1: field1.unwrap(), field2: field2.unwrap() })
    }
}

impl Update for TaggedInner {
    fn update(&mut self, val: &Intermediate) -> Result<(), Error> {
        let mut fields = NamedFields::new(val)?;
        fields.update("field1", &mut self.field1);
        fields.update("field2", &mut self.field2);
        fields.finish()
    }
}

const TAGGED: [VariantTag<'static>; 2] = [
    VariantTag { name: "Variant1", needs_content: false },
    VariantTag { name: "Variant2", needs_content: true },
];

enum InternalEnum {
    Variant1,
    Variant2(TaggedInner),
}

fn tagged_current(is_first: bool) -> &'static str {
    if is_first {
        "Variant1"
    } else {
        "Variant2"
    }
}

impl InternalEnum {
    fn tagging() -> Tagging {
        Tagging::new(Some(String::from("type")), None)
    }
}

impl Deserialize for InternalEnum {
    fn deserialize(val: &Intermediate) -> Result<Self, Error> {
        let selected = select_variant(&Self::tagging(), &TAGGED, val, None)?;
        match (selected.index, selected.content) {
            (0, _) => Ok(Self::Variant1),
            (1, Some(content)) => {
                Ok(Self::Variant2(deserialize_single_field::<TaggedInner>(content)?))
            }
            _ => Err(Error::MissingEnumVariantContent),
        }
    }
}

impl Update for InternalEnum {
    fn update(&mut self, val: &Intermediate) -> Result<(), Error> {
        let current = tagged_current(matches!(self, Self::Variant1));
        let selected = select_variant(&Self::tagging(), &TAGGED, val, Some(current))?;
        match (selected.index, selected.content) {
            (0, _) => {
                *self = Self::Variant1;
                Ok(())
            }
            (1, Some(content)) => {
                if let Self::Variant2(f0) = self {
                    update_single_field(f0, content)
                } else {
                    *self = Self::deserialize(val)?;
                    Ok(())
                }
            }
            _ => Err(Error::MissingEnumVariantContent),
        }
    }
}

struct InternalOuter {
    field: InternalEnum,
}

impl Deserialize for InternalOuter {
    fn deserialize(val: &Intermediate) -> Result<Self, Error> {
        let mut fields = NamedFields::new(val)?;
        let field = fields.required::<InternalEnum>("field");
        fields.finish()?;
        Ok(Self { field: field.unwrap() })
    }
}

impl Update for InternalOuter {
    fn update(&mut self, val: &Intermediate) -> Result<(), Error> {
        let mut fields = NamedFields::new(val)?;
        fields.update("field", &mut self.field);
        fields.finish()
    }
}

#[test]
fn test_internally_tagged_enum_deserialize_and_update() {
    let input = object(vec![(
        "field",
        object(vec![
            ("type", Intermediate::from("Variant2")),
            ("field1", Intermediate::from(10)),
            ("field2", Intermediate::from("hello")),
        ]),
    )]);

    let mut instance = InternalOuter::deserialize(&input).unwrap();

    if let InternalEnum::Variant2(inner) = &instance.field {
        assert_eq!(inner.field1, 10);
        assert_eq!(inner.field2.as_str(), "hello");
    } else {
        panic!("test failed");
    }

    let input = object(vec![(
        "field",
        object(vec![
            ("type", Intermediate::from("Variant2")),
            ("field2", Intermediate::from("world")),
        ]),
    )]);

    instance.update(&input).unwrap();

    if let InternalEnum::Variant2(inner) = &instance.field {
        assert_eq!(inner.field1, 10);
        assert_eq!(inner.field2.as_str(), "world");
    } else {
        panic!("test failed");
    }
}

enum AdjacentEnum {
    Variant1,
    Variant2(TaggedInner),
}

impl AdjacentEnum {
    fn tagging() -> Tagging {
        Tagging::new(Some(String::from("type")), Some(String::from("content")))
    }
}

impl Deserialize for AdjacentEnum {
    fn deserialize(val: &Intermediate) -> Result<Self, Error> {
        let selected = select_variant(&Self::tagging(), &TAGGED, val, None)?;
        match (selected.index, selected.content) {
            (0, _) => Ok(Self::Variant1),
            (1, Some(content)) => {
                Ok(Self::Variant2(deserialize_single_field::<TaggedInner>(content)?))
            }
            _ => Err(Error::MissingEnumVariantContent),
        }
    }
}

impl Update for AdjacentEnum {
    fn update(&mut self, val: &Intermediate) -> Result<(), Error> {
        let current = tagged_current(matches!(self, Self::Variant1));
        let selected = select_variant(&Self::tagging(), &TAGGED, val, Some(current))?;
        match (selected.index, selected.content) {
            (0, _) => {
                *self = Self::Variant1;
                Ok(())
            }
            (1, Some(content)) => {
                if let Self::Variant2(f0) = self {
                    update_single_field(f0, content)
                } else {
                    *self = Self::deserialize(val)?;
                    Ok(())
                }
            }
            _ => Err(Error::MissingEnumVariantContent),
        }
    }
}

struct AdjacentOuter {
    field: AdjacentEnum,
}

impl Deserialize for AdjacentOuter {
    fn deserialize(val: &Intermediate) -> Result<Self, Error> {
        let mut fields = NamedFields::new(val)?;
        let field = fields.required::<AdjacentEnum>("field");
        fields.finish()?;
        Ok(Self { field: field.unwrap() })
    }
}

impl Update for AdjacentOuter {
    fn update(&mut self, val: &Intermediate) -> Result<(), Error> {
        let mut fields = NamedFields::new(val)?;
        fields.update("field", &mut self.field);
        fields.finish()
    }
}

#[test]
fn test_adjacently_tagged_enum_deserialize_and_update() {
    let input = object(vec![(
        "field",
        object(vec![
            ("type", Intermediate::from("Variant2")),
            (
                "content",
                object(vec![
                    ("field1", Intermediate::from(10)),
                    ("field2", Intermediate::from("hello")),
                ]),
            ),
        ]),
    )]);

    let mut instance = AdjacentOuter::deserialize(&input).unwrap();

    if let AdjacentEnum::Variant2(inner) = &instance.field {
        assert_eq!(inner.field1, 10);
        assert_eq!(inner.field2.as_str(), "hello");
    } else {
        panic!("test failed");
    }

    let input = object(vec![(
        "field",
        object(vec![
            ("type", Intermediate::from("Variant2")),
            ("content", object(vec![("field2", Intermediate::from("world"))])),
        ]),
    )]);

    instance.update(&input).unwrap();

    if let AdjacentEnum::Variant2(inner) = &instance.field {
        assert_eq!(inner.field1, 10);
        assert_eq!(inner.field2.as_str(), "world");
    } else {
        panic!("test failed");
    }
}

// ---- serialization --------------------------------------------------------

struct InnerTestStruct {
    inner1: bool,
    inner2: String,
}

impl Serialize for InnerTestStruct {
    fn serialize(&self) -> Result<Intermediate, Error> {
        serialize_named_fields(vec![
            NamedOutput::Keyed(String::from("inner1"), self.inner1.serialize()),
            NamedOutput::Keyed(String::from("inner2"), self.inner2.serialize()),
        ])
    }
}

struct OuterTestStruct {
    field1: u32,
    field2: InnerTestStruct,
    field3: InnerTestStruct,
}

impl Serialize for OuterTestStruct {
    fn serialize(&self) -> Result<Intermediate, Error> {
        serialize_named_fields(vec![
            NamedOutput::Keyed(String::from("field1"), self.field1.serialize()),
            NamedOutput::Keyed(String::from("field2"), self.field2.serialize()),
            NamedOutput::Flattened(String::from("field3"), self.field3.serialize()),
        ])
    }
}

#[test]
fn test_struct_serialize() {
    let instance = OuterTestStruct {
        field1: 10,
        field2: InnerTestStruct { inner1: true, inner2: String::from("hello") },
        field3: InnerTestStruct { inner1: false, inner2: String::from("world") },
    };

    let data = instance.serialize().unwrap();

    let map = data.as_map().unwrap();

    assert_eq!(map.len(), 4);
    assert_eq!(get_unsigned_int_field(map, "field1"), 10);

    let field2 = get_map_field(map, "field2");
    assert_eq!(field2.len(), 2);
    assert_eq!(get_bool_field(field2, "inner1"), true);
    assert_eq!(get_str_field(field2, "inner2"), "hello");

    assert_eq!(get_bool_field(map, "inner1"), false);
    assert_eq!(get_str_field(map, "inner2"), "world");
}

enum SerEnum {
    Variant1,
    Variant2(u32),
    Variant3(u32, String),
    Variant4 { field1: u32, field2: InnerTestStruct },
    Variant5(InnerTestStruct),
    Variant6(Vec<u32>),
}

impl SerEnum {
    fn parts(&self) -> Result<(&'static str, Intermediate), Error> {
        Ok(match self {
            Self::Variant1 => ("Variant1", Intermediate::Null),
            Self::Variant2(f0) => ("v2", serialize_unnamed_fields(vec![f0.serialize()])?),
            Self::Variant3(f0, f1) => {
                ("Variant3", serialize_unnamed_fields(vec![f0.serialize(), f1.serialize()])?)
            }
            Self::Variant4 { field1, field2 } => (
                "Variant4",
                serialize_named_fields(vec![
                    NamedOutput::Keyed(String::from("field1"), field1.serialize()),
                    NamedOutput::Flattened(String::from("field2"), field2.serialize()),
                ])?,
            ),
            Self::Variant5(f0) => ("Variant5", serialize_unnamed_fields(vec![f0.serialize()])?),
            Self::Variant6(f0) => ("Variant6", serialize_unnamed_fields(vec![f0.serialize()])?),
        })
    }
}

struct ExternallyTaggedEnum(SerEnum);

impl Serialize for ExternallyTaggedEnum {
    fn serialize(&self) -> Result<Intermediate, Error> {
        let (tag, content) = self.0.parts()?;
        serialize_enum(&Tagging::External, tag, content)
    }
}

struct ExternalOuter {
    field5: ExternallyTaggedEnum,
    field6: ExternallyTaggedEnum,
    field7: ExternallyTaggedEnum,
    field8: ExternallyTaggedEnum,
    field9: ExternallyTaggedEnum,
    field10: ExternallyTaggedEnum,
    field11: ExternallyTaggedEnum,
}

impl Serialize for ExternalOuter {
    fn serialize(&self) -> Result<Intermediate, Error> {
        serialize_named_fields(vec![
            NamedOutput::Keyed(String::from("field5"), self.field5.serialize()),
            NamedOutput::Keyed(String::from("field6"), self.field6.serialize()),
            NamedOutput::Keyed(String::from("field7"), self.field7.serialize()),
            NamedOutput::Keyed(String::from("field8"), self.field8.serialize()),
            NamedOutput::Keyed(String::from("field9"), self.field9.serialize()),
            NamedOutput::Keyed(String::from("field10"), self.field10.serialize()),
            NamedOutput::Keyed(String::from("field11"), self.field11.serialize()),
        ])
    }
}

#[test]
fn test_externally_tagged_enum_serialize() {
    let instance = ExternalOuter {
        field5: ExternallyTaggedEnum(SerEnum::Variant1),
        field6: ExternallyTaggedEnum(SerEnum::Variant2(20)),
        field7: ExternallyTaggedEnum(SerEnum::Variant3(30, String::from("sss"))),
        field8: ExternallyTaggedEnum(SerEnum::Variant4 {
            field1: 40,
            field2: InnerTestStruct { inner1: true, inner2: String::from("zzz") },
        }),
        field9: ExternallyTaggedEnum(SerEnum::Variant5(InnerTestStruct {
            inner1: false,
            inner2: String::from("abc"),
        })),
        field10: ExternallyTaggedEnum(SerEnum::Variant6(vec![])),
        field11: ExternallyTaggedEnum(SerEnum::Variant6(vec![50])),
    };

    let data = instance.serialize().unwrap();

    let map = data.as_map().unwrap();

    assert_eq!(get_str_field(map, "field5"), "Variant1");

    let field6 = get_map_field(map, "field6");
    assert_eq!(field6.len(), 1);
    assert_eq!(get_unsigned_int_field(field6, "v2"), 20);

    let field7 = get_map_field(map, "field7");
    assert_eq!(field7.len(), 1);
    let arr = get_array_field(field7, "Variant3");
    assert_eq!(arr.len(), 2);
    assert_eq!(as_u64(&arr[0]), 30);
    assert_eq!(arr[1].as_str().unwrap(), "sss");

    let field8 = get_map_field(map, "field8");
    assert_eq!(field8.len(), 1);
    let inner = get_map_field(field8, "Variant4");
    assert_eq!(inner.len(), 3);
    assert_eq!(get_unsigned_int_field(inner, "field1"), 40);
    assert_eq!(get_bool_field(inner, "inner1"), true);
    assert_eq!(get_str_field(inner, "inner2"), "zzz");

    let field9 = get_map_field(map, "field9");
    assert_eq!(field9.len(), 1);
    let inner = get_map_field(field9, "Variant5");
    assert_eq!(inner.len(), 2);
    assert_eq!(get_bool_field(inner, "inner1"), false);
    assert_eq!(get_str_field(inner, "inner2"), "abc");

    let field10 = get_map_field(map, "field10");
    assert_eq!(field10.len(), 1);
    let arr = get_array_field(field10, "Variant6");
    assert_eq!(arr.len(), 0);

    let field11 = get_map_field(map, "field11");
    assert_eq!(field11.len(), 1);
    let arr = get_array_field(field11, "Variant6");
    assert_eq!(arr.len(), 1);
    assert_eq!(as_u64(&arr[0]), 50);
}

struct InternallyTaggedEnum(SerEnum);

impl Serialize for InternallyTaggedEnum {
    fn serialize(&self) -> Result<Intermediate, Error> {
        let (tag, content) = self.0.parts()?;
        serialize_enum(&Tagging::new(Some(String::from("variant")), None), tag, content)
    }
}

struct EnumContainerStruct {
    e1: InternallyTaggedEnum,
    e2: InternallyTaggedEnum,
}

impl Serialize for EnumContainerStruct {
    fn serialize(&self) -> Result<Intermediate, Error> {
        serialize_named_fields(vec![
            NamedOutput::Keyed(String::from("e1"), self.e1.serialize()),
            NamedOutput::Flattened(String::from("e2"), self.e2.serialize()),
        ])
    }
}

struct InternalSerOuter {
    field4: EnumContainerStruct,
    field10: InternallyTaggedEnum,
    field11: InternallyTaggedEnum,
    field12: InternallyTaggedEnum,
}

impl Serialize for InternalSerOuter {
    fn serialize(&self) -> Result<Intermediate, Error> {
        serialize_named_fields(vec![
            NamedOutput::Keyed(String::from("field4"), self.field4.serialize()),
            NamedOutput::Keyed(String::from("field10"), self.field10.serialize()),
            NamedOutput::Keyed(String::from("field11"), self.field11.serialize()),
            NamedOutput::Keyed(String::from("field12"), self.field12.serialize()),
        ])
    }
}

#[test]
fn test_internally_tagged_enum_serialize() {
    let instance = InternalSerOuter {
        field4: EnumContainerStruct {
            e1: InternallyTaggedEnum(SerEnum::Variant4 {
                field1: 30,
                field2: InnerTestStruct { inner1: true, inner2: String::from("foo") },
            }),
            e2: InternallyTaggedEnum(SerEnum::Variant5(InnerTestStruct {
                inner1: false,
                inner2: String::from("bar"),
            })),
        },
        field10: InternallyTaggedEnum(SerEnum::Variant1),
        field11: InternallyTaggedEnum(SerEnum::Variant4 {
            field1: 50,
            field2: InnerTestStruct { inner1: true, inner2: String::from("xyz") },
        }),
        field12: InternallyTaggedEnum(SerEnum::Variant5(InnerTestStruct {
            inner1: true,
            inner2: String::from("qwerty"),
        })),
    };

    let data = instance.serialize().unwrap();

    let map = data.as_map().unwrap();

    let field4 = get_map_field(map, "field4");
    assert_eq!(field4.len(), 4);
    let e1 = get_map_field(field4, "e1");
    assert_eq!(e1.len(), 4);
    assert_eq!(get_str_field(e1, "variant"), "Variant4");
    assert_eq!(get_unsigned_int_field(e1, "field1"), 30);
    assert_eq!(get_bool_field(e1, "inner1"), true);
    assert_eq!(get_str_field(e1, "inner2"), "foo");
    assert_eq!(get_str_field(field4, "variant"), "Variant5");
    assert_eq!(get_bool_field(field4, "inner1"), false);
    assert_eq!(get_str_field(field4, "inner2"), "bar");

    let field10 = get_map_field(map, "field10");
    assert_eq!(field10.len(), 1);
    assert_eq!(get_str_field(field10, "variant"), "Variant1");

    let field11 = get_map_field(map, "field11");
    assert_eq!(field11.len(), 4);
    assert_eq!(get_str_field(field11, "variant"), "Variant4");
    assert_eq!(get_unsigned_int_field(field11, "field1"), 50);
    assert_eq!(get_bool_field(field11, "inner1"), true);
    assert_eq!(get_str_field(field11, "inner2"), "xyz");

    let field12 = get_map_field(map, "field12");
    assert_eq!(field12.len(), 3);
    assert_eq!(get_str_field(field12, "variant"), "Variant5");
    assert_eq!(get_bool_field(field12, "inner1"), true);
    assert_eq!(get_str_field(field12, "inner2"), "qwerty");

    let instance = InternallyTaggedEnum(SerEnum::Variant2(10));
    assert!(instance.serialize().is_err());

    let instance = InternallyTaggedEnum(SerEnum::Variant3(20, String::from("foo")));
    assert!(instance.serialize().is_err());
}

enum AdjacentlyTaggedEnum {
    Variant1,
    Variant2(u32, String),
}

impl Serialize for AdjacentlyTaggedEnum {
    fn serialize(&self) -> Result<Intermediate, Error> {
        let (tag, content) = match self {
            Self::Variant1 => ("Variant1", Intermediate::Null),
            Self::Variant2(f0, f1) => {
                ("Variant2", serialize_unnamed_fields(vec![f0.serialize(), f1.serialize()])?)
            }
        };
        let tagging = Tagging::new(Some(String::from("variant")), Some(String::from("content")));
        serialize_enum(&tagging, tag, content)
    }
}

struct AdjacentSerOuter {
    field13: AdjacentlyTaggedEnum,
    field14: AdjacentlyTaggedEnum,
}

impl Serialize for AdjacentSerOuter {
    fn serialize(&self) -> Result<Intermediate, Error> {
        serialize_named_fields(vec![
            NamedOutput::Keyed(String::from("field13"), self.field13.serialize()),
            NamedOutput::Keyed(String::from("field14"), self.field14.serialize()),
        ])
    }
}

#[test]
fn test_adjacently_tagged_enum_serialize() {
    let instance = AdjacentSerOuter {
        field13: AdjacentlyTaggedEnum::Variant1,
        field14: AdjacentlyTaggedEnum::Variant2(60, String::from("asdf")),
    };

    let data = instance.serialize().unwrap();

    let map = data.as_map().unwrap();

    let field13 = get_map_field(map, "field13");
    assert_eq!(field13.len(), 2);
    assert_eq!(get_str_field(field13, "variant"), "Variant1");
    assert!(field13.get("content").unwrap().is_none());

    let field14 = get_map_field(map, "field14");
    assert_eq!(field14.len(), 2);
    assert_eq!(get_str_field(field14, "variant"), "Variant2");
    let arr = get_array_field(field14, "content");
    assert_eq!(arr.len(), 2);
    assert_eq!(as_u64(&arr[0]), 60);
    assert_eq!(arr[1].as_str().unwrap(), "asdf");
}

// ---- skipped fields -------------------------------------------------------

struct SkipDeserializing {
    field1: u32,
    field2: u32,
    field3: u32,
}

impl Deserialize for SkipDeserializing {
    fn deserialize(val: &Intermediate) -> Result<Self, Error> {
        let mut fields = NamedFields::new(val)?;
        let field1 = fields.required::<u32>("field1");
        let field2: u32 = Default::default();
        let field3: u32 = Default::default();
        fields.finish()?;
        Ok(Self { field1: field1.unwrap(), field2, field3 })
    }
}

impl Update for SkipDeserializing {
    fn update(&mut self, val: &Intermediate) -> Result<(), Error> {
        let mut fields = NamedFields::new(val)?;
        fields.update("field1", &mut self.field1);
        fields.finish()
    }
}

#[test]
fn test_skip_deserializing() {
    let mut map = Object::new();
    map.insert(String::from("field1"), Intermediate::Number(Number::UnsignedInt(10)));
    map.insert(String::from("field2"), Intermediate::Number(Number::UnsignedInt(20)));
    map.insert(String::from("field3"), Intermediate::Number(Number::UnsignedInt(30)));
    let input = Intermediate::Object(map);

    let mut instance = SkipDeserializing::deserialize(&input).unwrap();

    assert_eq!(instance.field1, 10);
    assert_eq!(instance.field2, u32::default());
    assert_eq!(instance.field3, u32::default());

    instance.update(&input).unwrap();

    assert_eq!(instance.field1, 10);
    assert_eq!(instance.field2, u32::default());
    assert_eq!(instance.field3, u32::default());
}

#[allow(dead_code)]
struct SkipSerializing {
    field1: u32,
    field2: u32,
    field3: u32,
    field4: Option<u32>,
}

impl Serialize for SkipSerializing {
    fn serialize(&self) -> Result<Intermediate, Error> {
        let mut fields = Vec::new();
        fields.push(NamedOutput::Keyed(String::from("field1"), self.field1.serialize()));
        if !Option::is_none(&self.field4) {
            fields.push(NamedOutput::Keyed(String::from("field4"), self.field4.serialize()));
        }
        serialize_named_fields(fields)
    }
}

#[test]
fn test_skip_serializing() {
    let mut instance = SkipSerializing { field1: 1, field2: 2, field3: 3, field4: Some(4) };

    let data = instance.serialize().unwrap();
    let map = data.as_map().unwrap();
    assert_eq!(map.len(), 2);
    assert_eq!(get_unsigned_int_field(map, "field1"), 1);
    assert_eq!(get_unsigned_int_field(map, "field4"), 4);

    instance.field4 = None;

    let data = instance.serialize().unwrap();
    let map = data.as_map().unwrap();
    assert_eq!(map.len(), 1);
    assert_eq!(get_unsigned_int_field(map, "field1"), 1);
}

/// Helper.
fn get_map_field<'a>(map: &'a Object, name: &str) -> &'a Object {
    map.get(name).unwrap().as_map().unwrap()
}

/// Helper.
fn get_array_field<'a>(map: &'a Object, name: &str) -> &'a [Intermediate] {
    map.get(name).unwrap().as_array().unwrap()
}

/// Helper.
fn get_bool_field(map: &Object, name: &str) -> bool {
    map.get(name).unwrap().as_bool().unwrap()
}

/// Helper.
fn as_u64(value: &Intermediate) -> u64 {
    u64::try_from(value.as_number().unwrap()).unwrap()
}

/// Helper.
fn get_unsigned_int_field(map: &Object, name: &str) -> u64 {
    as_u64(map.get(name).unwrap())
}

/// Helper.
fn get_str_field<'a>(map: &'a Object, name: &str) -> &'a str {
    map.get(name).unwrap().as_str().unwrap()
}
