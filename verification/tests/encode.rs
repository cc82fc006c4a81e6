use cnl::config::Field;
use cnl::config::SignalType;
use cnl::config::Type;
use cnl::config::Variant;
use cnl::frame::Attribute;
use cnl::frame::Value;

fn unsigned(size: u8) -> Type {
    Type::Primitive(SignalType::UnsignedInt { size })
}

fn signed(size: u8) -> Type {
    Type::Primitive(SignalType::SignedInt { size })
}

fn decimal(size: u8) -> Type {
    Type::Primitive(SignalType::Decimal { size })
}

fn field(name: &str, ty: Type) -> Field {
    Field { name: name.to_owned(), ty }
}

fn colour() -> Type {
    Type::Enum {
        name: "colour".to_owned(),
        size: 2,
        entries: vec![
            Variant { name: "red".to_owned(), value: 1 },
            Variant { name: "green".to_owned(), value: 2 },
            Variant { name: "red".to_owned(), value: 3 },
        ],
    }
}

#[test]
fn unsigned_gives_its_low_bits() {
    assert_eq!(Value::UnsignedValue(0b1011).get_as_bin(&unsigned(4)), (vec![0b1011], 4));
    assert_eq!(Value::UnsignedValue(0xfff5).get_as_bin(&unsigned(4)), (vec![0x5], 4));
    assert_eq!(Value::UnsignedValue(0x1234).get_as_bin(&unsigned(16)), (vec![0x1234], 16));
}

#[test]
fn signed_gives_its_twos_complement_bits() {
    assert_eq!(Value::SignedValue(-1).get_as_bin(&signed(3)), (vec![0b111], 3));
    assert_eq!(Value::SignedValue(-2).get_as_bin(&signed(8)), (vec![0xfe], 8));
    assert_eq!(Value::SignedValue(5).get_as_bin(&signed(8)), (vec![5], 8));
    assert_eq!(Value::SignedValue(-1).get_as_bin(&signed(64)), (vec![u64::MAX], 0));
}

#[test]
fn decimal_is_clamped_to_its_field() {
    assert_eq!(Value::RealValue(100).get_as_bin(&decimal(8)), (vec![100], 8));
    assert_eq!(Value::RealValue(255).get_as_bin(&decimal(8)), (vec![255], 8));
    assert_eq!(Value::RealValue(256).get_as_bin(&decimal(8)), (vec![255], 8));
    assert_eq!(Value::RealValue(1 << 70).get_as_bin(&decimal(12)), (vec![0xfff], 12));
    assert_eq!(Value::RealValue(-1).get_as_bin(&decimal(8)), (vec![0], 8));
    assert_eq!(Value::RealValue(i128::MIN).get_as_bin(&decimal(64)), (vec![0], 0));
    assert_eq!(Value::RealValue(i128::MAX).get_as_bin(&decimal(64)), (vec![u64::MAX], 0));
}

#[test]
fn struct_concatenates_its_attributes() {
    let ty = Type::Struct {
        name: "s".to_owned(),
        attribs: vec![field("a", unsigned(2)), field("b", signed(3)), field("c", decimal(4))],
    };
    let value = Value::StructValue(vec![
        Attribute::new("a", Value::UnsignedValue(3)),
        Attribute::new("b", Value::SignedValue(-1)),
        Attribute::new("c", Value::RealValue(5)),
    ]);
    assert_eq!(value.get_as_bin(&ty), (vec![3 | (7 << 2) | (5 << 5)], 9));
    assert_eq!(value.bit_len(&ty), Some(9));
}

#[test]
fn nested_struct_is_encoded_depth_first() {
    let inner = Type::Struct { name: "inner".to_owned(), attribs: vec![field("x", unsigned(4)), field("y", unsigned(4))] };
    let ty = Type::Struct { name: "outer".to_owned(), attribs: vec![field("head", unsigned(8)), field("body", inner), field("tail", unsigned(8))] };
    let value = Value::StructValue(vec![
        Attribute::new("head", Value::UnsignedValue(0x11)),
        Attribute::new(
            "body",
            Value::StructValue(vec![
                Attribute::new("x", Value::UnsignedValue(0x2)),
                Attribute::new("y", Value::UnsignedValue(0x3)),
            ]),
        ),
        Attribute::new("tail", Value::UnsignedValue(0x44)),
    ]);
    assert_eq!(value.get_as_bin(&ty), (vec![0x44_32_11], 24));
}

#[test]
fn attributes_pair_with_fields_by_position() {
    let ty = Type::Struct { name: "s".to_owned(), attribs: vec![field("a", unsigned(8)), field("b", unsigned(8))] };
    let short = Value::StructValue(vec![Attribute::new("other", Value::UnsignedValue(0xab))]);
    assert_eq!(short.get_as_bin(&ty), (vec![0xab], 8));
    let long = Value::StructValue(vec![
        Attribute::new("a", Value::UnsignedValue(1)),
        Attribute::new("b", Value::UnsignedValue(2)),
        Attribute::new("c", Value::EnumValue("beyond".to_owned())),
    ]);
    assert_eq!(long.get_as_bin(&ty), (vec![0x0201], 16));
}

#[test]
fn enum_gives_the_number_of_its_first_variant() {
    assert_eq!(Value::EnumValue("green".to_owned()).get_as_bin(&colour()), (vec![2], 2));
    assert_eq!(Value::EnumValue("red".to_owned()).get_as_bin(&colour()), (vec![1], 2));
}

#[test]
fn words_fill_up_from_the_least_significant_bit() {
    let ty = Type::Struct { name: "wide".to_owned(), attribs: vec![field("a", unsigned(64)), field("b", unsigned(1))] };
    let value = Value::StructValue(vec![
        Attribute::new("a", Value::UnsignedValue(u64::MAX)),
        Attribute::new("b", Value::UnsignedValue(1)),
    ]);
    assert_eq!(value.get_as_bin(&ty), (vec![u64::MAX, 1], 1));
    let split = Type::Struct { name: "split".to_owned(), attribs: vec![field("a", unsigned(60)), field("b", unsigned(8))] };
    let value = Value::StructValue(vec![
        Attribute::new("a", Value::UnsignedValue(0)),
        Attribute::new("b", Value::UnsignedValue(0xff)),
    ]);
    assert_eq!(value.get_as_bin(&split), (vec![0xf << 60, 0xf], 4));
}

#[test]
fn last_fill_counts_the_bits_of_a_partial_word() {
    assert_eq!(Value::UnsignedValue(0).get_as_bin(&unsigned(0)), (vec![], 0));
    assert_eq!(Value::UnsignedValue(1).get_as_bin(&unsigned(1)).1, 1);
    assert_eq!(Value::UnsignedValue(1).get_as_bin(&unsigned(8)).1, 8);
    assert_eq!(Value::UnsignedValue(1).get_as_bin(&unsigned(9)).1, 9);
    assert_eq!(Value::UnsignedValue(1).get_as_bin(&unsigned(63)).1, 63);
    assert_eq!(Value::UnsignedValue(1).get_as_bin(&unsigned(64)).1, 0);
}

#[test]
fn values_that_do_not_conform_are_not_encoded() {
    assert_eq!(Value::UnsignedValue(1).checked_get_as_bin(&signed(8)), None);
    assert_eq!(Value::SignedValue(1).checked_get_as_bin(&decimal(8)), None);
    assert_eq!(Value::RealValue(1).checked_get_as_bin(&unsigned(8)), None);
    assert_eq!(Value::UnsignedValue(1).checked_get_as_bin(&unsigned(65)), None);
    assert_eq!(Value::EnumValue("blue".to_owned()).checked_get_as_bin(&colour()), None);
    assert_eq!(Value::EnumValue("red".to_owned()).checked_get_as_bin(&unsigned(2)), None);
    assert_eq!(Value::UnsignedValue(1).bit_len(&colour()), None);
    let ty = Type::Struct { name: "s".to_owned(), attribs: vec![field("a", unsigned(8)), field("b", unsigned(8))] };
    let wrong = Value::StructValue(vec![
        Attribute::new("a", Value::UnsignedValue(1)),
        Attribute::new("b", Value::SignedValue(2)),
    ]);
    assert_eq!(wrong.checked_get_as_bin(&ty), None);
    assert_eq!(Value::UnsignedValue(1).checked_get_as_bin(&ty), None);
}

#[test]
fn checked_encoding_agrees_with_encoding() {
    assert_eq!(Value::UnsignedValue(0xabc).checked_get_as_bin(&unsigned(12)), Some((vec![0xabc], 12)));
    assert_eq!(Value::EnumValue("green".to_owned()).checked_get_as_bin(&colour()), Some((vec![2], 2)));
    assert_eq!(Value::UnsignedValue(7).bit_len(&unsigned(12)), Some(12));
}

#[test]
fn attribute_finds_the_first_of_a_name() {
    let value = Value::StructValue(vec![
        Attribute::new("a", Value::UnsignedValue(1)),
        Attribute::new("b", Value::UnsignedValue(2)),
        Attribute::new("a", Value::UnsignedValue(3)),
    ]);
    assert!(matches!(value.attribute("a"), Some(Value::UnsignedValue(1))));
    assert!(matches!(value.attribute("b"), Some(Value::UnsignedValue(2))));
    assert!(value.attribute("c").is_none());
    assert!(Value::UnsignedValue(1).attribute("a").is_none());
    let attribute = Attribute::new("speed", Value::SignedValue(-3));
    assert_eq!(attribute.name(), "speed");
    assert!(matches!(attribute.value(), Value::SignedValue(-3)));
}

#[test]
fn type_bit_size_sums_the_fields() {
    let inner = Type::Struct { name: "inner".to_owned(), attribs: vec![field("x", unsigned(4)), field("y", colour())] };
    let ty = Type::Struct { name: "outer".to_owned(), attribs: vec![field("head", signed(31)), field("body", inner)] };
    assert_eq!(ty.bit_size(), Some(37));
    assert_eq!(unsigned(255).bit_size(), Some(255));
    assert_eq!(Type::Struct { name: "empty".to_owned(), attribs: vec![] }.bit_size(), Some(0));
}
