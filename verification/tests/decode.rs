use std::sync::Arc;

use cnl::config::EncodedField;
use cnl::config::Encoding;
use cnl::config::Field;
use cnl::config::Message;
use cnl::config::MessageId;
use cnl::config::Signal;
use cnl::config::SignalType;
use cnl::config::Type;
use cnl::config::Variant;
use cnl::deserialize::signal_deserializer::extract_field;
use cnl::deserialize::signal_deserializer::SignalDeserializer;
use cnl::deserialize::signal_deserializer::SignalDeserializerTypeInfo;
use cnl::deserialize::type_deserializer::read_field;
use cnl::deserialize::type_deserializer::TypeDeserializer;
use cnl::deserialize::FrameDeserializer;
use cnl::errors::Error;
use cnl::frame::Value;

fn decoder(bit_offset: u32, bit_size: u32, type_info: SignalDeserializerTypeInfo) -> SignalDeserializer {
    SignalDeserializer { bit_size, bit_offset, type_info }
}

fn primitive(name: &str, bit_offset: u32, ty: SignalType) -> EncodedField {
    EncodedField { name: name.to_owned(), encoding: Encoding::Primitive(Signal { name: name.to_owned(), bit_offset, ty }) }
}

fn plain_field(name: &str, ty: Type) -> Field {
    Field { name: name.to_owned(), ty }
}

fn gear_entries() -> Vec<Variant> {
    vec![Variant { name: "park".to_owned(), value: 0 }, Variant { name: "drive".to_owned(), value: 2 }, Variant { name: "again".to_owned(), value: 2 }]
}

#[test]
fn unsigned_field_is_shifted_and_masked() {
    let unsigned = SignalDeserializerTypeInfo::UnsignedSignalDeserializer;
    assert!(matches!(decoder(4, 4, unsigned).deserialize(0xab), Value::UnsignedValue(0xa)));
    assert!(matches!(decoder(0, 4, unsigned).deserialize(0xab), Value::UnsignedValue(0xb)));
    assert!(matches!(decoder(32, 32, unsigned).deserialize(0x1234_5678_9abc_def0), Value::UnsignedValue(0x1234_5678)));
    assert!(matches!(decoder(60, 16, unsigned).deserialize(0xf000_0000_0000_0000), Value::UnsignedValue(0xf)));
}

#[test]
fn mask_saturates_at_the_word() {
    let unsigned = SignalDeserializerTypeInfo::UnsignedSignalDeserializer;
    assert!(matches!(decoder(0, 64, unsigned).deserialize(u64::MAX), Value::UnsignedValue(u64::MAX)));
    assert!(matches!(decoder(0, 200, unsigned).deserialize(u64::MAX), Value::UnsignedValue(u64::MAX)));
    assert!(matches!(decoder(0, 0, unsigned).deserialize(u64::MAX), Value::UnsignedValue(0)));
    assert_eq!(extract_field(0xff00, 8, 4), 0xf);
}

#[test]
fn shift_distance_wraps_at_the_word() {
    let unsigned = SignalDeserializerTypeInfo::UnsignedSignalDeserializer;
    assert!(matches!(decoder(68, 4, unsigned).deserialize(0xab), Value::UnsignedValue(0xa)));
    assert!(matches!(decoder(64, 8, unsigned).deserialize(0xab), Value::UnsignedValue(0xab)));
}

#[test]
fn signed_field_is_sign_extended() {
    let signed = SignalDeserializerTypeInfo::SignedSignalDeserializer;
    assert!(matches!(decoder(0, 4, signed).deserialize(0xf), Value::SignedValue(-1)));
    assert!(matches!(decoder(0, 4, signed).deserialize(0x8), Value::SignedValue(-8)));
    assert!(matches!(decoder(0, 4, signed).deserialize(0x7), Value::SignedValue(7)));
    assert!(matches!(decoder(8, 8, signed).deserialize(0xfe00), Value::SignedValue(-2)));
    assert!(matches!(decoder(0, 1, signed).deserialize(1), Value::SignedValue(-1)));
    assert!(matches!(decoder(0, 64, signed).deserialize(u64::MAX), Value::SignedValue(-1)));
    assert!(matches!(decoder(0, 63, signed).deserialize(1 << 62), Value::SignedValue(v) if v == -(1i64 << 62)));
    assert!(matches!(decoder(0, 0, signed).deserialize(u64::MAX), Value::SignedValue(0)));
}

#[test]
fn decimal_field_gives_its_step_count() {
    let decimal = SignalDeserializerTypeInfo::DecimalSignalDeserializer;
    assert!(matches!(decoder(0, 8, decimal).deserialize(0x1234), Value::RealValue(0x34)));
    assert!(matches!(decoder(0, 64, decimal).deserialize(u64::MAX), Value::RealValue(v) if v == u64::MAX as i128));
}

#[test]
fn deserializer_takes_offset_and_width_from_the_signal() {
    let signal = Signal { name: "rpm".to_owned(), bit_offset: 12, ty: SignalType::SignedInt { size: 10 } };
    let made = SignalDeserializer::new(&signal);
    assert_eq!(made, decoder(12, 10, SignalDeserializerTypeInfo::SignedSignalDeserializer));
    let signal = Signal { name: "level".to_owned(), bit_offset: 3, ty: SignalType::Decimal { size: 7 } };
    assert_eq!(SignalDeserializer::new(&signal), decoder(3, 7, SignalDeserializerTypeInfo::DecimalSignalDeserializer));
    let signal = Signal { name: "count".to_owned(), bit_offset: 0, ty: SignalType::UnsignedInt { size: 64 } };
    assert_eq!(SignalDeserializer::new(&signal), decoder(0, 64, SignalDeserializerTypeInfo::UnsignedSignalDeserializer));
}

#[test]
fn fields_are_read_across_word_borders() {
    let words = [0xddcc_bbaa, 0x0000_0f11];
    assert_eq!(read_field(&words, 0, 8), 0xaa);
    assert_eq!(read_field(&words, 8, 32), 0x11dd_ccbb);
    assert_eq!(read_field(&words, 40, 4), 0xf);
    assert_eq!(read_field(&words, 0, 64), 0x0000_0f11_ddcc_bbaa);
    assert_eq!(read_field(&words, 48, 64), 0);
    assert_eq!(read_field(&words, 44, 64), 0);
    assert_eq!(read_field(&words, 28, 8), 0x1d);
    assert_eq!(read_field(&words, 500, 8), 0);
    assert_eq!(read_field(&[u32::MAX, u32::MAX, u32::MAX], 16, 200), u64::MAX);
    assert_eq!(read_field(&[], 0, 8), 0);
}

#[test]
fn type_is_decoded_field_by_field() {
    let ty = Arc::new(Type::Struct {
        name: "sample".to_owned(),
        attribs: vec![
            plain_field("a", Type::Primitive(SignalType::UnsignedInt { size: 8 })),
            plain_field("b", Type::Primitive(SignalType::UnsignedInt { size: 32 })),
            plain_field("c", Type::Primitive(SignalType::SignedInt { size: 4 })),
            plain_field("d", Type::Primitive(SignalType::Decimal { size: 4 })),
            plain_field("e", Type::Enum { name: "gear".to_owned(), size: 2, entries: gear_entries() }),
        ],
    });
    let decoder = TypeDeserializer::new(&ty);
    let value = decoder.deserialize(&[0xddcc_bbaa, 0x0002_9f11]).unwrap();
    let Value::StructValue(attributes) = value else { panic!("not a struct") };
    assert_eq!(attributes.len(), 5);
    assert_eq!(attributes[0].name(), "a");
    assert!(matches!(attributes[0].value(), Value::UnsignedValue(0xaa)));
    assert_eq!(attributes[1].name(), "b");
    assert!(matches!(attributes[1].value(), Value::UnsignedValue(0x11dd_ccbb)));
    assert_eq!(attributes[2].name(), "c");
    assert!(matches!(attributes[2].value(), Value::SignedValue(-1)));
    assert_eq!(attributes[3].name(), "d");
    assert!(matches!(attributes[3].value(), Value::RealValue(9)));
    assert_eq!(attributes[4].name(), "e");
    assert!(matches!(attributes[4].value(), Value::EnumValue(name) if name == "drive"));
}

#[test]
fn unknown_enum_number_fails_the_decoding() {
    let ty = Arc::new(Type::Struct {
        name: "sample".to_owned(),
        attribs: vec![
            plain_field("a", Type::Primitive(SignalType::UnsignedInt { size: 8 })),
            plain_field("e", Type::Enum { name: "gear".to_owned(), size: 2, entries: gear_entries() }),
        ],
    });
    let decoder = TypeDeserializer::new(&ty);
    assert!(matches!(decoder.deserialize(&[0x0000_01aa]), Err(Error::UnknownEnumValue)));
    assert!(matches!(decoder.deserialize(&[0x0000_03aa]), Err(Error::UnknownEnumValue)));
    assert!(decoder.deserialize(&[0x0000_00aa]).is_ok());
    assert!(matches!(decoder.deserialize(&[]), Ok(Value::StructValue(_))));
}

#[test]
fn frame_is_decoded_by_its_message() {
    let message = Arc::new(Message {
        id: MessageId::ExtendedId(0x1ab),
        name: "status".to_owned(),
        description: Some("the status of the pod".to_owned()),
        dlc: 6,
        attributes: vec![
            primitive("speed", 0, SignalType::UnsignedInt { size: 12 }),
            EncodedField {
                name: "position".to_owned(),
                encoding: Encoding::Struct {
                    attribs: vec![
                        primitive("x", 16, SignalType::SignedInt { size: 8 }),
                        primitive("y", 24, SignalType::Decimal { size: 8 }),
                    ],
                },
            },
            EncodedField { name: "gear".to_owned(), encoding: Encoding::Enum { bit_offset: 12, size: 2, entries: gear_entries() } },
        ],
    });
    let decoder = FrameDeserializer::new(&message);
    let data = 0x0000_0000_40fe_2abcu64;
    let frame = decoder.deserialize(data).unwrap();
    assert_eq!(frame.name(), "status");
    assert_eq!(frame.description(), Some("the status of the pod"));
    assert_eq!(frame.dlc(), 6);
    assert_eq!(*frame.id(), MessageId::ExtendedId(0x1ab));
    assert_eq!(frame.id().as_u32(), 0x1ab);
    assert!(frame.ide());
    assert!(!frame.rtr());
    assert_eq!(frame.data(), data);
    assert_eq!(frame.attributes().len(), 3);
    assert!(matches!(frame.attribute("speed"), Some(Value::UnsignedValue(0xabc))));
    let position = frame.attribute("position").unwrap();
    assert!(matches!(position.attribute("x"), Some(Value::SignedValue(-2))));
    assert!(matches!(position.attribute("y"), Some(Value::RealValue(0x40))));
    assert!(matches!(frame.attribute("gear"), Some(Value::EnumValue(name)) if name == "drive"));
    assert!(frame.attribute("x").is_none());
    assert!(matches!(decoder.deserialize(0x1000), Err(Error::UnknownEnumValue)));
}

#[test]
fn standard_identifier_is_not_extended() {
    let message = Arc::new(Message { id: MessageId::StandardId(0x7f), name: "ping".to_owned(), description: None, dlc: 0, attributes: vec![] });
    let frame = FrameDeserializer::new(&message).deserialize(0).unwrap();
    assert!(!frame.ide());
    assert_eq!(frame.id().as_u32(), 0x7f);
    assert_eq!(frame.description(), None);
    assert!(frame.attributes().is_empty());
    assert!(!MessageId::StandardId(1).ide());
    assert!(MessageId::ExtendedId(1).ide());
}

#[test]
fn decoding_gives_back_what_was_encoded() {
    let unsigned = Type::Primitive(SignalType::UnsignedInt { size: 13 });
    let (words, _) = Value::UnsignedValue(0x1abc).get_as_bin(&unsigned);
    assert!(matches!(decoder(0, 13, SignalDeserializerTypeInfo::UnsignedSignalDeserializer).deserialize(words[0]), Value::UnsignedValue(0x1abc)));
    let signed = Type::Primitive(SignalType::SignedInt { size: 13 });
    for v in [-4096i64, -1, 0, 1, 4095] {
        let (words, _) = Value::SignedValue(v).get_as_bin(&signed);
        assert!(matches!(decoder(0, 13, SignalDeserializerTypeInfo::SignedSignalDeserializer).deserialize(words[0]), Value::SignedValue(back) if back == v));
    }
    let decimal = Type::Primitive(SignalType::Decimal { size: 13 });
    for v in [0i128, 1, 8191] {
        let (words, _) = Value::RealValue(v).get_as_bin(&decimal);
        assert!(matches!(decoder(0, 13, SignalDeserializerTypeInfo::DecimalSignalDeserializer).deserialize(words[0]), Value::RealValue(back) if back == v));
    }
    let (words, _) = Value::SignedValue(i64::MIN).get_as_bin(&Type::Primitive(SignalType::SignedInt { size: 64 }));
    assert!(matches!(decoder(0, 64, SignalDeserializerTypeInfo::SignedSignalDeserializer).deserialize(words[0]), Value::SignedValue(i64::MIN)));
}

fn halves(words: &[u64]) -> Vec<u32> {
    let mut out = Vec::new();
    for word in words {
        out.push(*word as u32);
        out.push((*word >> 32) as u32);
    }
    out
}

#[test]
fn whole_types_survive_the_round_trip() {
    let inner = Type::Struct {
        name: "inner".to_owned(),
        attribs: vec![
            plain_field("wide", Type::Primitive(SignalType::UnsignedInt { size: 64 })),
            plain_field("gear", Type::Enum { name: "gear".to_owned(), size: 3, entries: gear_entries() }),
        ],
    };
    let ty = Arc::new(Type::Struct {
        name: "outer".to_owned(),
        attribs: vec![
            plain_field("flag", Type::Primitive(SignalType::UnsignedInt { size: 1 })),
            plain_field("delta", Type::Primitive(SignalType::SignedInt { size: 17 })),
            plain_field("inner", inner),
            plain_field("level", Type::Primitive(SignalType::Decimal { size: 30 })),
        ],
    });
    let value = Value::StructValue(vec![
        cnl::frame::Attribute::new("flag", Value::UnsignedValue(1)),
        cnl::frame::Attribute::new("delta", Value::SignedValue(-65536)),
        cnl::frame::Attribute::new(
            "inner",
            Value::StructValue(vec![
                cnl::frame::Attribute::new("wide", Value::UnsignedValue(0xfedc_ba98_7654_3210)),
                cnl::frame::Attribute::new("gear", Value::EnumValue("drive".to_owned())),
            ]),
        ),
        cnl::frame::Attribute::new("level", Value::RealValue(0x3fff_ffff)),
    ]);
    let (words, last_fill) = value.get_as_bin(&ty);
    assert_eq!(words.len(), 2);
    assert_eq!(last_fill, (1 + 17 + 64 + 3 + 30) % 64);
    assert_eq!(ty.bit_size(), Some(115));
    let back = TypeDeserializer::new(&ty).deserialize(&halves(&words)).unwrap();
    assert!(matches!(back.attribute("flag"), Some(Value::UnsignedValue(1))));
    assert!(matches!(back.attribute("delta"), Some(Value::SignedValue(-65536))));
    let inner = back.attribute("inner").unwrap();
    assert!(matches!(inner.attribute("wide"), Some(Value::UnsignedValue(0xfedc_ba98_7654_3210))));
    assert!(matches!(inner.attribute("gear"), Some(Value::EnumValue(name)) if name == "drive"));
    assert!(matches!(back.attribute("level"), Some(Value::RealValue(0x3fff_ffff))));
}

#[test]
fn copies_equal_what_they_copy() {
    let value = Value::StructValue(vec![
        cnl::frame::Attribute::new("a", Value::UnsignedValue(1)),
        cnl::frame::Attribute::new("b", Value::StructValue(vec![cnl::frame::Attribute::new("c", Value::EnumValue("x".to_owned()))])),
        cnl::frame::Attribute::new("d", Value::RealValue(-3)),
        cnl::frame::Attribute::new("e", Value::SignedValue(-4)),
    ]);
    let copy = value.clone();
    assert_eq!(format!("{copy:?}"), format!("{value:?}"));
    let message = Arc::new(Message { id: MessageId::StandardId(3), name: "m".to_owned(), description: None, dlc: 1, attributes: vec![primitive("x", 0, SignalType::UnsignedInt { size: 8 })] });
    let frame = FrameDeserializer::new(&message).deserialize(0x55).unwrap();
    let copy = frame.clone();
    assert_eq!(copy.data(), 0x55);
    assert_eq!(copy.name(), "m");
    assert!(matches!(copy.attribute("x"), Some(Value::UnsignedValue(0x55))));
}
