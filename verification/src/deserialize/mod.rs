//! Decoders from raw bits to typed values.

pub mod round_trip;
pub mod signal_deserializer;
pub mod type_deserializer;

use vstd::prelude::*;

use crate::config::share;
use crate::config::EncodedField;
use crate::config::Encoding;
use crate::config::Message;
use crate::config::MessageRef;
use crate::deserialize::signal_deserializer::extract;
use crate::deserialize::signal_deserializer::extract_field;
use crate::deserialize::signal_deserializer::type_info_of;
use crate::deserialize::signal_deserializer::SignalDeserializer;
use crate::deserialize::type_deserializer::find_variant_of;
use crate::deserialize::type_deserializer::variant_of;
use crate::errors::Error;
use crate::frame::attribute_views;
use crate::frame::lemma_struct_view;
use crate::frame::Attribute;
use crate::frame::AttributeView;
use crate::frame::Frame;
use crate::frame::FrameValue;
use crate::frame::Value;
use crate::frame::ValueView;

verus! {

/// The value that an encoding reads from a payload, or `None` where an enum
/// field holds a number that none of its variants stands for.
pub open spec fn decoded_encoding(encoding: Encoding, data: u64) -> Option<ValueView>
    decreases encoding, 0nat,
{
    match encoding {
        Encoding::Primitive(signal) => Some(
            (SignalDeserializer {
                bit_size: signal.ty.width() as u32,
                bit_offset: signal.bit_offset,
                type_info: type_info_of(signal.ty),
            }).decoded(data),
        ),
        Encoding::Struct { attribs } => match decoded_parts(attribs@, data, attribs@.len()) {
            Some(attributes) => Some(ValueView::Struct(attributes)),
            None => None,
        },
        Encoding::Enum { bit_offset, size, entries } => match variant_of(
            entries@,
            extract(data, bit_offset, size as u32),
            0,
        ) {
            Some(i) => Some(ValueView::Enum(entries@[i].name@)),
            None => None,
        },
    }
}

/// The attributes that the first `n` parts of a struct encoding read from a
/// payload.
pub open spec fn decoded_parts(parts: Seq<EncodedField>, data: u64, n: nat) -> Option<Seq<AttributeView>>
    decreases parts, n,
{
    if n == 0 || n > parts.len() {
        Some(Seq::empty())
    } else {
        match (
            decoded_parts(parts, data, (n - 1) as nat),
            decoded_encoding(parts[n - 1].encoding, data),
        ) {
            (Some(front), Some(value)) => Some(
                front.push(AttributeView { name: parts[n - 1].name@, value }),
            ),
            _ => None,
        }
    }
}

/// The attributes of the frame that a message description reads from a
/// payload.
pub open spec fn decoded_message(message: Message, data: u64) -> Option<Seq<AttributeView>> {
    decoded_parts(message.attributes@, data, message.attributes@.len())
}

/// Where some parts cannot be read, more parts cannot either.
pub proof fn lemma_decoded_parts_fail(parts: Seq<EncodedField>, data: u64, m: nat, n: nat)
    requires
        m <= n <= parts.len(),
        decoded_parts(parts, data, m) is None,
    ensures
        decoded_parts(parts, data, n) is None,
    decreases n,
{
    if m < n {
        lemma_decoded_parts_fail(parts, data, m, (n - 1) as nat);
    }
}

/// Decodes the parts of a struct encoding, or the attributes of a message.
fn decode_parts(parts: &Vec<EncodedField>, data: u64) -> (decoded: Result<Vec<Attribute>, Error>)
    ensures
        decoded is Ok <==> decoded_parts(parts@, data, parts@.len()) is Some,
        decoded is Ok ==> attribute_views(decoded->Ok_0@) == decoded_parts(
            parts@,
            data,
            parts@.len(),
        )->0,
        decoded is Err ==> decoded->Err_0 == Error::UnknownEnumValue,
    decreases parts, 0nat,
{
    let mut attributes: Vec<Attribute> = Vec::new();
    let mut i: usize = 0;
    while i < parts.len()
        invariant
            i <= parts@.len(),
            decoded_parts(parts@, data, i as nat) == Some(attribute_views(attributes@)),
        decreases parts@.len() - i,
    {
        let part = &parts[i];
        match decode_encoding(&part.encoding, data) {
            Ok(value) => {
                attributes.push(Attribute { name: part.name.clone(), value });
            },
            Err(error) => {
                proof {
                    lemma_decoded_parts_fail(parts@, data, (i + 1) as nat, parts@.len());
                }
                return Err(error);
            },
        }
        i += 1;
    }
    Ok(attributes)
}

/// Decodes the value that an encoding reads from a payload.
fn decode_encoding(encoding: &Encoding, data: u64) -> (decoded: Result<Value, Error>)
    ensures
        decoded is Ok <==> decoded_encoding(*encoding, data) is Some,
        decoded is Ok ==> decoded->Ok_0@ == decoded_encoding(*encoding, data)->0,
        decoded is Err ==> decoded->Err_0 == Error::UnknownEnumValue,
    decreases encoding, 1nat,
{
    match encoding {
        Encoding::Primitive(signal) => Ok(SignalDeserializer::new(signal).deserialize(data)),
        Encoding::Struct { attribs } => {
            match decode_parts(attribs, data) {
                Ok(attributes) => {
                    proof {
                        lemma_struct_view(attributes);
                    }
                    Ok(Value::StructValue(attributes))
                },
                Err(error) => Err(error),
            }
        },
        Encoding::Enum { bit_offset, size, entries } => {
            let raw = extract_field(data, *bit_offset, *size as u32);
            match find_variant_of(entries, raw) {
                Some(i) => Ok(Value::EnumValue(entries[i].name.clone())),
                None => Err(Error::UnknownEnumValue),
            }
        },
    }
}

/// Decodes the frames of one message.
pub struct FrameDeserializer {
    pub message: MessageRef,
}

impl FrameDeserializer {
    /// The deserializer of a message.
    pub fn new(message: &MessageRef) -> (deserializer: FrameDeserializer)
        ensures
            deserializer.message == *message,
    {
        FrameDeserializer { message: share(message) }
    }

    /// Decodes a payload into a frame of this deserializer's message. The
    /// only failure is an enum field with a number that none of its variants
    /// stands for.
    pub fn deserialize(&self, data: u64) -> (decoded: Result<Frame, Error>)
        ensures
            decoded is Ok <==> decoded_message(*self.message, data) is Some,
            decoded is Ok ==> {
                &&& decoded->Ok_0.config == self.message
                &&& decoded->Ok_0.data == data
                &&& attribute_views(decoded->Ok_0.value.attributes@) == decoded_message(
                    *self.message,
                    data,
                )->0
            },
            decoded is Err ==> decoded->Err_0 == Error::UnknownEnumValue,
    {
        match decode_parts(&self.message.attributes, data) {
            Ok(attributes) => Ok(Frame::new(share(&self.message), data, FrameValue::new(attributes))),
            Err(error) => Err(error),
        }
    }
}

} // verus!
