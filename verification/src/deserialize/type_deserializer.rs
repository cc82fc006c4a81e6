//! Decoding of a whole type tree from a buffer of 32-bit words.
//!
//! The buffer is read as one stream of bits: bit `k` of the stream is bit
//! `k % 32` of word `k / 32`. The fields of a type lie in the stream one
//! behind the other, in the order of their declaration, without gaps.

use vstd::prelude::*;

use crate::bits::bit;
use crate::bits::bit_at;
use crate::bits::word_from;
use crate::config::fields_bits;
use crate::config::lemma_fields_bits_grow;
use crate::config::share;
use crate::config::type_bits;
use crate::config::Field;
use crate::config::SignalType;
use crate::config::Type;
use crate::config::TypeRef;
use crate::config::Variant;
use crate::deserialize::signal_deserializer::interpreted;
use crate::deserialize::signal_deserializer::type_info_of;
use crate::deserialize::signal_deserializer::SignalDeserializer;
use crate::deserialize::signal_deserializer::SignalDeserializerTypeInfo;
use crate::errors::Error;
use crate::frame::attribute_views;
use crate::frame::lemma_struct_view;
use crate::frame::Attribute;
use crate::frame::AttributeView;
use crate::frame::Value;
use crate::frame::ValueView;

verus! {

/// Bit `k` of the stream that a buffer of words forms. Behind the buffer's
/// end the stream reads as clear bits.
pub open spec fn stream_bit(words: Seq<u32>, k: int) -> bool {
    0 <= k < 32 * words.len() && bit(words[k / 32] as u64, k % 32)
}

/// The `size` bits of the stream from position `offset` on.
pub open spec fn stream_bits(words: Seq<u32>, offset: nat, size: nat) -> Seq<bool> {
    Seq::new(size, |i: int| stream_bit(words, offset + i))
}

/// The field of `size` bits at position `offset` of the stream, read as a
/// number, least significant bit first. A field has at most 64 bits.
pub open spec fn field_at(words: Seq<u32>, offset: nat, size: nat) -> u64 {
    word_from(stream_bits(words, offset, size), size)
}

/// The position of the first variant that stands for `value`, at or behind
/// `from`.
pub open spec fn variant_of(entries: Seq<Variant>, value: u64, from: int) -> Option<int>
    decreases entries.len() - from,
{
    if from < 0 || from >= entries.len() {
        None
    } else if entries[from].value == value {
        Some(from)
    } else {
        variant_of(entries, value, from + 1)
    }
}

/// What a found position says: no variant before it stands for the value, and
/// the one at it does.
pub proof fn lemma_variant_of(entries: Seq<Variant>, value: u64, from: int)
    requires
        0 <= from,
    ensures
        match variant_of(entries, value, from) {
            Some(i) => {
                &&& from <= i < entries.len()
                &&& entries[i].value == value
                &&& forall|j: int| from <= j < i ==> entries[j].value != value
            },
            None => forall|j: int| from <= j < entries.len() ==> entries[j].value != value,
        },
    decreases entries.len() - from,
{
    if from < entries.len() && entries[from].value != value {
        lemma_variant_of(entries, value, from + 1);
    }
}

/// The value that a type reads from the stream at `offset`, or `None` where
/// an enum field holds a number that none of its variants stands for.
pub open spec fn decoded_type(ty: Type, words: Seq<u32>, offset: nat) -> Option<ValueView>
    decreases ty, 0nat,
{
    match ty {
        Type::Primitive(kind) => Some(
            interpreted(
                type_info_of(kind),
                kind.width() as u32,
                field_at(words, offset, kind.width() as nat),
            ),
        ),
        Type::Struct { attribs, .. } => match decoded_fields(
            attribs@,
            words,
            offset,
            attribs@.len(),
        ) {
            Some(attributes) => Some(ValueView::Struct(attributes)),
            None => None,
        },
        Type::Enum { size, entries, .. } => match variant_of(
            entries@,
            field_at(words, offset, size as nat),
            0,
        ) {
            Some(i) => Some(ValueView::Enum(entries@[i].name@)),
            None => None,
        },
    }
}

/// The attributes that the first `n` fields of a struct type read from the
/// stream, the first field at `offset` and each next one behind the one
/// before it.
pub open spec fn decoded_fields(fields: Seq<Field>, words: Seq<u32>, offset: nat, n: nat) -> Option<
    Seq<AttributeView>,
>
    decreases fields, n,
{
    if n == 0 || n > fields.len() {
        Some(Seq::empty())
    } else {
        match (
            decoded_fields(fields, words, offset, (n - 1) as nat),
            decoded_type(fields[n - 1].ty, words, offset + fields_bits(fields, (n - 1) as nat)),
        ) {
            (Some(front), Some(value)) => Some(
                front.push(AttributeView { name: fields[n - 1].name@, value }),
            ),
            _ => None,
        }
    }
}

/// Where some fields cannot be read, more fields cannot either.
pub proof fn lemma_decoded_fields_fail(fields: Seq<Field>, words: Seq<u32>, offset: nat, m: nat, n: nat)
    requires
        m <= n <= fields.len(),
        decoded_fields(fields, words, offset, m) is None,
    ensures
        decoded_fields(fields, words, offset, n) is None,
    decreases n,
{
    if m < n {
        lemma_decoded_fields_fail(fields, words, offset, m, (n - 1) as nat);
    }
}

/// Reads the field of `size` bits at `offset` from the words.
pub fn read_field(words: &[u32], offset: u32, size: u8) -> (raw: u64)
    ensures
        raw == field_at(words@, offset as nat, size as nat),
{
    let ghost bits = stream_bits(words@, offset as nat, size as nat);
    let mut raw: u64 = 0;
    let mut i: u8 = 0;
    while i < size
        invariant
            i <= size,
            bits == stream_bits(words@, offset as nat, size as nat),
            raw == word_from(bits, i as nat),
        decreases size - i,
    {
        if i < 64 {
            let k: u64 = offset as u64 + i as u64;
            let w: u64 = k / 32;
            if w < words.len() as u64 {
                let word = words[w as usize] as u64;
                if bit_at(word, (k % 32) as u32) {
                    raw = raw | (1u64 << i);
                }
            }
        }
        i += 1;
    }
    raw
}

/// Finds the first variant of an enum type that stands for a number.
pub(crate) fn find_variant_of(entries: &Vec<Variant>, value: u64) -> (found: Option<usize>)
    ensures
        found is Some <==> variant_of(entries@, value, 0) is Some,
        found is Some ==> found->0 < entries@.len() && variant_of(entries@, value, 0) == Some(
            found->0 as int,
        ),
{
    let mut i: usize = 0;
    while i < entries.len()
        invariant
            i <= entries@.len(),
            variant_of(entries@, value, 0) == variant_of(entries@, value, i as int),
        decreases entries@.len() - i,
    {
        if entries[i].value == value {
            return Some(i);
        }
        i += 1;
    }
    None
}

/// Decodes a value of a type from the words, the type's first bit at
/// `offset`. Beside the value it gives the position behind the type's last
/// bit.
fn decode_at(ty: &Type, words: &[u32], offset: u32) -> (decoded: Result<(Value, u32), Error>)
    requires
        offset + type_bits(*ty) <= u32::MAX,
    ensures
        decoded is Ok <==> decoded_type(*ty, words@, offset as nat) is Some,
        decoded is Ok ==> {
            &&& decoded->Ok_0.0@ == decoded_type(*ty, words@, offset as nat)->0
            &&& decoded->Ok_0.1 == offset + type_bits(*ty)
        },
        decoded is Err ==> decoded->Err_0 == Error::UnknownEnumValue,
    decreases ty,
{
    match ty {
        Type::Primitive(kind) => {
            let size = kind.size();
            let raw = read_field(words, offset, size);
            let leaf = SignalDeserializer {
                bit_size: size as u32,
                bit_offset: offset,
                type_info: match kind {
                    SignalType::UnsignedInt { size: _ } => SignalDeserializerTypeInfo::UnsignedSignalDeserializer,
                    SignalType::SignedInt { size: _ } => SignalDeserializerTypeInfo::SignedSignalDeserializer,
                    SignalType::Decimal { size: _ } => SignalDeserializerTypeInfo::DecimalSignalDeserializer,
                },
            };
            Ok((leaf.interpret(raw), offset + size as u32))
        },
        Type::Struct { name: _, attribs } => {
            let mut attributes: Vec<Attribute> = Vec::new();
            let mut at: u32 = offset;
            let mut i: usize = 0;
            while i < attribs.len()
                invariant
                    i <= attribs@.len(),
                    *ty == (Type::Struct { name: ty->Struct_name, attribs: *attribs }),
                    offset + fields_bits(attribs@, attribs@.len()) <= u32::MAX,
                    at == offset + fields_bits(attribs@, i as nat),
                    decoded_fields(attribs@, words@, offset as nat, i as nat) == Some(
                        attribute_views(attributes@),
                    ),
                decreases attribs@.len() - i,
            {
                proof {
                    lemma_fields_bits_grow(attribs@, (i + 1) as nat, attribs@.len());
                }
                let field = &attribs[i];
                match decode_at(&field.ty, words, at) {
                    Ok((value, next)) => {
                        attributes.push(Attribute { name: field.name.clone(), value });
                        at = next;
                    },
                    Err(error) => {
                        proof {
                            lemma_decoded_fields_fail(
                                attribs@,
                                words@,
                                offset as nat,
                                (i + 1) as nat,
                                attribs@.len(),
                            );
                        }
                        return Err(error);
                    },
                }
                i += 1;
            }
            proof {
                lemma_struct_view(attributes);
            }
            Ok((Value::StructValue(attributes), at))
        },
        Type::Enum { name: _, size, entries } => {
            let raw = read_field(words, offset, *size);
            match find_variant_of(entries, raw) {
                Some(i) => Ok((Value::EnumValue(entries[i].name.clone()), offset + *size as u32)),
                None => Err(Error::UnknownEnumValue),
            }
        },
    }
}

/// Decodes values of one type from buffers of 32-bit words.
pub struct TypeDeserializer {
    pub ty: TypeRef,
}

impl TypeDeserializer {
    /// The deserializer of a type. The type's bits must be countable in 32
    /// bits.
    pub fn new(ty: &TypeRef) -> (deserializer: TypeDeserializer)
        requires
            type_bits(**ty) <= u32::MAX,
        ensures
            deserializer.ty == *ty,
    {
        TypeDeserializer { ty: share(ty) }
    }

    /// Whether this deserializer was made for a type whose bits are countable
    /// in 32 bits.
    pub open spec fn wf(self) -> bool {
        type_bits(*self.ty) <= u32::MAX
    }

    /// The value that this deserializer reads from a buffer.
    pub open spec fn decoded(self, words: Seq<u32>) -> Option<ValueView> {
        decoded_type(*self.ty, words, 0)
    }

    /// Decodes the value that the words hold. The only failure is an enum
    /// field with a number that none of its variants stands for.
    pub fn deserialize(&self, words: &[u32]) -> (decoded: Result<Value, Error>)
        requires
            self.wf(),
        ensures
            decoded is Ok <==> self.decoded(words@) is Some,
            decoded is Ok ==> decoded->Ok_0@ == self.decoded(words@)->0,
            decoded is Err ==> decoded->Err_0 == Error::UnknownEnumValue,
    {
        match decode_at(&self.ty, words, 0) {
            Ok((value, _)) => Ok(value),
            Err(error) => Err(error),
        }
    }
}

} // verus!
