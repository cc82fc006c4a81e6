//! What encoding and decoding have to do with each other.

use vstd::prelude::*;

use crate::bits::bit;
use crate::bits::lemma_bits_determine;
use crate::bits::lemma_mask_bits;
use crate::bits::lemma_masked_bit;
use crate::bits::lemma_shifted_bit;
use crate::bits::lemma_word_from_bit;
use crate::bits::low_bits;
use crate::bits::low_mask;
use crate::bits::packed;
use crate::bits::repeated;
use crate::bits::lemma_word_from_low_bits;
use crate::config::fields_bits;
use crate::config::type_bits;
use crate::config::Field;
use crate::config::SignalType;
use crate::config::Type;
use crate::deserialize::type_deserializer::decoded_fields;
use crate::deserialize::type_deserializer::decoded_type;
use crate::deserialize::type_deserializer::stream_bit;
use crate::deserialize::type_deserializer::stream_bits;
use crate::deserialize::type_deserializer::variant_of;
use crate::frame::encode::encoded_pairwise;
use crate::frame::encode::lemma_variant_index;
use crate::frame::encode::variant_index;
use crate::frame::AttributeView;
use crate::deserialize::signal_deserializer::extract;
use crate::deserialize::signal_deserializer::sign_extended;
use crate::deserialize::signal_deserializer::type_info_of;
use crate::deserialize::signal_deserializer::SignalDeserializer;
use crate::frame::encode::clamped;
use crate::frame::encode::encoded;
use crate::frame::ValueView;

verus! {

/// Whether a field of a kind can carry a value without loss: an unsigned
/// number or a step count that is at most the field's largest number, a signed
/// number within the two's complement range of the field's width.
pub open spec fn representable(value: ValueView, kind: SignalType) -> bool {
    match (value, kind) {
        (ValueView::Unsigned(v), SignalType::UnsignedInt { size }) => v <= low_mask(size as int),
        (ValueView::Signed(v), SignalType::SignedInt { size }) => {
            &&& size >= 1
            &&& -low_mask(size - 1) - 1 <= v <= low_mask(size - 1)
        },
        (ValueView::Real(steps), SignalType::Decimal { size }) => 0 <= steps <= low_mask(size as int),
        _ => false,
    }
}

/// The number whose low bits a value of a kind is encoded by.
pub open spec fn raw_of(value: ValueView, kind: SignalType) -> u64 {
    match value {
        ValueView::Unsigned(v) => v,
        ValueView::Signed(v) => v as u64,
        ValueView::Real(steps) => clamped(steps, kind.width()),
        _ => 0,
    }
}

/// A decimal above the range of its field is encoded as all ones, and one
/// below zero as all zeros.
pub proof fn lemma_decimal_clamp(steps: int, size: u8)
    requires
        size <= 64,
    ensures
        steps > low_mask(size as int) ==> encoded(
            ValueView::Real(steps),
            Type::Primitive(SignalType::Decimal { size }),
        ) == repeated(true, size as nat),
        steps < 0 ==> encoded(ValueView::Real(steps), Type::Primitive(SignalType::Decimal { size }))
            == repeated(false, size as nat),
{
    let bits = encoded(ValueView::Real(steps), Type::Primitive(SignalType::Decimal { size }));
    if steps < 0 {
        assert forall|i: int| 0 <= i < size implies bits[i] == false by {
            lemma_mask_bits(0, i);
        }
    } else if steps > low_mask(size as int) {
        assert forall|i: int| 0 <= i < size implies bits[i] == true by {
            lemma_mask_bits(size as int, i);
        }
    }
}

/// A number that is at most a low-bit mask passes the mask unchanged.
proof fn lemma_mask_keeps(x: u64, n: int)
    requires
        0 <= n <= 64,
        x <= low_mask(n),
    ensures
        x & low_mask(n) == x,
{
    let m = low_mask(n);
    if n == 64 {
        assert(x & u64::MAX == x) by (bit_vector);
    } else if n == 0 {
        assert(0u64 & 0u64 == 0u64) by (bit_vector);
    } else {
        let nu = n as u64;
        assert(x & m == x) by (bit_vector)
            requires
                0 < nu < 64,
                m == ((1u64 << nu) - 1) as u64,
                x <= m,
        ;
    }
}

/// Sign extension gives back a signed number from its low bits, where the
/// number is in the two's complement range of the width.
proof fn lemma_sign_extension(v: i64, size: u32)
    requires
        1 <= size <= 64,
        -low_mask(size - 1) - 1 <= v <= low_mask(size - 1),
    ensures
        sign_extended((v as u64) & low_mask(size as int), size) == v,
{
    let raw = v as u64;
    let m = low_mask(size as int);
    let half = low_mask(size - 1);
    if size == 64 {
        assert(raw & u64::MAX == raw) by (bit_vector);
        assert(raw as i64 == v) by (bit_vector)
            requires
                raw == v as u64,
        ;
    } else {
        let s = size as u64;
        let field = raw & m;
        assert({
            &&& ((field >> ((s - 1) as u64)) & 1 == 1) ==> (field | !m) as i64 == v
            &&& !((field >> ((s - 1) as u64)) & 1 == 1) ==> field as i64 == v
        }) by (bit_vector)
            requires
                0 < s < 64,
                raw == v as u64,
                m == ((1u64 << s) - 1) as u64,
                half == (if s == 1 { 0u64 } else { ((1u64 << ((s - 1) as u64)) - 1) as u64 }),
                field == raw & m,
                -half - 1 <= v,
                v <= half,
        ;
    }
}

/// Decoding gives back what was encoded: a value that a field of some kind
/// can carry is encoded into one word, and the field at the start of that word
/// decodes to the value.
pub proof fn lemma_primitive_round_trip(value: ValueView, kind: SignalType)
    requires
        1 <= kind.width() <= 64,
        representable(value, kind),
    ensures
        packed(encoded(value, Type::Primitive(kind))).len() == 1,
        (SignalDeserializer {
            bit_size: kind.width() as u32,
            bit_offset: 0,
            type_info: type_info_of(kind),
        }).decoded(packed(encoded(value, Type::Primitive(kind)))[0]) == value,
{
    let size = kind.width();
    let raw = raw_of(value, kind);
    let bits = encoded(value, Type::Primitive(kind));
    let word = packed(bits)[0];
    assert(bits.skip(0) =~= bits);
    let field = extract(word, 0, size as u32);
    let masked = raw & low_mask(size as int);
    assert forall|i: int| 0 <= i < 64 implies bit(field, i) == bit(masked, i) by {
        lemma_masked_bit(word >> 0u64, size as int, i);
        lemma_shifted_bit(word, 0, i);
        lemma_word_from_bit(bits, 64, i);
        lemma_masked_bit(raw, size as int, i);
    }
    lemma_bits_determine(field, masked);
    match value {
        ValueView::Unsigned(v) => {
            lemma_mask_keeps(v, size as int);
        },
        ValueView::Signed(v) => {
            lemma_sign_extension(v, size as u32);
        },
        ValueView::Real(steps) => {
            lemma_mask_keeps(steps as u64, size as int);
        },
        _ => {},
    }
}

/// Whether a type describes a value exactly and can carry it without loss:
/// each scalar is one that its field can carry, each struct has the fields of
/// its type under their names, and each enum value names a variant whose
/// number fits the field and stands for no earlier variant.
pub open spec fn carried(value: ValueView, ty: Type) -> bool
    decreases value, 0nat,
{
    match (value, ty) {
        (ValueView::Struct(attributes), Type::Struct { attribs, .. }) => {
            &&& attributes.len() == attribs@.len()
            &&& carried_pairwise(attributes, attribs@, attributes.len())
        },
        (ValueView::Enum(name), Type::Enum { size, entries, .. }) => {
            &&& size <= 64
            &&& match variant_index(entries@, name, 0) {
                Some(i) => {
                    &&& entries@[i].value <= low_mask(size as int)
                    &&& variant_of(entries@, entries@[i].value, 0) == Some(i)
                },
                None => false,
            }
        },
        (_, Type::Primitive(kind)) => {
            &&& kind.width() <= 64
            &&& representable(value, kind)
        },
        _ => false,
    }
}

/// Whether each of the first `n` attributes carries the name of the field at
/// its position and is carried by the field's type.
pub open spec fn carried_pairwise(attributes: Seq<AttributeView>, fields: Seq<Field>, n: nat) -> bool
    decreases attributes, n,
{
    if n == 0 || n > attributes.len() || n > fields.len() {
        true
    } else {
        &&& carried_pairwise(attributes, fields, (n - 1) as nat)
        &&& attributes[n - 1].name == fields[n - 1].name@
        &&& carried(attributes[n - 1].value, fields[n - 1].ty)
    }
}

/// Decoding gives back what was encoded, for whole types: where the stream
/// of a word buffer holds the bits of a value at `offset`, and the type carries
/// the value, the type reads that value from the buffer at `offset`. The value
/// then has as many bits as its type.
pub proof fn lemma_type_round_trip(value: ValueView, ty: Type, words: Seq<u32>, offset: nat)
    requires
        carried(value, ty),
        forall|k: int|
            0 <= k < encoded(value, ty).len() ==> stream_bit(words, offset + k) == encoded(
                value,
                ty,
            )[k],
    ensures
        decoded_type(ty, words, offset) == Some(value),
        encoded(value, ty).len() == type_bits(ty),
    decreases value, 0nat,
{
    let bits = encoded(value, ty);
    match ty {
        Type::Primitive(kind) => {
            let size = kind.width();
            let raw = raw_of(value, kind);
            assert(stream_bits(words, offset, size as nat) =~= low_bits(raw, size as nat));
            lemma_word_from_low_bits(raw, size as nat);
            match value {
                ValueView::Unsigned(v) => {
                    lemma_mask_keeps(v, size as int);
                },
                ValueView::Signed(v) => {
                    lemma_sign_extension(v, size as u32);
                },
                ValueView::Real(steps) => {
                    lemma_mask_keeps(steps as u64, size as int);
                },
                _ => {},
            }
        },
        Type::Struct { attribs, .. } => {
            let attributes = value->Struct_0;
            lemma_fields_round_trip(attributes, attribs@, words, offset, attributes.len());
            assert(attributes.take(attributes.len() as int) =~= attributes);
        },
        Type::Enum { size, entries, .. } => {
            let name = value->Enum_0;
            lemma_variant_index(entries@, name, 0);
            let i = variant_index(entries@, name, 0)->0;
            let raw = entries@[i].value;
            assert(stream_bits(words, offset, size as nat) =~= low_bits(raw, size as nat));
            lemma_word_from_low_bits(raw, size as nat);
            lemma_mask_keeps(raw, size as int);
        },
    }
}

/// The round trip for the first `n` fields of a struct.
pub proof fn lemma_fields_round_trip(
    attributes: Seq<AttributeView>,
    fields: Seq<Field>,
    words: Seq<u32>,
    offset: nat,
    n: nat,
)
    requires
        n <= attributes.len(),
        n <= fields.len(),
        carried_pairwise(attributes, fields, n),
        forall|k: int|
            0 <= k < encoded_pairwise(attributes, fields, n).len() ==> stream_bit(words, offset + k)
                == encoded_pairwise(attributes, fields, n)[k],
    ensures
        decoded_fields(fields, words, offset, n) == Some(attributes.take(n as int)),
        encoded_pairwise(attributes, fields, n).len() == fields_bits(fields, n),
    decreases attributes, n,
{
    if n > 0 {
        let front = encoded_pairwise(attributes, fields, (n - 1) as nat);
        let last = encoded(attributes[n - 1].value, fields[n - 1].ty);
        let all = encoded_pairwise(attributes, fields, n);
        assert forall|k: int| 0 <= k < front.len() implies stream_bit(words, offset + k)
            == front[k] by {
            assert(all[k] == front[k]);
        }
        lemma_fields_round_trip(attributes, fields, words, offset, (n - 1) as nat);
        let at = offset + fields_bits(fields, (n - 1) as nat);
        assert forall|k: int| 0 <= k < last.len() implies stream_bit(words, at + k) == last[k] by {
            assert(all[front.len() + k] == last[k]);
        }
        lemma_type_round_trip(attributes[n - 1].value, fields[n - 1].ty, words, at);
    }
}

/// The 32-bit halves of 64-bit words, the low half of each word first.
pub open spec fn halves(words: Seq<u64>) -> Seq<u32> {
    Seq::new(
        2 * words.len(),
        |i: int|
            if i % 2 == 0 {
                (words[i / 2] & 0xffff_ffff) as u32
            } else {
                (words[i / 2] >> 32) as u32
            },
    )
}

/// The halves of packed bits form the stream of those bits.
pub proof fn lemma_halves_stream(bits: Seq<bool>, k: int)
    requires
        0 <= k < bits.len(),
    ensures
        stream_bit(halves(packed(bits)), k) == bits[k],
{
    let words = packed(bits);
    let at = k / 64;
    let j = k % 64;
    let word = words[at];
    lemma_word_from_bit(bits.skip(64 * at), 64, j);
    let ju = j as u64;
    if j < 32 {
        assert((((word & 0xffff_ffff) as u32 as u64) >> ju) & 1 == (word >> ju) & 1) by (bit_vector)
            requires
                ju < 32,
        ;
    } else {
        let lu = (j - 32) as u64;
        assert((((word >> 32) as u32 as u64) >> lu) & 1 == (word >> ju) & 1) by (bit_vector)
            requires
                32 <= ju < 64,
                lu == ju - 32,
        ;
    }
}

/// Decoding gives back what was encoded, from end to end: the words that
/// encoding a value gives, cut into their halves, decode to the value, where
/// the type carries it.
pub proof fn lemma_encode_decode(value: ValueView, ty: Type)
    requires
        carried(value, ty),
    ensures
        decoded_type(ty, halves(packed(encoded(value, ty))), 0) == Some(value),
{
    let bits = encoded(value, ty);
    assert forall|k: int| 0 <= k < bits.len() implies stream_bit(halves(packed(bits)), 0 + k)
        == bits[k] by {
        lemma_halves_stream(bits, k);
    }
    lemma_type_round_trip(value, ty, halves(packed(bits)), 0);
}

} // verus!
