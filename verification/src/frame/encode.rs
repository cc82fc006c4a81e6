//! Encoding of typed values into the bits that go on the wire.

use vstd::prelude::*;

use crate::bit_buffer::held_bits;
use crate::bit_buffer::max_bits;
use crate::bit_buffer::padding_len;
use crate::bit_buffer::BitBuffer;
use crate::bits::bit;
use crate::bits::bit_at;
use crate::bits::lemma_bits_determine;
use crate::bits::lemma_word_from_bit;
use crate::bits::low_bits;
use crate::bits::low_mask;
use crate::bits::mask_of;
use crate::bits::packed;
use crate::bits::repeated;
use crate::bits::word_from;
use crate::config::Field;
use crate::config::SignalType;
use crate::config::Type;
use crate::config::Variant;
use crate::frame::attribute_views;
use crate::frame::lemma_struct_view;
use crate::frame::AttributeView;
use crate::frame::Value;
use crate::frame::ValueView;

verus! {

/// The position of the first variant called `name` at or behind `from`.
pub open spec fn variant_index(entries: Seq<Variant>, name: Seq<char>, from: int) -> Option<int>
    decreases entries.len() - from,
{
    if from < 0 || from >= entries.len() {
        None
    } else if entries[from].name@ == name {
        Some(from)
    } else {
        variant_index(entries, name, from + 1)
    }
}

/// What a found position says: no variant before it carries the name, and
/// the one at it does.
pub proof fn lemma_variant_index(entries: Seq<Variant>, name: Seq<char>, from: int)
    requires
        0 <= from,
    ensures
        match variant_index(entries, name, from) {
            Some(i) => {
                &&& from <= i < entries.len()
                &&& entries[i].name@ == name
                &&& forall|j: int| from <= j < i ==> entries[j].name@ != name
            },
            None => forall|j: int| from <= j < entries.len() ==> entries[j].name@ != name,
        },
    decreases entries.len() - from,
{
    if from < entries.len() && entries[from].name@ != name {
        lemma_variant_index(entries, name, from + 1);
    }
}

/// The number that a decimal field of `size` bits carries for `steps`: the
/// step count itself where it fits, zero below, all ones above.
pub open spec fn clamped(steps: int, size: u8) -> u64 {
    if steps < 0 {
        0
    } else if steps > low_mask(size as int) {
        low_mask(size as int)
    } else {
        steps as u64
    }
}

/// Whether a value has the shape that a type asks for, so that it can be
/// encoded: kinds agree level by level, no field is wider than 64 bits, and
/// each enum value names a variant of its type. Struct attributes are paired
/// with the type's fields by position; what one side has beyond the other is
/// ignored.
pub open spec fn conforms(value: ValueView, ty: Type) -> bool
    decreases value, 0nat,
{
    match (value, ty) {
        (ValueView::Unsigned(_), Type::Primitive(SignalType::UnsignedInt { size })) => size <= 64,
        (ValueView::Signed(_), Type::Primitive(SignalType::SignedInt { size })) => size <= 64,
        (ValueView::Real(_), Type::Primitive(SignalType::Decimal { size })) => size <= 64,
        (ValueView::Struct(attributes), Type::Struct { attribs, .. }) => conform_pairwise(
            attributes,
            attribs@,
            paired(attributes, attribs@),
        ),
        (ValueView::Enum(name), Type::Enum { size, entries, .. }) => size <= 64 && variant_index(
            entries@,
            name,
            0,
        ) is Some,
        _ => false,
    }
}

/// The number of attribute and field pairs that a struct value and a struct
/// type form.
pub open spec fn paired(attributes: Seq<AttributeView>, fields: Seq<Field>) -> nat {
    if attributes.len() <= fields.len() {
        attributes.len()
    } else {
        fields.len()
    }
}

/// Whether each of the first `n` attributes conforms to the field at its
/// position.
pub open spec fn conform_pairwise(attributes: Seq<AttributeView>, fields: Seq<Field>, n: nat) -> bool
    decreases attributes, n,
{
    if n == 0 || n > attributes.len() || n > fields.len() {
        true
    } else {
        conform_pairwise(attributes, fields, (n - 1) as nat) && conforms(
            attributes[n - 1].value,
            fields[n - 1].ty,
        )
    }
}

/// The bits that stand for a value of a type, in the order in which they go
/// on the wire.
///
/// An integer gives the low bits of its two's complement form, least
/// significant first, as many as the field is wide. A decimal gives the bits of
/// its clamped step count. A struct gives the bits of its attributes, one after
/// the other. An enum value gives the bits of the number of the first variant
/// that carries its name.
pub open spec fn encoded(value: ValueView, ty: Type) -> Seq<bool>
    decreases value, 0nat,
{
    match (value, ty) {
        (ValueView::Unsigned(v), Type::Primitive(SignalType::UnsignedInt { size })) => low_bits(
            v,
            size as nat,
        ),
        (ValueView::Signed(v), Type::Primitive(SignalType::SignedInt { size })) => low_bits(
            v as u64,
            size as nat,
        ),
        (ValueView::Real(steps), Type::Primitive(SignalType::Decimal { size })) => low_bits(
            clamped(steps, size),
            size as nat,
        ),
        (ValueView::Struct(attributes), Type::Struct { attribs, .. }) => encoded_pairwise(
            attributes,
            attribs@,
            paired(attributes, attribs@),
        ),
        (ValueView::Enum(name), Type::Enum { size, entries, .. }) => match variant_index(
            entries@,
            name,
            0,
        ) {
            Some(i) => low_bits(entries@[i].value, size as nat),
            None => Seq::empty(),
        },
        _ => Seq::empty(),
    }
}

/// The bits of the first `n` attributes, each encoded against the field at its
/// position.
pub open spec fn encoded_pairwise(attributes: Seq<AttributeView>, fields: Seq<Field>, n: nat) -> Seq<bool>
    decreases attributes, n,
{
    if n == 0 || n > attributes.len() || n > fields.len() {
        Seq::empty()
    } else {
        encoded_pairwise(attributes, fields, (n - 1) as nat) + encoded(
            attributes[n - 1].value,
            fields[n - 1].ty,
        )
    }
}

/// Each of the first `n` pairs conforms where all of them do.
pub proof fn lemma_conform_pairwise(attributes: Seq<AttributeView>, fields: Seq<Field>, n: nat, i: int)
    requires
        n <= attributes.len(),
        n <= fields.len(),
        conform_pairwise(attributes, fields, n),
        0 <= i < n,
    ensures
        conforms(attributes[i].value, fields[i].ty),
    decreases n,
{
    if i < n - 1 {
        lemma_conform_pairwise(attributes, fields, (n - 1) as nat, i);
    }
}

/// The bits of fewer pairs are no more than the bits of more pairs.
pub proof fn lemma_encoded_pairwise_grows(
    attributes: Seq<AttributeView>,
    fields: Seq<Field>,
    m: nat,
    n: nat,
)
    requires
        m <= n,
        n <= attributes.len(),
        n <= fields.len(),
    ensures
        encoded_pairwise(attributes, fields, m).len() <= encoded_pairwise(attributes, fields, n).len(),
    decreases n,
{
    if m < n {
        lemma_encoded_pairwise_grows(attributes, fields, m, (n - 1) as nat);
    }
}

/// Finds the first variant of an enum type that carries a name.
pub(crate) fn find_variant(entries: &Vec<Variant>, name: &String) -> (found: Option<usize>)
    ensures
        found is Some <==> variant_index(entries@, name@, 0) is Some,
        found is Some ==> found->0 < entries@.len() && variant_index(entries@, name@, 0) == Some(
            found->0 as int,
        ),
{
    let mut i: usize = 0;
    while i < entries.len()
        invariant
            i <= entries@.len(),
            variant_index(entries@, name@, 0) == variant_index(entries@, name@, i as int),
        decreases entries@.len() - i,
    {
        if entries[i].name == *name {
            return Some(i);
        }
        i += 1;
    }
    None
}

/// Appends the `size` low bits of `x`, least significant first.
fn push_low_bits(bit_vec: &mut BitBuffer, x: u64, size: u8)
    requires
        size <= 64,
        held_bits(*old(bit_vec)).len() + size <= max_bits(),
    ensures
        held_bits(*final(bit_vec)) == held_bits(*old(bit_vec)) + low_bits(x, size as nat),
{
    let mut i: u8 = 0;
    while i < size
        invariant
            i <= size <= 64,
            held_bits(*old(bit_vec)).len() + size <= max_bits(),
            held_bits(*bit_vec) == held_bits(*old(bit_vec)) + low_bits(x, i as nat),
        decreases size - i,
    {
        let b = bit_at(x, i as u32);
        bit_vec.push(b);
        i += 1;
    }
}

/// Appends the bits of `value`, encoded against `ty`.
fn continue_get_as_bin(value: &Value, ty: &Type, bit_vec: &mut BitBuffer)
    requires
        conforms(value@, *ty),
        held_bits(*old(bit_vec)).len() + encoded(value@, *ty).len() <= max_bits(),
    ensures
        held_bits(*final(bit_vec)) == held_bits(*old(bit_vec)) + encoded(value@, *ty),
    decreases value,
{
    match value {
        Value::UnsignedValue(val) => match ty {
            Type::Primitive(SignalType::UnsignedInt { size }) => {
                push_low_bits(bit_vec, *val, *size);
            },
            _ => {},
        },
        Value::SignedValue(val) => match ty {
            Type::Primitive(SignalType::SignedInt { size }) => {
                push_low_bits(bit_vec, #[verifier::truncate] (*val as u64), *size);
            },
            _ => {},
        },
        Value::RealValue(val) => match ty {
            Type::Primitive(SignalType::Decimal { size }) => {
                let all_ones = mask_of(*size as u32);
                let base_bits: u64 = if *val < 0 {
                    0
                } else if *val > all_ones as i128 {
                    all_ones
                } else {
                    *val as u64
                };
                push_low_bits(bit_vec, base_bits, *size);
            },
            _ => {},
        },
        Value::StructValue(value_attributes) => match ty {
            Type::Struct { name: _, attribs: struct_attributes } => {
                let n = if value_attributes.len() <= struct_attributes.len() {
                    value_attributes.len()
                } else {
                    struct_attributes.len()
                };
                let ghost views = attribute_views(value_attributes@);
                proof {
                    lemma_struct_view(*value_attributes);
                }
                let mut i: usize = 0;
                while i < n
                    invariant
                        i <= n,
                        *value == Value::StructValue(*value_attributes),
                        n == paired(views, struct_attributes@),
                        views == attribute_views(value_attributes@),
                        conform_pairwise(views, struct_attributes@, n as nat),
                        held_bits(*old(bit_vec)).len() + encoded_pairwise(
                            views,
                            struct_attributes@,
                            n as nat,
                        ).len() <= max_bits(),
                        held_bits(*bit_vec) == held_bits(*old(bit_vec)) + encoded_pairwise(
                            views,
                            struct_attributes@,
                            i as nat,
                        ),
                    decreases n - i,
                {
                    proof {
                        assert(decreases_to!(*value => value->StructValue_0));
                        lemma_conform_pairwise(views, struct_attributes@, n as nat, i as int);
                        lemma_encoded_pairwise_grows(
                            views,
                            struct_attributes@,
                            (i + 1) as nat,
                            n as nat,
                        );
                    }
                    continue_get_as_bin(&value_attributes[i].value, &struct_attributes[i].ty, bit_vec);
                    i += 1;
                }
            },
            _ => {},
        },
        Value::EnumValue(variant_name) => match ty {
            Type::Enum { name: _, size, entries } => {
                let found = find_variant(entries, variant_name);
                match found {
                    Some(i) => {
                        push_low_bits(bit_vec, entries[i].value, *size);
                    },
                    None => {},
                }
            },
            _ => {},
        },
    }
}

/// Storage words whose bits are `bits` followed by clear padding are the
/// packed form of `bits`.
proof fn lemma_storage_is_packed(bits: Seq<bool>, words: Seq<u64>)
    requires
        words.len() * 64 == bits.len() + padding_len(bits.len()),
        forall|k: int, j: int|
            0 <= k < words.len() && 0 <= j < 64 ==> #[trigger] bit(words[k], j) == (bits + repeated(
                false,
                padding_len(bits.len()),
            ))[64 * k + j],
    ensures
        words == packed(bits),
{
    assert forall|k: int| 0 <= k < words.len() implies words[k] == packed(bits)[k] by {
        let w = word_from(bits.skip(64 * k), 64);
        assert forall|j: int| 0 <= j < 64 implies bit(words[k], j) == bit(w, j) by {
            lemma_word_from_bit(bits.skip(64 * k), 64, j);
        }
        lemma_bits_determine(words[k], w);
    }
}

impl Value {
    /// The number of bits that encoding this value against `ty` gives, or
    /// `None` where the value does not conform to the type or has more bits
    /// than a bit buffer can hold.
    pub fn bit_len(&self, ty: &Type) -> (len: Option<usize>)
        ensures
            len is Some <==> conforms(self@, *ty) && encoded(self@, *ty).len() <= max_bits(),
            len is Some ==> len->0 == encoded(self@, *ty).len(),
        decreases self,
    {
        match self {
            Value::UnsignedValue(_) => match ty {
                Type::Primitive(SignalType::UnsignedInt { size }) => width_if_valid(*size),
                _ => None,
            },
            Value::SignedValue(_) => match ty {
                Type::Primitive(SignalType::SignedInt { size }) => width_if_valid(*size),
                _ => None,
            },
            Value::RealValue(_) => match ty {
                Type::Primitive(SignalType::Decimal { size }) => width_if_valid(*size),
                _ => None,
            },
            Value::StructValue(value_attributes) => match ty {
                Type::Struct { name: _, attribs: struct_attributes } => {
                    let n = if value_attributes.len() <= struct_attributes.len() {
                        value_attributes.len()
                    } else {
                        struct_attributes.len()
                    };
                    let ghost views = attribute_views(value_attributes@);
                    proof {
                        lemma_struct_view(*value_attributes);
                    }
                    let mut total: usize = 0;
                    let mut i: usize = 0;
                    while i < n
                        invariant
                            i <= n,
                            *self == Value::StructValue(*value_attributes),
                            self@ == ValueView::Struct(views),
                            *ty == (Type::Struct { name: ty->Struct_name, attribs: *struct_attributes }),
                            n == paired(views, struct_attributes@),
                            views == attribute_views(value_attributes@),
                            conform_pairwise(views, struct_attributes@, i as nat),
                            total == encoded_pairwise(views, struct_attributes@, i as nat).len(),
                            total <= max_bits(),
                        decreases n - i,
                    {
                        proof {
                            lemma_encoded_pairwise_grows(
                                views,
                                struct_attributes@,
                                (i + 1) as nat,
                                n as nat,
                            );
                            if conform_pairwise(views, struct_attributes@, n as nat) {
                                lemma_conform_pairwise(views, struct_attributes@, n as nat, i as int);
                            }
                        }
                        match value_attributes[i].value.bit_len(&struct_attributes[i].ty) {
                            Some(len) => {
                                if len > usize::MAX / 8 - total {
                                    return None;
                                }
                                total = total + len;
                            },
                            None => {
                                return None;
                            },
                        }
                        i += 1;
                    }
                    Some(total)
                },
                _ => None,
            },
            Value::EnumValue(variant_name) => match ty {
                Type::Enum { name: _, size, entries } => {
                    match find_variant(entries, variant_name) {
                        Some(_) => width_if_valid(*size),
                        None => None,
                    }
                },
                _ => None,
            },
        }
    }

    /// Encodes this value against `ty` into 64-bit words.
    ///
    /// The first component holds the bits of the value, the first bit in the
    /// least significant position of the first word; the unused bits of the
    /// last word are clear. The second component is the number of bits in use
    /// in a last word that is not full, and zero where every word is full.
    pub fn get_as_bin(&self, ty: &Type) -> (bin: (Vec<u64>, u8))
        requires
            conforms(self@, *ty),
            encoded(self@, *ty).len() <= max_bits(),
        ensures
            bin.0@ == packed(encoded(self@, *ty)),
            bin.1 == encoded(self@, *ty).len() % 64,
    {
        let mut bit_vec = BitBuffer::new();
        continue_get_as_bin(self, ty, &mut bit_vec);
        let ghost bits = encoded(self@, *ty);
        let last_fill: u8 = (bit_vec.len() % 64) as u8;
        bit_vec.set_uninitialized(false);
        let vec_t = bit_vec.into_vec();
        proof {
            lemma_storage_is_packed(bits, vec_t@);
        }
        (vec_t, last_fill)
    }

    /// Encodes this value against `ty` where that is possible: `None` where
    /// the value does not conform to the type or has more bits than a bit
    /// buffer can hold, and what [`Value::get_as_bin`] gives otherwise.
    pub fn checked_get_as_bin(&self, ty: &Type) -> (bin: Option<(Vec<u64>, u8)>)
        ensures
            bin is Some <==> conforms(self@, *ty) && encoded(self@, *ty).len() <= max_bits(),
            bin is Some ==> {
                let (words, last_fill) = bin->0;
                &&& words@ == packed(encoded(self@, *ty))
                &&& last_fill == encoded(self@, *ty).len() % 64
            },
    {
        match self.bit_len(ty) {
            Some(_) => Some(self.get_as_bin(ty)),
            None => None,
        }
    }
}

/// The width of a field as a bit count, where a 64-bit value can fill it.
fn width_if_valid(size: u8) -> (len: Option<usize>)
    ensures
        len is Some <==> size <= 64,
        len is Some ==> len->0 == size,
{
    if size <= 64 {
        Some(size as usize)
    } else {
        None
    }
}

} // verus!
