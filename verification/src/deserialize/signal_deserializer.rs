//! Decoding of one scalar bit field.

use vstd::prelude::*;

use crate::bits::bit;
use crate::bits::bit_at;
use crate::bits::low_mask;
use crate::bits::mask_of;
use crate::config::Signal;
use crate::config::SignalType;
use crate::frame::Value;
use crate::frame::ValueView;

verus! {

/// The scalar interpretation that a deserializer gives to the bits it
/// extracts.
#[derive(Debug, Clone, Copy, PartialEq, Eq, Structural)]
pub enum SignalDeserializerTypeInfo {
    DecimalSignalDeserializer,
    UnsignedSignalDeserializer,
    SignedSignalDeserializer,
}

/// Decodes one scalar field of `bit_size` bits that starts at `bit_offset`.
#[derive(Debug, Clone, Copy, PartialEq, Eq, Structural)]
pub struct SignalDeserializer {
    pub bit_size: u32,
    pub bit_offset: u32,
    pub type_info: SignalDeserializerTypeInfo,
}

/// The interpretation that belongs to a signal kind.
pub open spec fn type_info_of(ty: SignalType) -> SignalDeserializerTypeInfo {
    match ty {
        SignalType::UnsignedInt { .. } => SignalDeserializerTypeInfo::UnsignedSignalDeserializer,
        SignalType::SignedInt { .. } => SignalDeserializerTypeInfo::SignedSignalDeserializer,
        SignalType::Decimal { .. } => SignalDeserializerTypeInfo::DecimalSignalDeserializer,
    }
}

/// The field of `bit_size` bits at `bit_offset` of a payload: the payload
/// shifted right by the offset and masked to the field's width. The shift
/// distance wraps at 64 and the mask saturates at 64 bits.
pub open spec fn extract(data: u64, bit_offset: u32, bit_size: u32) -> u64 {
    (data >> ((bit_offset % 64) as u64)) & low_mask(bit_size as int)
}

/// The two's complement reading of the `bit_size` low bits of `raw`: where
/// the field's top bit is set, all bits above it are set as well.
pub open spec fn sign_extended(raw: u64, bit_size: u32) -> i64 {
    if 0 < bit_size < 64 && bit(raw, bit_size - 1) {
        (raw | !low_mask(bit_size as int)) as i64
    } else {
        raw as i64
    }
}

/// What sign extension means in numbers: a field in the lower half of its
/// range reads as itself, and one in the upper half as itself less the size of
/// the range.
pub proof fn lemma_sign_extended_value(raw: u64, bit_size: u32)
    requires
        0 < bit_size < 64,
        raw <= low_mask(bit_size as int),
    ensures
        sign_extended(raw, bit_size) == if raw <= low_mask(bit_size - 1) {
            raw as int
        } else {
            raw - low_mask(bit_size as int) - 1
        },
{
    let s = bit_size as u64;
    let m = low_mask(bit_size as int);
    let half = low_mask(bit_size - 1);
    assert({
        &&& ((raw >> ((s - 1) as u64)) & 1 == 1) == (raw > half)
        &&& raw > half ==> (raw | !m) as i64 == raw - m - 1
        &&& raw <= half ==> raw as i64 == raw
    }) by (bit_vector)
        requires
            0 < s < 64,
            m == ((1u64 << s) - 1) as u64,
            half == (if s == 1 { 0u64 } else { ((1u64 << ((s - 1) as u64)) - 1) as u64 }),
            raw <= m,
    ;
}

/// The value that the extracted bits `raw` of a field of `bit_size` bits stand
/// for. A decimal field gives its step count, which is never negative.
pub open spec fn interpreted(type_info: SignalDeserializerTypeInfo, bit_size: u32, raw: u64) -> ValueView {
    match type_info {
        SignalDeserializerTypeInfo::DecimalSignalDeserializer => ValueView::Real(raw as int),
        SignalDeserializerTypeInfo::UnsignedSignalDeserializer => ValueView::Unsigned(raw),
        SignalDeserializerTypeInfo::SignedSignalDeserializer => ValueView::Signed(
            sign_extended(raw, bit_size),
        ),
    }
}

/// Extracts the field of `bit_size` bits at `bit_offset` of a payload.
pub fn extract_field(data: u64, bit_offset: u32, bit_size: u32) -> (raw: u64)
    ensures
        raw == extract(data, bit_offset, bit_size),
{
    (data >> (bit_offset % 64)) & mask_of(bit_size)
}

impl SignalDeserializer {
    /// The value of this field in a payload.
    pub open spec fn decoded(self, data: u64) -> ValueView {
        interpreted(self.type_info, self.bit_size, extract(data, self.bit_offset, self.bit_size))
    }

    /// The deserializer of a signal: it takes the signal's offset, and its
    /// width and interpretation from the signal's kind.
    pub fn new(signal: &Signal) -> (deserializer: SignalDeserializer)
        ensures
            deserializer.bit_offset == signal.bit_offset,
            deserializer.bit_size == signal.ty.width(),
            deserializer.type_info == type_info_of(signal.ty),
    {
        let bit_offset = signal.bit_offset;
        let bit_size = signal.ty.size() as u32;
        Self {
            bit_offset,
            bit_size,
            type_info: match signal.ty {
                SignalType::UnsignedInt { size: _ } => {
                    SignalDeserializerTypeInfo::UnsignedSignalDeserializer
                },
                SignalType::SignedInt { size: _ } => {
                    SignalDeserializerTypeInfo::SignedSignalDeserializer
                },
                SignalType::Decimal { size: _ } => {
                    SignalDeserializerTypeInfo::DecimalSignalDeserializer
                },
            },
        }
    }

    /// Interprets bits that were extracted already.
    pub fn interpret(&self, raw: u64) -> (value: Value)
        ensures
            value@ == interpreted(self.type_info, self.bit_size, raw),
    {
        match &self.type_info {
            SignalDeserializerTypeInfo::DecimalSignalDeserializer => Value::RealValue(raw as i128),
            SignalDeserializerTypeInfo::UnsignedSignalDeserializer => Value::UnsignedValue(raw),
            SignalDeserializerTypeInfo::SignedSignalDeserializer => {
                if 0 < self.bit_size && self.bit_size < 64 && bit_at(raw, self.bit_size - 1) {
                    let above = !mask_of(self.bit_size);
                    Value::SignedValue(#[verifier::truncate] ((raw | above) as i64))
                } else {
                    Value::SignedValue(#[verifier::truncate] (raw as i64))
                }
            },
        }
    }

    /// Decodes this field from a payload.
    pub fn deserialize(&self, data: u64) -> (value: Value)
        ensures
            value@ == self.decoded(data),
    {
        let unsigned_bits = extract_field(data, self.bit_offset, self.bit_size);
        self.interpret(unsigned_bits)
    }
}

} // verus!
