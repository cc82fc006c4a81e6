//! The static description of a network: message identifiers, signal kinds,
//! type trees, payload layouts, nodes and their object entries. All of it is
//! plain data that is built once and then only read.

use std::sync::Arc;
use vstd::prelude::*;

verus! {

/// The identifier of a message: an 11-bit standard or a 29-bit extended one.
#[derive(Clone, Copy, Debug, PartialEq, Eq, Hash, Structural)]
pub enum MessageId {
    StandardId(u32),
    ExtendedId(u32),
}

impl MessageId {
    /// The identifier's number, without its kind.
    pub open spec fn number(self) -> u32 {
        match self {
            MessageId::StandardId(id) => id,
            MessageId::ExtendedId(id) => id,
        }
    }

    /// The identifier's number, without its kind.
    pub fn as_u32(&self) -> (id: u32)
        ensures
            id == self.number(),
    {
        match self {
            MessageId::StandardId(id) => *id,
            MessageId::ExtendedId(id) => *id,
        }
    }

    /// Whether the identifier is an extended one.
    pub fn ide(&self) -> (extended: bool)
        ensures
            extended == (*self is ExtendedId),
    {
        match self {
            MessageId::StandardId(_) => false,
            MessageId::ExtendedId(_) => true,
        }
    }
}

/// The scalar interpretation of a bit field and its width in bits.
///
/// A `Decimal` field carries a physical quantity `offset + scale * steps`. This
/// crate works on the whole number `steps` alone; the offset and the scale, and
/// all arithmetic on them, stay with the caller.
#[derive(Clone, Copy, Debug, PartialEq, Eq, Structural)]
pub enum SignalType {
    UnsignedInt { size: u8 },
    SignedInt { size: u8 },
    Decimal { size: u8 },
}

impl SignalType {
    /// The width of the field in bits.
    pub open spec fn width(self) -> u8 {
        match self {
            SignalType::UnsignedInt { size } => size,
            SignalType::SignedInt { size } => size,
            SignalType::Decimal { size } => size,
        }
    }

    /// The width of the field in bits.
    pub fn size(&self) -> (size: u8)
        ensures
            size == self.width(),
    {
        match self {
            SignalType::UnsignedInt { size } => *size,
            SignalType::SignedInt { size } => *size,
            SignalType::Decimal { size } => *size,
        }
    }
}

/// A named bit field of a message payload.
#[derive(Clone, Debug)]
pub struct Signal {
    pub name: String,
    /// The position of the field's least significant bit in the payload.
    pub bit_offset: u32,
    pub ty: SignalType,
}

/// One named field of a struct type.
#[derive(Debug)]
pub struct Field {
    pub name: String,
    pub ty: Type,
}

/// One variant of an enum type: its name and the number that stands for it on
/// the wire.
#[derive(Clone, Debug)]
pub struct Variant {
    pub name: String,
    pub value: u64,
}

/// The type tree of a value.
#[derive(Debug)]
pub enum Type {
    Primitive(SignalType),
    Struct { name: String, attribs: Vec<Field> },
    Enum { name: String, size: u8, entries: Vec<Variant> },
}

/// Where one attribute of a message lies in the 64-bit payload, as a tree of
/// the same shape as the attribute's type.
#[derive(Debug)]
pub enum Encoding {
    Primitive(Signal),
    Struct { attribs: Vec<EncodedField> },
    Enum { bit_offset: u32, size: u8, entries: Vec<Variant> },
}

/// One named part of a struct encoding.
#[derive(Debug)]
pub struct EncodedField {
    pub name: String,
    pub encoding: Encoding,
}

/// The description of one message.
#[derive(Debug)]
pub struct Message {
    pub id: MessageId,
    pub name: String,
    pub description: Option<String>,
    /// The data length code: the number of payload bytes, at most 8.
    pub dlc: u8,
    pub attributes: Vec<EncodedField>,
}

/// A shared, read-only message description.
pub type MessageRef = Arc<Message>;

/// A shared, read-only type tree.
pub type TypeRef = Arc<Type>;

/// A shared, read-only network description.
pub type NetworkRef = Arc<Network>;

/// `Arc::clone` of the standard library: one more handle to the same shared
/// value.
#[verifier::external_body]
pub(crate) fn share<T>(shared: &Arc<T>) -> (handle: Arc<T>)
    ensures
        handle == *shared,
{
    Arc::clone(shared)
}

/// A typed value slot that a node owns.
#[derive(Debug)]
pub struct ObjectEntry {
    pub id: u32,
    pub name: String,
    pub ty: TypeRef,
}

/// A message that a node sends unasked.
#[derive(Debug)]
pub struct Stream {
    pub name: String,
    pub message: MessageRef,
}

/// One node of the network.
#[derive(Debug)]
pub struct Node {
    pub id: u16,
    pub name: String,
    pub object_entries: Vec<ObjectEntry>,
    pub tx_streams: Vec<Stream>,
}

/// The whole network.
#[derive(Debug)]
pub struct Network {
    pub nodes: Vec<Node>,
    pub get_resp_message: MessageRef,
}

/// The number of bits that a value of a type takes on the wire.
pub open spec fn type_bits(ty: Type) -> nat
    decreases ty, 0nat,
{
    match ty {
        Type::Primitive(kind) => kind.width() as nat,
        Type::Struct { attribs, .. } => fields_bits(attribs@, attribs@.len()),
        Type::Enum { size, .. } => size as nat,
    }
}

/// The number of bits that the first `n` fields of a struct type take.
pub open spec fn fields_bits(fields: Seq<Field>, n: nat) -> nat
    decreases fields, n,
{
    if n == 0 || n > fields.len() {
        0
    } else {
        fields_bits(fields, (n - 1) as nat) + type_bits(fields[n - 1].ty)
    }
}

/// Fewer fields take no more bits than more fields.
pub proof fn lemma_fields_bits_grow(fields: Seq<Field>, m: nat, n: nat)
    requires
        m <= n <= fields.len(),
    ensures
        fields_bits(fields, m) <= fields_bits(fields, n),
    decreases n,
{
    if m < n {
        lemma_fields_bits_grow(fields, m, (n - 1) as nat);
    }
}

impl Type {
    /// The number of bits that a value of this type takes on the wire, or
    /// `None` where that number does not fit 32 bits.
    pub fn bit_size(&self) -> (bits: Option<u32>)
        ensures
            bits is Some <==> type_bits(*self) <= u32::MAX,
            bits is Some ==> bits->0 == type_bits(*self),
        decreases self,
    {
        match self {
            Type::Primitive(kind) => Some(kind.size() as u32),
            Type::Struct { name: _, attribs } => {
                let mut total: u32 = 0;
                let mut i: usize = 0;
                while i < attribs.len()
                    invariant
                        i <= attribs@.len(),
                        *self == (Type::Struct { name: self->Struct_name, attribs: *attribs }),
                        total == fields_bits(attribs@, i as nat),
                    decreases attribs@.len() - i,
                {
                    proof {
                        assert(decreases_to!(*self => self->Struct_attribs));
                        lemma_fields_bits_grow(attribs@, (i + 1) as nat, attribs@.len());
                    }
                    match attribs[i].ty.bit_size() {
                        Some(bits) => {
                            if bits > u32::MAX - total {
                                return None;
                            }
                            total = total + bits;
                        },
                        None => {
                            return None;
                        },
                    }
                    i += 1;
                }
                Some(total)
            },
            Type::Enum { name: _, size, entries: _ } => Some(*size as u32),
        }
    }
}

} // verus!
