//! The shape of the get-response message: which parts a message description
//! must have to be read as get-response frames, and where those parts lie on
//! the wire.

use vstd::prelude::*;

use crate::bits::low_mask;
use crate::config::EncodedField;
use crate::config::Encoding;
use crate::config::Message;
use crate::config::SignalType;
use crate::deserialize::decoded_encoding;
use crate::deserialize::decoded_message;
use crate::deserialize::decoded_parts;
use crate::deserialize::signal_deserializer::extract;
use crate::frame::attribute_index;
use crate::frame::attribute_of;
use crate::frame::AttributeView;
use crate::frame::ValueView;
use crate::handler::get_resp_frame_handler::get_resp_payload;
use crate::handler::get_resp_frame_handler::is_get_resp;
use crate::handler::get_resp_frame_handler::GetRespFrame;

verus! {

/// The parts of a get-response frame that a payload carries, read at their
/// positions on the wire.
pub open spec fn get_resp_fields(data: u64) -> GetRespFrame {
    GetRespFrame {
        sof: extract(data, 0, 1) != 0,
        eof: extract(data, 1, 1) != 0,
        toggle: extract(data, 2, 1) != 0,
        object_entry_id: extract(data, 3, 13) as u16,
        client_id: extract(data, 16, 8) as u8,
        server_id: extract(data, 24, 8) as u8,
        data: extract(data, 32, 32) as u32,
    }
}

/// A payload carries the parts that it was made of, where the object entry
/// identifier fits its 13 bits.
pub proof fn lemma_payload_carries_fields(frame: GetRespFrame)
    requires
        frame.object_entry_id < 8192,
    ensures
        get_resp_fields(get_resp_payload(frame)) == frame,
{
    let p = get_resp_payload(frame);
    let sof: u64 = if frame.sof { 1u64 } else { 0u64 };
    let eof: u64 = if frame.eof { 2u64 } else { 0u64 };
    let toggle: u64 = if frame.toggle { 4u64 } else { 0u64 };
    let od = frame.object_entry_id;
    let client = frame.client_id;
    let server = frame.server_id;
    let word = frame.data;
    assert(low_mask(1) == 1u64) by (bit_vector);
    assert(((1u64 << 1u64) - 1) as u64 == 1u64) by (bit_vector);
    assert(((1u64 << 13u64) - 1) as u64 == 0x1fffu64) by (bit_vector);
    assert(((1u64 << 8u64) - 1) as u64 == 0xffu64) by (bit_vector);
    assert(((1u64 << 32u64) - 1) as u64 == 0xffff_ffffu64) by (bit_vector);
    assert({
        &&& ((p >> 0u64) & 1u64 != 0) == (sof == 1)
        &&& ((p >> 1u64) & 1u64 != 0) == (eof == 2)
        &&& ((p >> 2u64) & 1u64 != 0) == (toggle == 4)
        &&& ((p >> 3u64) & 0x1fffu64) as u16 == od
        &&& ((p >> 16u64) & 0xffu64) as u8 == client
        &&& ((p >> 24u64) & 0xffu64) as u8 == server
        &&& ((p >> 32u64) & 0xffff_ffffu64) as u32 == word
    }) by (bit_vector)
        requires
            od < 8192,
            sof == 0 || sof == 1,
            eof == 0 || eof == 2,
            toggle == 0 || toggle == 4,
            p == sof | eof | toggle | (((od & 0x1fff) as u64) << 3) | ((client as u64) << 16) | ((
            server as u64) << 24) | ((word as u64) << 32),
    ;
}

/// The position of the first part called `name` at or behind `from`.
pub open spec fn part_index(parts: Seq<EncodedField>, name: Seq<char>, from: int) -> Option<int>
    decreases parts.len() - from,
{
    if from < 0 || from >= parts.len() {
        None
    } else if parts[from].name@ == name {
        Some(from)
    } else {
        part_index(parts, name, from + 1)
    }
}

/// Whether the first part called `name` is an unsigned field.
pub open spec fn has_unsigned_part(parts: Seq<EncodedField>, name: Seq<char>) -> bool {
    match part_index(parts, name, 0) {
        Some(i) => match parts[i].encoding {
            Encoding::Primitive(signal) => signal.ty is UnsignedInt,
            _ => false,
        },
        None => false,
    }
}

/// Whether a message description has the parts of the get-response message:
/// a struct attribute `header` with the unsigned fields `sof`, `eof`,
/// `toggle`, `od_index`, `client_id`, `server_id` and `data`.
pub open spec fn is_get_resp_message(message: Message) -> bool {
    match part_index(message.attributes@, "header"@, 0) {
        Some(h) => match message.attributes@[h].encoding {
            Encoding::Struct { attribs } => {
                &&& has_unsigned_part(attribs@, "sof"@)
                &&& has_unsigned_part(attribs@, "eof"@)
                &&& has_unsigned_part(attribs@, "toggle"@)
                &&& has_unsigned_part(attribs@, "od_index"@)
                &&& has_unsigned_part(attribs@, "client_id"@)
                &&& has_unsigned_part(attribs@, "server_id"@)
                &&& has_unsigned_part(attribs@, "data"@)
            },
            _ => false,
        },
        None => false,
    }
}

/// What a found position says: no part before it carries the name, and the
/// one at it does.
pub proof fn lemma_part_index(parts: Seq<EncodedField>, name: Seq<char>, from: int)
    requires
        0 <= from,
    ensures
        match part_index(parts, name, from) {
            Some(i) => {
                &&& from <= i < parts.len()
                &&& parts[i].name@ == name
                &&& forall|j: int| from <= j < i ==> parts[j].name@ != name
            },
            None => forall|j: int| from <= j < parts.len() ==> parts[j].name@ != name,
        },
    decreases parts.len() - from,
{
    if from < parts.len() && parts[from].name@ != name {
        lemma_part_index(parts, name, from + 1);
    }
}

/// The decoded attributes mirror the parts they were read by: as many, under
/// the same names, each the value that its part reads.
pub proof fn lemma_decoded_parts_mirror(parts: Seq<EncodedField>, data: u64, n: nat)
    requires
        n <= parts.len(),
        decoded_parts(parts, data, n) is Some,
    ensures
        decoded_parts(parts, data, n)->0.len() == n,
        forall|i: int|
            0 <= i < n ==> {
                &&& (#[trigger] decoded_parts(parts, data, n)->0[i]).name == parts[i].name@
                &&& decoded_encoding(parts[i].encoding, data) == Some(
                    decoded_parts(parts, data, n)->0[i].value,
                )
            },
    decreases n,
{
    if n > 0 {
        lemma_decoded_parts_mirror(parts, data, (n - 1) as nat);
    }
}

/// Attributes that carry the names of parts, position by position, are found
/// under a name where the parts are.
pub proof fn lemma_index_by_name(
    attributes: Seq<AttributeView>,
    parts: Seq<EncodedField>,
    name: Seq<char>,
    from: int,
)
    requires
        0 <= from,
        attributes.len() == parts.len(),
        forall|i: int| 0 <= i < parts.len() ==> (#[trigger] attributes[i]).name == parts[i].name@,
    ensures
        attribute_index(attributes, name, from) == part_index(parts, name, from),
    decreases parts.len() - from,
{
    if from < parts.len() && parts[from].name@ != name {
        lemma_index_by_name(attributes, parts, name, from + 1);
    }
}

/// An unsigned part of a header description is an unsigned attribute of the
/// decoded header.
proof fn lemma_unsigned_part_decodes(
    attributes: Seq<AttributeView>,
    parts: Seq<EncodedField>,
    data: u64,
    name: Seq<char>,
)
    requires
        decoded_parts(parts, data, parts.len()) == Some(attributes),
        has_unsigned_part(parts, name),
    ensures
        attribute_of(ValueView::Struct(attributes), name) is Some,
        attribute_of(ValueView::Struct(attributes), name)->0 is Unsigned,
{
    lemma_decoded_parts_mirror(parts, data, parts.len());
    lemma_index_by_name(attributes, parts, name, 0);
    lemma_part_index(parts, name, 0);
    let i = part_index(parts, name, 0)->0;
}

/// Every frame that the get-response message decodes has the parts of a
/// get-response frame.
pub proof fn lemma_get_resp_message_decodes(message: &Message, data: u64)
    requires
        is_get_resp_message(*message),
        decoded_message(*message, data) is Some,
    ensures
        is_get_resp(ValueView::Struct(decoded_message(*message, data)->0)),
{
    let parts = message.attributes@;
    let attributes = decoded_message(*message, data)->0;
    lemma_decoded_parts_mirror(parts, data, parts.len());
    lemma_index_by_name(attributes, parts, "header"@, 0);
    lemma_part_index(parts, "header"@, 0);
    let h = part_index(parts, "header"@, 0)->0;
    let inner = parts[h].encoding->Struct_attribs@;
    let header = decoded_parts(inner, data, inner.len())->0;
    assert(attributes[h].value == ValueView::Struct(header));
    lemma_unsigned_part_decodes(header, inner, data, "sof"@);
    lemma_unsigned_part_decodes(header, inner, data, "eof"@);
    lemma_unsigned_part_decodes(header, inner, data, "toggle"@);
    lemma_unsigned_part_decodes(header, inner, data, "od_index"@);
    lemma_unsigned_part_decodes(header, inner, data, "client_id"@);
    lemma_unsigned_part_decodes(header, inner, data, "server_id"@);
    lemma_unsigned_part_decodes(header, inner, data, "data"@);
}

/// Whether the first part called `name` is an unsigned field of `size` bits
/// at `bit_offset`.
pub open spec fn has_field_at(parts: Seq<EncodedField>, name: Seq<char>, bit_offset: u32, size: u8) -> bool {
    match part_index(parts, name, 0) {
        Some(i) => match parts[i].encoding {
            Encoding::Primitive(signal) => {
                &&& signal.ty == SignalType::UnsignedInt { size }
                &&& signal.bit_offset == bit_offset
            },
            _ => false,
        },
        None => false,
    }
}

/// Whether a message description lays the parts of the get-response message
/// out as they lie on the wire.
pub open spec fn has_wire_layout(message: Message) -> bool {
    match part_index(message.attributes@, "header"@, 0) {
        Some(h) => match message.attributes@[h].encoding {
            Encoding::Struct { attribs } => {
                &&& has_field_at(attribs@, "sof"@, 0, 1)
                &&& has_field_at(attribs@, "eof"@, 1, 1)
                &&& has_field_at(attribs@, "toggle"@, 2, 1)
                &&& has_field_at(attribs@, "od_index"@, 3, 13)
                &&& has_field_at(attribs@, "client_id"@, 16, 8)
                &&& has_field_at(attribs@, "server_id"@, 24, 8)
                &&& has_field_at(attribs@, "data"@, 32, 32)
            },
            _ => false,
        },
        None => false,
    }
}

/// A field of a header description decodes to the bits at its place.
proof fn lemma_field_at_decodes(
    attributes: Seq<AttributeView>,
    parts: Seq<EncodedField>,
    data: u64,
    name: Seq<char>,
    bit_offset: u32,
    size: u8,
)
    requires
        decoded_parts(parts, data, parts.len()) == Some(attributes),
        has_field_at(parts, name, bit_offset, size),
    ensures
        has_unsigned_part(parts, name),
        attribute_of(ValueView::Struct(attributes), name) == Some(
            ValueView::Unsigned(extract(data, bit_offset, size as u32)),
        ),
{
    lemma_decoded_parts_mirror(parts, data, parts.len());
    lemma_index_by_name(attributes, parts, name, 0);
    lemma_part_index(parts, name, 0);
    let i = part_index(parts, name, 0)->0;
}

/// A message description with the wire layout reads every payload as the
/// parts that lie at their places on the wire.
pub proof fn lemma_wire_layout_parses(message: &Message, data: u64)
    requires
        has_wire_layout(*message),
        decoded_message(*message, data) is Some,
    ensures
        is_get_resp_message(*message),
        GetRespFrame::parsed(ValueView::Struct(decoded_message(*message, data)->0))
            == get_resp_fields(data),
{
    let parts = message.attributes@;
    let attributes = decoded_message(*message, data)->0;
    lemma_decoded_parts_mirror(parts, data, parts.len());
    lemma_index_by_name(attributes, parts, "header"@, 0);
    lemma_part_index(parts, "header"@, 0);
    let h = part_index(parts, "header"@, 0)->0;
    let inner = parts[h].encoding->Struct_attribs@;
    let header = decoded_parts(inner, data, inner.len())->0;
    assert(attributes[h].value == ValueView::Struct(header));
    lemma_field_at_decodes(header, inner, data, "sof"@, 0, 1);
    lemma_field_at_decodes(header, inner, data, "eof"@, 1, 1);
    lemma_field_at_decodes(header, inner, data, "toggle"@, 2, 1);
    lemma_field_at_decodes(header, inner, data, "od_index"@, 3, 13);
    lemma_field_at_decodes(header, inner, data, "client_id"@, 16, 8);
    lemma_field_at_decodes(header, inner, data, "server_id"@, 24, 8);
    lemma_field_at_decodes(header, inner, data, "data"@, 32, 32);
}

/// What is packed into a payload comes out of it again: a message
/// description with the wire layout reads the payload of a get-response frame
/// as that frame, where the frame's object entry identifier fits its 13 bits.
pub proof fn lemma_payload_round_trip(message: &Message, frame: GetRespFrame)
    requires
        has_wire_layout(*message),
        decoded_message(*message, get_resp_payload(frame)) is Some,
        frame.object_entry_id < 8192,
    ensures
        GetRespFrame::parsed(
            ValueView::Struct(decoded_message(*message, get_resp_payload(frame))->0),
        ) == frame,
{
    lemma_wire_layout_parses(message, get_resp_payload(frame));
    lemma_payload_carries_fields(frame);
}

/// Finds the first part that carries a name.
fn find_part(parts: &Vec<EncodedField>, name: &str) -> (found: Option<usize>)
    ensures
        found is Some <==> part_index(parts@, name@, 0) is Some,
        found is Some ==> found->0 < parts@.len() && part_index(parts@, name@, 0) == Some(
            found->0 as int,
        ),
{
    let key = name.to_owned();
    let mut i: usize = 0;
    while i < parts.len()
        invariant
            i <= parts@.len(),
            key@ == name@,
            part_index(parts@, name@, 0) == part_index(parts@, name@, i as int),
        decreases parts@.len() - i,
    {
        if parts[i].name == key {
            return Some(i);
        }
        i += 1;
    }
    None
}

/// Tells whether the first part that carries a name is an unsigned field.
fn is_unsigned_part(parts: &Vec<EncodedField>, name: &str) -> (unsigned: bool)
    ensures
        unsigned == has_unsigned_part(parts@, name@),
{
    match find_part(parts, name) {
        Some(i) => match &parts[i].encoding {
            Encoding::Primitive(signal) => match signal.ty {
                SignalType::UnsignedInt { size: _ } => true,
                _ => false,
            },
            _ => false,
        },
        None => false,
    }
}

/// Tells whether a message description has the parts of the get-response
/// message.
pub(crate) fn describes_get_resp(message: &Message) -> (accepted: bool)
    ensures
        accepted == is_get_resp_message(*message),
{
    match find_part(&message.attributes, "header") {
        Some(h) => match &message.attributes[h].encoding {
            Encoding::Struct { attribs } => {
                is_unsigned_part(attribs, "sof") && is_unsigned_part(attribs, "eof")
                    && is_unsigned_part(attribs, "toggle") && is_unsigned_part(attribs, "od_index")
                    && is_unsigned_part(attribs, "client_id") && is_unsigned_part(
                    attribs,
                    "server_id",
                ) && is_unsigned_part(attribs, "data")
            },
            _ => false,
        },
        None => false,
    }
}

} // verus!
