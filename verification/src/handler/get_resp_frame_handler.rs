//! Reassembly of segmented get-response transfers.
//!
//! A value that does not fit one frame arrives as a sequence of frames that
//! carry one 32-bit word each. The first frame has the start flag, the last one
//! the end flag, and the frames between alternate a toggle flag. One
//! [`GetResp`] per object entry follows the sequence and hands out the decoded
//! value when the last word has come.

use std::collections::HashMap;
use vstd::pervasive::unreached;
use vstd::prelude::*;

use crate::can_adapter::timestamped::Timestamped;
use crate::can_adapter::TCanFrame;
use crate::config::share;
use crate::config::type_bits;
use crate::config::Message;
use crate::config::MessageRef;
use crate::config::Network;
use crate::config::Node;
use crate::config::ObjectEntry;
use crate::config::Type;
use crate::deserialize::decoded_message;
use crate::deserialize::type_deserializer::decoded_type;
use crate::deserialize::type_deserializer::TypeDeserializer;
use crate::deserialize::FrameDeserializer;
use crate::errors::Error;
use crate::frame::attribute_of;
use crate::frame::attribute_views;
use crate::frame::Frame;
use crate::frame::TFrame;
use crate::frame::Value;
use crate::frame::ValueView;
use crate::handler::get_resp_message::describes_get_resp;
use crate::handler::get_resp_message::is_get_resp_message;
use crate::handler::get_resp_message::lemma_get_resp_message_decodes;

verus! {

/// The part of a frame's header that `name` selects, where the frame has a
/// struct attribute `header` with an unsigned attribute of that name.
pub open spec fn header_field(frame: ValueView, name: Seq<char>) -> Option<u64> {
    match attribute_of(frame, "header"@) {
        Some(header) => match attribute_of(header, name) {
            Some(ValueView::Unsigned(v)) => Some(v),
            _ => None,
        },
        None => None,
    }
}

/// Whether a frame has all the parts of a get-response frame.
pub open spec fn is_get_resp(frame: ValueView) -> bool {
    &&& header_field(frame, "sof"@) is Some
    &&& header_field(frame, "eof"@) is Some
    &&& header_field(frame, "toggle"@) is Some
    &&& header_field(frame, "od_index"@) is Some
    &&& header_field(frame, "client_id"@) is Some
    &&& header_field(frame, "server_id"@) is Some
    &&& header_field(frame, "data"@) is Some
}

/// The key of one reassembly state: the node that serves an object entry, and
/// the entry.
#[derive(Debug, Clone, Copy, PartialEq, Eq, Hash, Structural)]
pub struct GetRespIdentifier {
    pub server_id: u8,
    pub object_entry_id: u16,
}

/// The number under which the state of a server's object entry is filed.
/// Different identifiers have different numbers.
pub open spec fn key_of(server_id: u8, object_entry_id: u16) -> u32 {
    (server_id as u32 * 65536 + object_entry_id as u32) as u32
}

impl GetRespIdentifier {
    /// The number under which the state of this identifier is filed.
    pub fn key(&self) -> (key: u32)
        ensures
            key == key_of(self.server_id, self.object_entry_id),
    {
        self.server_id as u32 * 65536 + self.object_entry_id as u32
    }
}

/// One frame of a get-response transfer.
#[derive(Debug, Clone, Copy, PartialEq, Eq, Structural)]
pub struct GetRespFrame {
    pub sof: bool,
    pub eof: bool,
    pub toggle: bool,
    pub client_id: u8,
    pub server_id: u8,
    pub object_entry_id: u16,
    pub data: u32,
}

/// Reads one unsigned part of a header.
fn header_part(header: &Value, name: &str) -> (part: u64)
    requires
        attribute_of(header@, name@) is Some,
        attribute_of(header@, name@)->0 is Unsigned,
    ensures
        attribute_of(header@, name@) == Some(ValueView::Unsigned(part)),
{
    match header.attribute(name) {
        Some(Value::UnsignedValue(part)) => *part,
        _ => unreached(),
    }
}

impl GetRespFrame {
    /// The get-response frame that a decoded frame stands for. The flags are
    /// set where their parts are not zero; the identifiers and the data word
    /// are the low bits of their parts.
    pub open spec fn parsed(frame: ValueView) -> GetRespFrame {
        GetRespFrame {
            sof: header_field(frame, "sof"@)->0 != 0,
            eof: header_field(frame, "eof"@)->0 != 0,
            toggle: header_field(frame, "toggle"@)->0 != 0,
            client_id: header_field(frame, "client_id"@)->0 as u8,
            server_id: header_field(frame, "server_id"@)->0 as u8,
            object_entry_id: header_field(frame, "od_index"@)->0 as u16,
            data: header_field(frame, "data"@)->0 as u32,
        }
    }

    /// Reads a decoded frame as a get-response frame. The frame must have the
    /// parts of one: a description that leaves one out is a configuration
    /// fault.
    pub fn new(frame: &Frame) -> (parsed: GetRespFrame)
        requires
            is_get_resp(frame@),
        ensures
            parsed == GetRespFrame::parsed(frame@),
    {
        let header = match frame.attribute("header") {
            Some(header) => header,
            None => unreached(),
        };
        let sof = header_part(header, "sof");
        let eof = header_part(header, "eof");
        let toggle = header_part(header, "toggle");
        let object_entry_id = header_part(header, "od_index");
        let client_id = header_part(header, "client_id");
        let server_id = header_part(header, "server_id");
        let data = header_part(header, "data");
        Self {
            sof: sof != 0,
            eof: eof != 0,
            toggle: toggle != 0,
            client_id: #[verifier::truncate] (client_id as u8),
            server_id: #[verifier::truncate] (server_id as u8),
            object_entry_id: #[verifier::truncate] (object_entry_id as u16),
            data: #[verifier::truncate] (data as u32),
        }
    }
}

/// The payload that carries the given parts of a get-response frame: the
/// start flag in bit 0, the end flag in bit 1, the toggle flag in bit 2, the
/// object entry in bits 3 to 15, the client in bits 16 to 23, the server in
/// bits 24 to 31 and the data word in bits 32 to 63. An object entry identifier
/// has 13 bits on the wire: higher bits of it are dropped.
pub open spec fn get_resp_payload(frame: GetRespFrame) -> u64 {
    (if frame.sof { 1u64 } else { 0u64 })
    | (if frame.eof { 2u64 } else { 0u64 })
    | (if frame.toggle { 4u64 } else { 0u64 })
    | (((frame.object_entry_id & 0x1fff) as u64) << 3)
    | ((frame.client_id as u64) << 16)
    | ((frame.server_id as u64) << 24)
    | ((frame.data as u64) << 32)
}

impl GetRespFrame {
    /// Packs the parts of this frame into a payload.
    pub fn to_payload(&self) -> (payload: u64)
        ensures
            payload == get_resp_payload(*self),
    {
        let sof: u64 = if self.sof { 1 } else { 0 };
        let eof: u64 = if self.eof { 2 } else { 0 };
        let toggle: u64 = if self.toggle { 4 } else { 0 };
        sof | eof | toggle | (((self.object_entry_id & 0x1fff) as u64) << 3) | ((
        self.client_id as u64) << 16) | ((self.server_id as u64) << 24) | ((self.data as u64) << 32)
    }
}

/// Where a transfer stands.
#[derive(Debug, Clone, Copy, PartialEq, Eq, Structural)]
pub enum GetRespState {
    /// No transfer is under way: the next frame starts one.
    Ready,
    /// A transfer is under way and its next frame has the toggle flag clear.
    FragmentationToggleLow,
    /// A transfer is under way and its next frame has the toggle flag set.
    FragmentationToggleHigh,
}

impl GetRespState {
    /// The start flag that the next frame must have.
    pub open spec fn expected_sof(self) -> bool {
        self is Ready
    }

    /// The toggle flag that the next frame must have.
    pub open spec fn expected_toggle(self) -> bool {
        self is FragmentationToggleHigh
    }

    /// The state behind a frame that does not end the transfer.
    pub open spec fn advanced(self) -> GetRespState {
        match self {
            GetRespState::Ready => GetRespState::FragmentationToggleHigh,
            GetRespState::FragmentationToggleLow => GetRespState::FragmentationToggleHigh,
            GetRespState::FragmentationToggleHigh => GetRespState::FragmentationToggleLow,
        }
    }
}

/// The reassembly state of one object entry.
pub struct GetResp {
    pub state: GetRespState,
    /// The server and the object entry that this state belongs to.
    pub identifier: GetRespIdentifier,
    pub type_deserializer: TypeDeserializer,
    /// The number of 32-bit words that a value of the entry takes.
    pub size: u32,
    /// The words of the transfer under way, in the order of their arrival.
    pub buffer: Vec<u32>,
}

/// The mathematical content of a [`GetResp`].
pub struct GetRespView {
    pub state: GetRespState,
    pub identifier: GetRespIdentifier,
    pub ty: Type,
    pub size: u32,
    pub buffer: Seq<u32>,
}

impl View for GetResp {
    type V = GetRespView;

    open spec fn view(&self) -> GetRespView {
        GetRespView {
            state: self.state,
            identifier: self.identifier,
            ty: *self.type_deserializer.ty,
            size: self.size,
            buffer: self.buffer@,
        }
    }
}

/// What one frame does to a transfer.
pub enum Step {
    /// The frame is refused and changes nothing.
    Refused(Error),
    /// The frame's word joins the buffer and the transfer goes on.
    Continued,
    /// The frame's word ends the transfer, which gives this value.
    Completed(ValueView),
}

impl GetRespView {
    /// Whether the state is one that a run of frames can lead to: words are
    /// buffered exactly while a transfer is under way, and the bits of the
    /// entry's type can be counted in 32 bits.
    pub open spec fn wf(self) -> bool {
        &&& type_bits(self.ty) <= u32::MAX
        &&& (self.state is Ready <==> self.buffer.len() == 0)
    }

    /// The end flag that the next frame must have: set where its word makes
    /// the buffer as long as a value of the entry.
    pub open spec fn expected_eof(self) -> bool {
        self.buffer.len() + 1 == self.size
    }

    /// What a frame does to this state. The start flag is checked first, then
    /// the toggle flag, then the end flag. An end frame whose buffer does not
    /// decode is refused like a frame with a wrong flag.
    pub open spec fn step(self, frame: GetRespFrame) -> Step {
        if frame.sof != self.state.expected_sof() {
            Step::Refused(Error::InvalidGetResponseSofFlag)
        } else if frame.toggle != self.state.expected_toggle() {
            Step::Refused(Error::InvalidGetResponseToggleFlag)
        } else if frame.eof != self.expected_eof() {
            Step::Refused(Error::InvalidGetResponseEofFlag)
        } else if frame.eof {
            match decoded_type(self.ty, self.buffer.push(frame.data), 0) {
                Some(value) => Step::Completed(value),
                None => Step::Refused(Error::UnknownEnumValue),
            }
        } else {
            Step::Continued
        }
    }

    /// The state behind a frame: unchanged where the frame is refused, one
    /// word longer and with the toggle moved where the transfer goes on, and
    /// `Ready` with an empty buffer where it is complete.
    pub open spec fn after(self, frame: GetRespFrame) -> GetRespView {
        match self.step(frame) {
            Step::Refused(_) => self,
            Step::Continued => GetRespView {
                state: self.state.advanced(),
                buffer: self.buffer.push(frame.data),
                ..self
            },
            Step::Completed(_) => GetRespView {
                state: GetRespState::Ready,
                buffer: Seq::empty(),
                ..self
            },
        }
    }
}

/// Whether what `receive` returned is what a step gives: the error of a
/// refused frame, nothing for a frame that continues, the value of the frame
/// that completes.
pub open spec fn reports(received: Result<Option<Value>, Error>, step: Step) -> bool {
    match step {
        Step::Refused(error) => received == Err::<Option<Value>, Error>(error),
        Step::Continued => received == Ok::<Option<Value>, Error>(None),
        Step::Completed(value) => {
            &&& received is Ok
            &&& received->Ok_0 is Some
            &&& received->Ok_0->0@ == value
        },
    }
}

impl GetResp {
    /// The state of an object entry before its first frame.
    pub fn new(identifier: GetRespIdentifier, type_deserializer: TypeDeserializer, size: u32) -> (fresh: GetResp)
        requires
            type_deserializer.wf(),
        ensures
            fresh@.wf(),
            fresh@ == (GetRespView {
                state: GetRespState::Ready,
                identifier,
                ty: *type_deserializer.ty,
                size,
                buffer: Seq::empty(),
            }),
    {
        GetResp { state: GetRespState::Ready, identifier, type_deserializer, size, buffer: Vec::new() }
    }

    /// Applies one frame of this entry.
    ///
    /// A refused frame is reported with its error and leaves the state as it
    /// was. A frame that continues the transfer adds its word and moves the
    /// toggle. The frame that completes the transfer gives the decoded value,
    /// empties the buffer and returns the state to `Ready`.
    ///
    /// The frame must be one of this entry: a frame of another entry here
    /// means that frames are routed wrongly.
    pub fn receive(&mut self, frame: GetRespFrame) -> (received: Result<Option<Value>, Error>)
        requires
            old(self)@.wf(),
            frame.object_entry_id == old(self).identifier.object_entry_id,
        ensures
            final(self)@.wf(),
            final(self)@ == old(self)@.after(frame),
            reports(received, old(self)@.step(frame)),
    {
        let (expected_sof, expected_toggle) = match &self.state {
            GetRespState::Ready => (true, false),
            GetRespState::FragmentationToggleLow => (false, false),
            GetRespState::FragmentationToggleHigh => (false, true),
        };
        let expected_eof = self.size > 0 && self.buffer.len() == (self.size - 1) as usize;

        if expected_sof != frame.sof {
            return Err(Error::InvalidGetResponseSofFlag);
        }
        if expected_toggle != frame.toggle {
            return Err(Error::InvalidGetResponseToggleFlag);
        }
        if expected_eof != frame.eof {
            return Err(Error::InvalidGetResponseEofFlag);
        }
        self.buffer.push(frame.data);

        if frame.eof {
            match self.type_deserializer.deserialize(self.buffer.as_slice()) {
                Ok(value) => {
                    self.buffer.clear();
                    self.state = GetRespState::Ready;
                    Ok(Some(value))
                },
                Err(error) => {
                    self.buffer.pop();
                    assert(self.buffer@ =~= old(self).buffer@);
                    Err(error)
                },
            }
        } else {
            // update fragmentation state!
            self.state = match self.state {
                GetRespState::Ready => GetRespState::FragmentationToggleHigh,
                GetRespState::FragmentationToggleLow => GetRespState::FragmentationToggleHigh,
                GetRespState::FragmentationToggleHigh => GetRespState::FragmentationToggleLow,
            };
            Ok(None)
        }
    }
}

/// The number of 32-bit words that hold `bits` bits.
pub open spec fn words_for(bits: nat) -> nat {
    (bits + 31) / 32
}

/// The state of one object entry of a node before its first frame.
pub open spec fn initial_state(node: Node, entry: ObjectEntry) -> GetRespView {
    GetRespView {
        state: GetRespState::Ready,
        identifier: GetRespIdentifier { server_id: node.id as u8, object_entry_id: entry.id as u16 },
        ty: *entry.ty,
        size: words_for(type_bits(*entry.ty)) as u32,
        buffer: Seq::empty(),
    }
}

/// The initial states of the first `m` object entries of a node.
pub open spec fn node_states(node: Node, m: nat) -> Seq<GetRespView> {
    Seq::new(m, |j: int| initial_state(node, node.object_entries@[j]))
}

/// The initial states of all object entries of the first `n` nodes, node by
/// node and entry by entry.
pub open spec fn initial_states(nodes: Seq<Node>, n: nat) -> Seq<GetRespView>
    decreases n,
{
    if n == 0 || n > nodes.len() {
        Seq::empty()
    } else {
        initial_states(nodes, (n - 1) as nat) + node_states(
            nodes[n - 1],
            nodes[n - 1].object_entries@.len(),
        )
    }
}

/// Whether a network can be handled: the bits of every object entry's type
/// can be counted in 32 bits.
pub open spec fn handles(network: Network) -> bool {
    forall|i: int, j: int|
        0 <= i < network.nodes@.len() && 0 <= j < network.nodes@[i].object_entries@.len()
            ==> type_bits(*(#[trigger] network.nodes@[i].object_entries@[j]).ty) <= u32::MAX
}

/// The contents of a list of reassembly states.
pub open spec fn state_views(transfers: Seq<GetResp>) -> Seq<GetRespView> {
    Seq::new(transfers.len(), |i: int| transfers[i]@)
}

/// The number under which a state is filed.
pub open spec fn state_key(state: GetRespView) -> u32 {
    key_of(state.identifier.server_id, state.identifier.object_entry_id)
}

/// Whether a lookup table files a list of states: it knows exactly the keys
/// of the states, and leads from each key to the last state that has it.
pub open spec fn files(lookup: Map<u32, usize>, states: Seq<GetRespView>) -> bool {
    &&& forall|k: u32| #[trigger]
        lookup.contains_key(k) ==> lookup[k] < states.len() && state_key(states[lookup[k] as int])
            == k
    &&& forall|s: int|
        0 <= s < states.len() ==> lookup.contains_key(state_key(#[trigger] states[s])) && s
            <= lookup[state_key(states[s])]
}

/// Finds the reassembly state of each received get-response frame. The table
/// is built once and then only read; the states themselves live beside it, so
/// that each can be guarded on its own.
pub struct GetRespFrameHandler {
    pub frame_deserializer: FrameDeserializer,
    pub get_resp_lookup: HashMap<u32, usize>,
    pub get_resp_msg: MessageRef,
}

/// What routing a payload gives: the decoded frame, its reading as a
/// get-response frame, and the position of the state that it belongs to.
pub struct Routed {
    pub frame: Frame,
    pub get_resp_frame: GetRespFrame,
    pub slot: usize,
}

/// What handling a frame gives: the decoded frame with the instant of its
/// receipt, the entry that it belongs to, and the entry's new value where the
/// frame completed a transfer.
pub struct Handled {
    pub frame: TFrame,
    pub identifier: GetRespIdentifier,
    pub completed: Option<Value>,
}

impl GetRespFrameHandler {
    /// Whether the handler decodes by the message it was made for, and that
    /// message has the parts of the get-response message.
    pub open spec fn wf(self) -> bool {
        &&& self.frame_deserializer.message == self.get_resp_msg
        &&& is_get_resp_message(*self.get_resp_msg)
    }

    /// Whether `states` are states of this handler: the table files them, and
    /// each is well formed.
    pub open spec fn governs(self, states: Seq<GetRespView>) -> bool {
        &&& files(self.get_resp_lookup@, states)
        &&& forall|s: int| 0 <= s < states.len() ==> (#[trigger] states[s]).wf()
    }

    /// The get-response frame that a payload holds, where the payload decodes.
    pub open spec fn parsed(self, data: u64) -> Option<GetRespFrame> {
        match decoded_message(*self.get_resp_msg, data) {
            Some(attributes) => Some(GetRespFrame::parsed(ValueView::Struct(attributes))),
            None => None,
        }
    }

    /// The position of the state that a frame belongs to, where the table
    /// knows the frame's server and object entry.
    pub open spec fn slot_of(self, frame: GetRespFrame) -> Option<int> {
        let key = key_of(frame.server_id, frame.object_entry_id);
        if self.get_resp_lookup@.contains_key(key) {
            Some(self.get_resp_lookup@[key] as int)
        } else {
            None
        }
    }

    /// What a payload does: it is refused where it does not decode or belongs
    /// to no known entry, and otherwise does what its frame does to the state
    /// of its entry.
    pub open spec fn outcome(self, states: Seq<GetRespView>, data: u64) -> Step {
        match self.parsed(data) {
            Some(frame) => match self.slot_of(frame) {
                Some(slot) => states[slot].step(frame),
                None => Step::Refused(Error::InvalidGetResponseServerOrObjectEntryNotFound),
            },
            None => Step::Refused(Error::UnknownEnumValue),
        }
    }

    /// The states behind a payload: only the state of the payload's entry can
    /// differ, and it is the one behind the payload's frame.
    pub open spec fn applied(self, states: Seq<GetRespView>, data: u64) -> Seq<GetRespView> {
        match self.parsed(data) {
            Some(frame) => match self.slot_of(frame) {
                Some(slot) => states.update(slot, states[slot].after(frame)),
                None => states,
            },
            None => states,
        }
    }

    /// Tells whether a message description has the parts of the get-response
    /// message.
    pub fn accepts(message: &Message) -> (accepted: bool)
        ensures
            accepted == is_get_resp_message(*message),
    {
        describes_get_resp(message)
    }

    /// Tells whether a network can be handled.
    pub fn supports(network: &Network) -> (supported: bool)
        ensures
            supported == handles(*network),
    {
        let mut i: usize = 0;
        while i < network.nodes.len()
            invariant
                i <= network.nodes@.len(),
                forall|a: int, b: int|
                    0 <= a < i && 0 <= b < network.nodes@[a].object_entries@.len() ==> type_bits(
                        *(#[trigger] network.nodes@[a].object_entries@[b]).ty,
                    ) <= u32::MAX,
            decreases network.nodes@.len() - i,
        {
            let node = &network.nodes[i];
            let mut j: usize = 0;
            while j < node.object_entries.len()
                invariant
                    i < network.nodes@.len(),
                    *node == network.nodes@[i as int],
                    j <= node.object_entries@.len(),
                    forall|b: int|
                        0 <= b < j ==> type_bits(*(#[trigger] node.object_entries@[b]).ty)
                            <= u32::MAX,
                decreases node.object_entries@.len() - j,
            {
                if node.object_entries[j].ty.bit_size().is_none() {
                    return false;
                }
                j += 1;
            }
            i += 1;
        }
        true
    }

    /// Builds the table and the states for a network: one state for each
    /// object entry of each node, in the order of the network's description,
    /// each `Ready` and empty. Where two entries have one identifier, the
    /// table leads to the later one.
    pub fn create(network: &Network, get_resp_msg: &MessageRef) -> (made: (
        GetRespFrameHandler,
        Vec<GetResp>,
    ))
        requires
            handles(*network),
            is_get_resp_message(**get_resp_msg),
        ensures
            made.0.wf(),
            made.0.get_resp_msg == *get_resp_msg,
            state_views(made.1@) == initial_states(network.nodes@, network.nodes@.len()),
            made.0.governs(state_views(made.1@)),
    {
        let frame_deserializer = FrameDeserializer::new(get_resp_msg);
        let mut get_resp_lookup: HashMap<u32, usize> = HashMap::new();
        let mut transfers: Vec<GetResp> = Vec::new();
        let mut i: usize = 0;
        while i < network.nodes.len()
            invariant
                i <= network.nodes@.len(),
                handles(*network),
                state_views(transfers@) == initial_states(network.nodes@, i as nat),
                files(get_resp_lookup@, state_views(transfers@)),
                forall|s: int| 0 <= s < transfers@.len() ==> (#[trigger] transfers@[s])@.wf(),
            decreases network.nodes@.len() - i,
        {
            let node = &network.nodes[i];
            let node_id = #[verifier::truncate] (node.id as u8);
            let ghost before = initial_states(network.nodes@, i as nat);
            let mut j: usize = 0;
            while j < node.object_entries.len()
                invariant
                    i < network.nodes@.len(),
                    handles(*network),
                    *node == network.nodes@[i as int],
                    node_id == node.id as u8,
                    before == initial_states(network.nodes@, i as nat),
                    j <= node.object_entries@.len(),
                    state_views(transfers@) == before + node_states(*node, j as nat),
                    files(get_resp_lookup@, state_views(transfers@)),
                    forall|s: int| 0 <= s < transfers@.len() ==> (#[trigger] transfers@[s])@.wf(),
                decreases node.object_entries@.len() - j,
            {
                let object_entry = &node.object_entries[j];
                let identifier = GetRespIdentifier {
                    server_id: node_id,
                    object_entry_id: #[verifier::truncate] (object_entry.id as u16),
                };
                let bits = match object_entry.ty.bit_size() {
                    Some(bits) => bits,
                    None => unreached(),
                };
                let size = bits / 32 + if bits % 32 == 0 {
                    0
                } else {
                    1
                };
                let fresh = GetResp::new(identifier, TypeDeserializer::new(&object_entry.ty), size);
                let ghost old_states = state_views(transfers@);
                let slot = transfers.len();
                get_resp_lookup.insert(identifier.key(), slot);
                transfers.push(fresh);
                assert(state_views(transfers@) =~= old_states.push(fresh@));
                j += 1;
            }
            i += 1;
        }
        (
            GetRespFrameHandler {
                frame_deserializer,
                get_resp_lookup,
                get_resp_msg: share(get_resp_msg),
            },
            transfers,
        )
    }

    /// Decodes a payload and finds the state that its frame belongs to. This
    /// reads the table only.
    pub fn route(&self, data: u64) -> (routed: Result<Routed, Error>)
        requires
            self.wf(),
        ensures
            match self.parsed(data) {
                Some(frame) => match self.slot_of(frame) {
                    Some(slot) => {
                        &&& routed is Ok
                        &&& routed->Ok_0.get_resp_frame == frame
                        &&& routed->Ok_0.slot == slot
                        &&& routed->Ok_0.frame.config == self.get_resp_msg
                        &&& routed->Ok_0.frame.data == data
                        &&& Some(attribute_views(routed->Ok_0.frame.value.attributes@))
                            == decoded_message(*self.get_resp_msg, data)
                    },
                    None => routed is Err && routed->Err_0
                        == Error::InvalidGetResponseServerOrObjectEntryNotFound,
                },
                None => routed is Err && routed->Err_0 == Error::UnknownEnumValue,
            },
    {
        let frame = match self.frame_deserializer.deserialize(data) {
            Ok(frame) => frame,
            Err(error) => {
                return Err(error);
            },
        };
        proof {
            lemma_get_resp_message_decodes(&self.get_resp_msg, data);
        }
        let get_resp_frame = GetRespFrame::new(&frame);

        let get_resp_identifier = GetRespIdentifier {
            server_id: get_resp_frame.server_id,
            object_entry_id: get_resp_frame.object_entry_id,
        };

        // lookup
        let key = get_resp_identifier.key();
        let slot = match self.get_resp_lookup.get(&key) {
            Some(slot) => *slot,
            None => {
                return Err(Error::InvalidGetResponseServerOrObjectEntryNotFound);
            },
        };
        Ok(Routed { frame, get_resp_frame, slot })
    }

    /// Handles one received get-response frame.
    ///
    /// The payload is decoded, the state of its entry is found and the frame
    /// is applied to it. A payload that does not decode, a frame of an unknown
    /// entry and a frame that its entry refuses are reported with their error
    /// and change no state. No frame changes the state of another entry.
    pub fn handle(&self, transfers: &mut Vec<GetResp>, can_frame: &TCanFrame) -> (handled: Result<
        Handled,
        Error,
    >)
        requires
            self.wf(),
            self.governs(state_views(old(transfers)@)),
        ensures
            self.governs(state_views(final(transfers)@)),
            state_views(final(transfers)@) == self.applied(
                state_views(old(transfers)@),
                can_frame.value.data,
            ),
            match self.outcome(state_views(old(transfers)@), can_frame.value.data) {
                Step::Refused(error) => handled is Err && handled->Err_0 == error,
                Step::Continued => handled is Ok && handled->Ok_0.completed is None,
                Step::Completed(value) => {
                    &&& handled is Ok
                    &&& handled->Ok_0.completed is Some
                    &&& handled->Ok_0.completed->0@ == value
                },
            },
            handled is Ok ==> {
                let frame = self.parsed(can_frame.value.data)->0;
                &&& handled->Ok_0.frame.timestamp == can_frame.timestamp
                &&& handled->Ok_0.frame.value.config == self.get_resp_msg
                &&& handled->Ok_0.frame.value.data == can_frame.value.data
                &&& Some(attribute_views(handled->Ok_0.frame.value.value.attributes@))
                    == decoded_message(*self.get_resp_msg, can_frame.value.data)
                &&& handled->Ok_0.identifier == (GetRespIdentifier {
                    server_id: frame.server_id,
                    object_entry_id: frame.object_entry_id,
                })
            },
    {
        let ghost states = state_views(transfers@);
        let routed = match self.route(can_frame.value().get_data_u64()) {
            Ok(routed) => routed,
            Err(error) => {
                return Err(error);
            },
        };
        let slot = routed.slot;
        let get_resp_frame = routed.get_resp_frame;
        let received = transfers[slot].receive(get_resp_frame);
        proof {
            let now = state_views(transfers@);
            assert forall|s: int| 0 <= s < now.len() implies self.get_resp_lookup@.contains_key(
                state_key(#[trigger] now[s]),
            ) && s <= self.get_resp_lookup@[state_key(now[s])] by {
                assert(state_key(now[s]) == state_key(states[s]));
            }
            assert forall|s: int| 0 <= s < now.len() implies (#[trigger] now[s]).wf() by {
                if s != slot {
                    assert(now[s] == states[s]);
                }
            }
        }
        match received {
            Ok(completed) => Ok(
                Handled {
                    frame: Timestamped::new(*can_frame.timestamp(), routed.frame),
                    identifier: GetRespIdentifier {
                        server_id: get_resp_frame.server_id,
                        object_entry_id: get_resp_frame.object_entry_id,
                    },
                    completed,
                },
            ),
            Err(error) => Err(error),
        }
    }
}

/// A frame that is refused changes nothing: the state behind it is the state
/// before it, so the frame that was due can still come.
pub proof fn lemma_refused_frame_changes_nothing(state: GetRespView, frame: GetRespFrame)
    requires
        state.step(frame) is Refused,
    ensures
        state.after(frame) == state,
{
}

/// In a transfer under way, a frame with the wrong toggle flag is refused
/// with the toggle error, and the frame with the right one is then taken as if
/// the wrong one had never come.
pub proof fn lemma_toggle_violation(state: GetRespView, wrong: GetRespFrame, right: GetRespFrame)
    requires
        !(state.state is Ready),
        !wrong.sof,
        wrong.toggle != state.state.expected_toggle(),
    ensures
        state.step(wrong) == Step::Refused(Error::InvalidGetResponseToggleFlag),
        state.after(wrong).step(right) == state.step(right),
        state.after(wrong).after(right) == state.after(right),
{
}

/// A transfer of three words: from `Ready`, the start frame and the middle
/// frame continue, and the end frame gives the value that the three words
/// decode to and returns the state to `Ready` with an empty buffer.
pub proof fn lemma_three_word_transfer(state: GetRespView, a: GetRespFrame, b: GetRespFrame, c: GetRespFrame)
    requires
        state.state is Ready,
        state.buffer.len() == 0,
        state.size == 3,
        a.sof && !a.eof && !a.toggle,
        !b.sof && !b.eof && b.toggle,
        !c.sof && c.eof && !c.toggle,
        decoded_type(state.ty, seq![a.data, b.data, c.data], 0) is Some,
    ensures
        state.step(a) is Continued,
        state.after(a).step(b) is Continued,
        state.after(a).after(b).step(c) == Step::Completed(
            decoded_type(state.ty, seq![a.data, b.data, c.data], 0)->0,
        ),
        state.after(a).after(b).after(c).state is Ready,
        state.after(a).after(b).after(c).buffer.len() == 0,
{
    let one = state.after(a);
    let two = one.after(b);
    assert(two.buffer.push(c.data) =~= seq![a.data, b.data, c.data]);
}

impl GetRespFrameHandler {
    /// A payload whose frame names a server and an object entry that the
    /// table does not know is refused as not found, and changes no state.
    pub proof fn lemma_unknown_identifier(self, states: Seq<GetRespView>, data: u64)
        requires
            self.parsed(data) is Some,
            self.slot_of(self.parsed(data)->0) is None,
        ensures
            self.outcome(states, data) == Step::Refused(
                Error::InvalidGetResponseServerOrObjectEntryNotFound,
            ),
            self.applied(states, data) == states,
    {
    }
}

} // verus!
