//! A transport that makes up frames from a seeded random generator, for
//! exercising the rest of the stack without a bus.
//!
//! The waiting itself is left to the caller: the mock only says how long to
//! wait and what arrives afterwards.

use rand::rngs::StdRng;
use rand::Rng;
use rand::SeedableRng;
use vstd::prelude::*;

use crate::bits::low_mask;
use crate::bits::mask_of;
use crate::can_adapter::can_error::CanError;
use crate::can_adapter::can_frame::CanFrame;
use crate::can_adapter::timestamped::Timestamped;
use crate::can_adapter::TCanError;
use crate::can_adapter::TCanFrame;
use crate::config::share;
use crate::config::Message;
use crate::config::MessageId;
use crate::config::Network;
use crate::config::NetworkRef;
use crate::handler::get_resp_frame_handler::get_resp_payload;
use crate::handler::get_resp_frame_handler::GetRespFrame;

verus! {

/// `rand::rngs::StdRng`: the state of a random generator. Nothing is known of
/// what it holds.
#[verifier::external_type_specification]
#[verifier::external_body]
pub struct ExStdRng(StdRng);

/// `SeedableRng::seed_from_u64` for `StdRng`: a generator made from a seed.
#[verifier::external_body]
fn seeded(seed: u64) -> (rng: StdRng) {
    StdRng::seed_from_u64(seed)
}

/// `Rng::gen_range` on a half-open range of `u64`: some number of the range,
/// whatever the generator holds. The crate panics on an empty range, which is
/// left out here.
#[verifier::external_body]
fn draw_between(rng: &mut StdRng, low: u64, high: u64) -> (drawn: u64)
    requires
        low < high,
    ensures
        low <= drawn < high,
{
    rng.gen_range(low..high)
}

/// `Rng::gen_range` on the indices below `len`: some index below `len`,
/// whatever the generator holds. The crate panics on an empty range, which is
/// left out here.
#[verifier::external_body]
fn draw_index(rng: &mut StdRng, len: usize) -> (drawn: usize)
    requires
        0 < len,
    ensures
        drawn < len,
{
    rng.gen_range(0..len)
}

/// `Rng::gen_ratio` with one in two: a coin flip. The crate draws it exactly
/// as it draws `gen_bool` of one half.
#[verifier::external_body]
fn draw_coin(rng: &mut StdRng) -> (heads: bool) {
    rng.gen_ratio(1, 2)
}

/// `Rng::gen` of a `u32`: any 32-bit word.
#[verifier::external_body]
fn draw_u32(rng: &mut StdRng) -> (drawn: u32) {
    rng.gen()
}

/// `Rng::gen` of a `u64`: any 64-bit word.
#[verifier::external_body]
fn draw_u64(rng: &mut StdRng) -> (drawn: u64) {
    rng.gen()
}

/// The identifier number and the extended flag of a message.
pub open spec fn frame_id(message: Message) -> (u32, bool) {
    match message.id {
        MessageId::StandardId(id) => (id, false),
        MessageId::ExtendedId(id) => (id, true),
    }
}

/// The get-response frame that the mock makes up for object entry `entry` of
/// node `node` with the data word `oe_value`: one whole transfer in one frame,
/// with the start and the end flag set and the toggle flag clear. The node is
/// the server, and the number of nodes stands for the client.
pub open spec fn mock_get_resp(network: Network, node: int, entry: int, oe_value: u32) -> CanFrame {
    let message = *network.get_resp_message;
    CanFrame {
        id: frame_id(message).0,
        ide: frame_id(message).1,
        rtr: false,
        dlc: message.dlc,
        data: get_resp_payload(
            GetRespFrame {
                sof: true,
                eof: true,
                toggle: false,
                client_id: network.nodes@.len() as u8,
                server_id: network.nodes@[node].id as u8,
                object_entry_id: (network.nodes@[node].object_entries@[entry].id & 0x1fff) as u16,
                data: oe_value,
            },
        ),
    }
}

/// The frame that the mock makes up for stream `stream` of node `node` from
/// the random word `data`: the word cut down to the bytes that the stream's
/// message carries.
pub open spec fn mock_stream(network: Network, node: int, stream: int, data: u64) -> CanFrame {
    let message = *network.nodes@[node].tx_streams@[stream].message;
    CanFrame {
        id: frame_id(message).0,
        ide: frame_id(message).1,
        rtr: false,
        dlc: message.dlc,
        data: data & low_mask(8 * message.dlc),
    }
}

/// Whether the mock can make up frames for a network: the network has an
/// object entry and a stream to choose from, and no message of it claims more
/// than eight bytes.
pub open spec fn mockable(network: Network) -> bool {
    &&& network.get_resp_message.dlc <= 8
    &&& exists|i: int|
        0 <= i < network.nodes@.len() && (#[trigger] network.nodes@[i]).object_entries@.len() > 0
    &&& exists|i: int|
        0 <= i < network.nodes@.len() && (#[trigger] network.nodes@[i]).tx_streams@.len() > 0
    &&& forall|i: int, j: int|
        0 <= i < network.nodes@.len() && 0 <= j < network.nodes@[i].tx_streams@.len() ==> (
        #[trigger] network.nodes@[i].tx_streams@[j]).message.dlc <= 8
}

/// Makes the get-response frame for one object entry and one data word.
pub fn get_resp_frame(network: &Network, node: usize, entry: usize, oe_value: u32) -> (frame: CanFrame)
    requires
        node < network.nodes@.len(),
        entry < network.nodes@[node as int].object_entries@.len(),
        network.get_resp_message.dlc <= 8,
    ensures
        frame == mock_get_resp(*network, node as int, entry as int, oe_value),
        frame.wf(),
{
    let object_entry = &network.nodes[node].object_entries[entry];
    let server_id = network.nodes[node].id;

    let msg = &network.get_resp_message;

    let (id, ide) = match msg.id {
        MessageId::StandardId(id) => (id, false),
        MessageId::ExtendedId(id) => (id, true),
    };
    let object_entry_id: u32 = object_entry.id;
    assert(object_entry_id & 0x1fff <= 0x1fff) by (bit_vector);
    let parts = GetRespFrame {
        sof: true,
        eof: true,
        toggle: false,
        client_id: #[verifier::truncate] (network.nodes.len() as u8),
        server_id: #[verifier::truncate] (server_id as u8),
        object_entry_id: (object_entry_id & 0x1fff) as u16,
        data: oe_value,
    };
    CanFrame::new(id, ide, false, msg.dlc, parts.to_payload())
}

/// Makes the frame of one stream from a random word.
pub fn stream_frame(network: &Network, node: usize, stream: usize, data: u64) -> (frame: CanFrame)
    requires
        node < network.nodes@.len(),
        stream < network.nodes@[node as int].tx_streams@.len(),
        network.nodes@[node as int].tx_streams@[stream as int].message.dlc <= 8,
    ensures
        frame == mock_stream(*network, node as int, stream as int, data),
        frame.wf(),
{
    let msg = &network.nodes[node].tx_streams[stream].message;

    let (id, ide) = match msg.id {
        MessageId::StandardId(id) => (id, false),
        MessageId::ExtendedId(id) => (id, true),
    };
    let dlc = msg.dlc;

    CanFrame::new(id, ide, false, dlc, data & mask_of(8 * dlc as u32))
}

/// Draws an object entry and a data word, and makes their get-response
/// frame.
fn random_get_resp(rng: &mut StdRng, network_config: &Network) -> (frame: CanFrame)
    requires
        mockable(*network_config),
    ensures
        exists|node: int, entry: int, oe_value: u32|
            {
                &&& 0 <= node < network_config.nodes@.len()
                &&& 0 <= entry < network_config.nodes@[node].object_entries@.len()
                &&& frame == #[trigger] mock_get_resp(*network_config, node, entry, oe_value)
            },
        frame.wf(),
{
    let mut object_entries: Vec<(usize, usize)> = Vec::new();
    let mut i: usize = 0;
    while i < network_config.nodes.len()
        invariant
            i <= network_config.nodes@.len(),
            forall|k: int|
                0 <= k < object_entries@.len() ==> {
                    &&& (#[trigger] object_entries@[k]).0 < network_config.nodes@.len()
                    &&& object_entries@[k].1 < network_config.nodes@[object_entries@[k].0 as int].object_entries@.len()
                },
            forall|a: int|
                0 <= a < i && (#[trigger] network_config.nodes@[a]).object_entries@.len() > 0
                    ==> object_entries@.len() > 0,
        decreases network_config.nodes@.len() - i,
    {
        let mut j: usize = 0;
        while j < network_config.nodes[i].object_entries.len()
            invariant
                i < network_config.nodes@.len(),
                j <= network_config.nodes@[i as int].object_entries@.len(),
                forall|k: int|
                    0 <= k < object_entries@.len() ==> {
                        &&& (#[trigger] object_entries@[k]).0 < network_config.nodes@.len()
                        &&& object_entries@[k].1 < network_config.nodes@[object_entries@[k].0 as int].object_entries@.len()
                    },
                forall|a: int|
                    0 <= a < i && (#[trigger] network_config.nodes@[a]).object_entries@.len() > 0
                        ==> object_entries@.len() > 0,
                j > 0 ==> object_entries@.len() > 0,
            decreases network_config.nodes@[i as int].object_entries@.len() - j,
        {
            object_entries.push((i, j));
            j += 1;
        }
        i += 1;
    }
    let (node, entry) = object_entries[draw_index(rng, object_entries.len())];
    let oe_value: u32 = draw_u32(rng);
    let frame = get_resp_frame(network_config, node, entry, oe_value);
    frame
}

/// Draws a stream and a random word, and makes the stream's frame.
fn random_stream_frame(rng: &mut StdRng, network_config: &Network) -> (frame: CanFrame)
    requires
        mockable(*network_config),
    ensures
        exists|node: int, stream: int, data: u64|
            {
                &&& 0 <= node < network_config.nodes@.len()
                &&& 0 <= stream < network_config.nodes@[node].tx_streams@.len()
                &&& frame == #[trigger] mock_stream(*network_config, node, stream, data)
            },
        frame.wf(),
{
    let mut streams: Vec<(usize, usize)> = Vec::new();
    let mut i: usize = 0;
    while i < network_config.nodes.len()
        invariant
            i <= network_config.nodes@.len(),
            forall|k: int|
                0 <= k < streams@.len() ==> {
                    &&& (#[trigger] streams@[k]).0 < network_config.nodes@.len()
                    &&& streams@[k].1 < network_config.nodes@[streams@[k].0 as int].tx_streams@.len()
                },
            forall|a: int|
                0 <= a < i && (#[trigger] network_config.nodes@[a]).tx_streams@.len() > 0
                    ==> streams@.len() > 0,
        decreases network_config.nodes@.len() - i,
    {
        let mut j: usize = 0;
        while j < network_config.nodes[i].tx_streams.len()
            invariant
                i < network_config.nodes@.len(),
                j <= network_config.nodes@[i as int].tx_streams@.len(),
                forall|k: int|
                    0 <= k < streams@.len() ==> {
                        &&& (#[trigger] streams@[k]).0 < network_config.nodes@.len()
                        &&& streams@[k].1 < network_config.nodes@[streams@[k].0 as int].tx_streams@.len()
                    },
                forall|a: int|
                    0 <= a < i && (#[trigger] network_config.nodes@[a]).tx_streams@.len() > 0
                        ==> streams@.len() > 0,
                j > 0 ==> streams@.len() > 0,
            decreases network_config.nodes@[i as int].tx_streams@.len() - j,
        {
            streams.push((i, j));
            j += 1;
        }
        i += 1;
    }
    let (node, stream) = streams[draw_index(rng, streams.len())];

    let data = draw_u64(rng);

    let frame = stream_frame(network_config, node, stream, data);
    frame
}

/// The mock transport: a network to make frames for, and the generator that
/// all its choices come from.
pub struct MockCanAdapter {
    pub network_ref: NetworkRef,
    pub rng: StdRng,
}

impl MockCanAdapter {
    /// Whether the mock's network is one that it can make frames for.
    pub open spec fn wf(self) -> bool {
        mockable(*self.network_ref)
    }

    /// Tells whether the mock can make up frames for a network.
    pub fn supports(network: &Network) -> (supported: bool)
        ensures
            supported == mockable(*network),
    {
        if network.get_resp_message.dlc > 8 {
            return false;
        }
        let mut has_entry = false;
        let mut has_stream = false;
        let mut i: usize = 0;
        while i < network.nodes.len()
            invariant
                i <= network.nodes@.len(),
                has_entry == exists|a: int|
                    0 <= a < i && (#[trigger] network.nodes@[a]).object_entries@.len() > 0,
                has_stream == exists|a: int|
                    0 <= a < i && (#[trigger] network.nodes@[a]).tx_streams@.len() > 0,
                forall|a: int, b: int|
                    0 <= a < i && 0 <= b < network.nodes@[a].tx_streams@.len() ==> (
                    #[trigger] network.nodes@[a].tx_streams@[b]).message.dlc <= 8,
            decreases network.nodes@.len() - i,
        {
            let node = &network.nodes[i];
            if node.object_entries.len() > 0 {
                has_entry = true;
            }
            if node.tx_streams.len() > 0 {
                has_stream = true;
            }
            let mut j: usize = 0;
            while j < node.tx_streams.len()
                invariant
                    i < network.nodes@.len(),
                    *node == network.nodes@[i as int],
                    j <= node.tx_streams@.len(),
                    forall|b: int| 0 <= b < j ==> (#[trigger] node.tx_streams@[b]).message.dlc <= 8,
                decreases node.tx_streams@.len() - j,
            {
                if node.tx_streams[j].message.dlc > 8 {
                    return false;
                }
                j += 1;
            }
            i += 1;
        }
        has_entry && has_stream
    }

    /// A mock for a network, with a generator made from `seed`. Mocks of one
    /// network and one seed make the same choices.
    pub fn create(network_ref: &NetworkRef, seed: u64) -> (adapter: MockCanAdapter)
        requires
            mockable(**network_ref),
        ensures
            adapter.wf(),
            adapter.network_ref == *network_ref,
    {
        Self { network_ref: share(network_ref), rng: seeded(seed) }
    }

    /// Takes a frame for sending. The mock sends nothing.
    pub fn send(&self, frame: CanFrame) {
    }

    /// Draws the time to wait before the next frame arrives, in
    /// microseconds.
    pub fn receive_delay(&mut self) -> (micros: u64)
        ensures
            10 <= micros < 100,
            final(self).network_ref == old(self).network_ref,
    {
        draw_between(&mut self.rng, 10, 100)
    }

    /// Makes up the frame that arrives next: with even odds a get-response
    /// frame of some object entry with a random data word, or the frame of
    /// some stream with a random payload. The mock never fails to receive.
    pub fn receive(&mut self) -> (received: Result<TCanFrame, TCanError>)
        requires
            old(self).wf(),
        ensures
            final(self).network_ref == old(self).network_ref,
            received is Ok,
            received->Ok_0.value.wf(),
            ({
                let network = *old(self).network_ref;
                let frame = received->Ok_0.value;
                ||| exists|node: int, entry: int, oe_value: u32|
                    {
                        &&& 0 <= node < network.nodes@.len()
                        &&& 0 <= entry < network.nodes@[node].object_entries@.len()
                        &&& frame == #[trigger] mock_get_resp(network, node, entry, oe_value)
                    }
                ||| exists|node: int, stream: int, data: u64|
                    {
                        &&& 0 <= node < network.nodes@.len()
                        &&& 0 <= stream < network.nodes@[node].tx_streams@.len()
                        &&& frame == #[trigger] mock_stream(network, node, stream, data)
                    }
            }),
    {
        let t: bool = draw_coin(&mut self.rng);
        match t {
            false => Ok(Timestamped::now(random_get_resp(&mut self.rng, &self.network_ref))),
            true => Ok(Timestamped::now(random_stream_frame(&mut self.rng, &self.network_ref))),
        }
    }

    /// Draws the time to wait before the next fault shows, in seconds.
    pub fn receive_err_delay(&mut self) -> (seconds: u64)
        ensures
            2 <= seconds < 10,
            final(self).network_ref == old(self).network_ref,
    {
        draw_between(&mut self.rng, 2, 10)
    }

    /// The fault that the mock reports: always the same bus error.
    pub fn receive_err(&self) -> (error: TCanError)
        ensures
            error.value == CanError::Can(42),
    {
        Timestamped::now(CanError::Can(42))
    }
}

} // verus!
