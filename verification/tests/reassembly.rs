use std::sync::Arc;
use std::time::Instant;

use cnl::can_adapter::can_frame::CanFrame;
use cnl::can_adapter::timestamped::Timestamped;
use cnl::config::EncodedField;
use cnl::config::Encoding;
use cnl::config::Field;
use cnl::config::Message;
use cnl::config::MessageId;
use cnl::config::MessageRef;
use cnl::config::Network;
use cnl::config::Node;
use cnl::config::ObjectEntry;
use cnl::config::Signal;
use cnl::config::SignalType;
use cnl::config::Type;
use cnl::config::Variant;
use cnl::deserialize::type_deserializer::TypeDeserializer;
use cnl::deserialize::FrameDeserializer;
use cnl::errors::Error;
use cnl::frame::Value;
use cnl::handler::command_resp_frame_handler::CommandRespFrameHandler;
use cnl::handler::get_resp_frame_handler::GetResp;
use cnl::handler::get_resp_frame_handler::GetRespFrame;
use cnl::handler::get_resp_frame_handler::GetRespFrameHandler;
use cnl::handler::get_resp_frame_handler::GetRespIdentifier;
use cnl::handler::get_resp_frame_handler::GetRespState;

fn unsigned_part(name: &str, bit_offset: u32, size: u8) -> EncodedField {
    EncodedField {
        name: name.to_owned(),
        encoding: Encoding::Primitive(Signal { name: name.to_owned(), bit_offset, ty: SignalType::UnsignedInt { size } }),
    }
}

fn get_resp_message() -> MessageRef {
    Arc::new(Message {
        id: MessageId::StandardId(0x19),
        name: "get_resp".to_owned(),
        description: None,
        dlc: 8,
        attributes: vec![EncodedField {
            name: "header".to_owned(),
            encoding: Encoding::Struct {
                attribs: vec![
                    unsigned_part("sof", 0, 1),
                    unsigned_part("eof", 1, 1),
                    unsigned_part("toggle", 2, 1),
                    unsigned_part("od_index", 3, 13),
                    unsigned_part("client_id", 16, 8),
                    unsigned_part("server_id", 24, 8),
                    unsigned_part("data", 32, 32),
                ],
            },
        }],
    })
}

fn six_parts() -> Vec<EncodedField> {
    vec![
        unsigned_part("sof", 0, 1),
        unsigned_part("eof", 1, 1),
        unsigned_part("toggle", 2, 1),
        unsigned_part("od_index", 3, 13),
        unsigned_part("client_id", 16, 8),
        unsigned_part("server_id", 24, 8),
    ]
}

fn word() -> Type {
    Type::Primitive(SignalType::UnsignedInt { size: 32 })
}

fn three_words() -> Type {
    Type::Struct {
        name: "triple".to_owned(),
        attribs: vec![
            Field { name: "x".to_owned(), ty: word() },
            Field { name: "y".to_owned(), ty: word() },
            Field { name: "z".to_owned(), ty: word() },
        ],
    }
}

fn mode() -> Type {
    Type::Enum {
        name: "mode".to_owned(),
        size: 8,
        entries: vec![Variant { name: "idle".to_owned(), value: 0 }, Variant { name: "run".to_owned(), value: 1 }],
    }
}

fn entry(id: u32, ty: Type) -> ObjectEntry {
    ObjectEntry { id, name: format!("entry{id}"), ty: Arc::new(ty) }
}

fn network() -> Network {
    Network {
        nodes: vec![
            Node { id: 1, name: "motor".to_owned(), object_entries: vec![entry(5, three_words()), entry(6, word())], tx_streams: vec![] },
            Node { id: 2, name: "sensor".to_owned(), object_entries: vec![entry(5, three_words()), entry(9, mode())], tx_streams: vec![] },
        ],
        get_resp_message: get_resp_message(),
    }
}

fn part(sof: bool, eof: bool, toggle: bool, server_id: u8, object_entry_id: u16, data: u32) -> GetRespFrame {
    GetRespFrame { sof, eof, toggle, client_id: 7, server_id, object_entry_id, data }
}

fn on_the_wire(frame: GetRespFrame) -> Timestamped<CanFrame> {
    Timestamped::now(CanFrame::new(0x19, false, false, 8, frame.to_payload()))
}

fn triple_state() -> GetResp {
    GetResp::new(GetRespIdentifier { server_id: 1, object_entry_id: 5 }, TypeDeserializer::new(&Arc::new(three_words())), 3)
}

fn is_triple(value: &Value, x: u64, y: u64, z: u64) -> bool {
    matches!(value.attribute("x"), Some(Value::UnsignedValue(v)) if *v == x)
        && matches!(value.attribute("y"), Some(Value::UnsignedValue(v)) if *v == y)
        && matches!(value.attribute("z"), Some(Value::UnsignedValue(v)) if *v == z)
}

#[test]
fn payload_has_the_wire_layout() {
    let frame = GetRespFrame { sof: true, eof: false, toggle: true, client_id: 0xab, server_id: 0xcd, object_entry_id: 0x1234, data: 0xdead_beef };
    assert_eq!(frame.to_payload(), 0xdead_beef_cd_ab_0000 | (0x1234 << 3) | 0b101);
    let frame = GetRespFrame { sof: false, eof: true, toggle: false, client_id: 0, server_id: 0, object_entry_id: 0, data: 0 };
    assert_eq!(frame.to_payload(), 0b010);
    let frame = GetRespFrame { sof: false, eof: false, toggle: false, client_id: 0, server_id: 0, object_entry_id: 0xffff, data: 0 };
    assert_eq!(frame.to_payload(), 0x1fff << 3);
}

#[test]
fn decoded_frame_is_read_as_get_resp_frame() {
    let sent = GetRespFrame { sof: true, eof: false, toggle: true, client_id: 0xab, server_id: 0xcd, object_entry_id: 0x1234, data: 0xdead_beef };
    let frame = FrameDeserializer::new(&get_resp_message()).deserialize(sent.to_payload()).unwrap();
    assert_eq!(GetRespFrame::new(&frame), sent);
    let frame = FrameDeserializer::new(&get_resp_message()).deserialize(0).unwrap();
    assert_eq!(GetRespFrame::new(&frame), GetRespFrame { sof: false, eof: false, toggle: false, client_id: 0, server_id: 0, object_entry_id: 0, data: 0 });
}

#[test]
fn identifier_key_tells_identifiers_apart() {
    assert_eq!(GetRespIdentifier { server_id: 1, object_entry_id: 5 }.key(), 0x1_0005);
    assert_eq!(GetRespIdentifier { server_id: 0xff, object_entry_id: 0xffff }.key(), 0xff_ffff);
    assert_eq!(GetRespIdentifier { server_id: 0, object_entry_id: 0 }.key(), 0);
    assert_ne!(GetRespIdentifier { server_id: 1, object_entry_id: 0 }.key(), GetRespIdentifier { server_id: 0, object_entry_id: 1 }.key());
}

#[test]
fn three_word_transfer_completes() {
    let mut state = triple_state();
    assert_eq!(state.state, GetRespState::Ready);
    assert!(matches!(state.receive(part(true, false, false, 1, 5, 0xa)), Ok(None)));
    assert_eq!(state.state, GetRespState::FragmentationToggleHigh);
    assert_eq!(state.buffer, vec![0xa]);
    assert!(matches!(state.receive(part(false, false, true, 1, 5, 0xb)), Ok(None)));
    assert_eq!(state.state, GetRespState::FragmentationToggleLow);
    assert_eq!(state.buffer, vec![0xa, 0xb]);
    let done = state.receive(part(false, true, false, 1, 5, 0xc));
    assert!(matches!(&done, Ok(Some(value)) if is_triple(value, 0xa, 0xb, 0xc)));
    assert_eq!(state.state, GetRespState::Ready);
    assert!(state.buffer.is_empty());
    assert!(matches!(state.receive(part(true, false, false, 1, 5, 1)), Ok(None)));
    assert!(matches!(state.receive(part(false, false, true, 1, 5, 2)), Ok(None)));
    assert!(matches!(state.receive(part(false, true, false, 1, 5, 3)), Ok(Some(value)) if is_triple(&value, 1, 2, 3)));
}

#[test]
fn toggle_violation_leaves_the_transfer_as_it_was() {
    let mut state = triple_state();
    assert!(matches!(state.receive(part(true, false, false, 1, 5, 0xa)), Ok(None)));
    assert!(matches!(state.receive(part(false, false, false, 1, 5, 0xb)), Err(Error::InvalidGetResponseToggleFlag)));
    assert_eq!(state.state, GetRespState::FragmentationToggleHigh);
    assert_eq!(state.buffer, vec![0xa]);
    assert!(matches!(state.receive(part(false, false, true, 1, 5, 0xb)), Ok(None)));
    assert!(matches!(state.receive(part(false, true, true, 1, 5, 0xc)), Err(Error::InvalidGetResponseToggleFlag)));
    assert!(matches!(state.receive(part(false, true, false, 1, 5, 0xc)), Ok(Some(value)) if is_triple(&value, 0xa, 0xb, 0xc)));
}

#[test]
fn start_flag_is_checked_first() {
    let mut state = triple_state();
    assert!(matches!(state.receive(part(false, true, true, 1, 5, 0)), Err(Error::InvalidGetResponseSofFlag)));
    assert!(matches!(state.receive(part(false, false, false, 1, 5, 0)), Err(Error::InvalidGetResponseSofFlag)));
    assert_eq!(state.state, GetRespState::Ready);
    assert!(state.buffer.is_empty());
    assert!(matches!(state.receive(part(true, true, true, 1, 5, 0)), Err(Error::InvalidGetResponseToggleFlag)));
    assert!(matches!(state.receive(part(true, false, false, 1, 5, 0)), Ok(None)));
    assert!(matches!(state.receive(part(true, false, true, 1, 5, 0)), Err(Error::InvalidGetResponseSofFlag)));
    assert_eq!(state.buffer, vec![0]);
}

#[test]
fn end_flag_must_come_with_the_last_word() {
    let mut state = triple_state();
    assert!(matches!(state.receive(part(true, true, false, 1, 5, 0)), Err(Error::InvalidGetResponseEofFlag)));
    assert!(matches!(state.receive(part(true, false, false, 1, 5, 0)), Ok(None)));
    assert!(matches!(state.receive(part(false, true, true, 1, 5, 0)), Err(Error::InvalidGetResponseEofFlag)));
    assert!(matches!(state.receive(part(false, false, true, 1, 5, 0)), Ok(None)));
    assert!(matches!(state.receive(part(false, false, false, 1, 5, 0)), Err(Error::InvalidGetResponseEofFlag)));
    assert_eq!(state.state, GetRespState::FragmentationToggleLow);
    assert_eq!(state.buffer, vec![0, 0]);
}

#[test]
fn one_word_transfer_is_one_frame() {
    let mut state = GetResp::new(GetRespIdentifier { server_id: 1, object_entry_id: 6 }, TypeDeserializer::new(&Arc::new(word())), 1);
    assert!(matches!(state.receive(part(true, false, false, 1, 6, 9)), Err(Error::InvalidGetResponseEofFlag)));
    assert!(matches!(state.receive(part(true, true, false, 1, 6, 9)), Ok(Some(Value::UnsignedValue(9)))));
    assert_eq!(state.state, GetRespState::Ready);
    assert!(matches!(state.receive(part(true, true, false, 1, 6, 10)), Ok(Some(Value::UnsignedValue(10)))));
}

#[test]
fn undecodable_transfer_is_refused() {
    let mut state = GetResp::new(GetRespIdentifier { server_id: 2, object_entry_id: 9 }, TypeDeserializer::new(&Arc::new(mode())), 1);
    assert!(matches!(state.receive(part(true, true, false, 2, 9, 5)), Err(Error::UnknownEnumValue)));
    assert_eq!(state.state, GetRespState::Ready);
    assert!(state.buffer.is_empty());
    assert!(matches!(state.receive(part(true, true, false, 2, 9, 1)), Ok(Some(Value::EnumValue(name))) if name == "run"));
}

#[test]
fn handler_makes_one_state_for_each_entry() {
    let network = network();
    assert!(GetRespFrameHandler::supports(&network));
    assert!(GetRespFrameHandler::accepts(&network.get_resp_message));
    let (handler, transfers) = GetRespFrameHandler::create(&network, &network.get_resp_message);
    assert_eq!(transfers.len(), 4);
    assert_eq!(transfers[0].identifier, GetRespIdentifier { server_id: 1, object_entry_id: 5 });
    assert_eq!(transfers[1].identifier, GetRespIdentifier { server_id: 1, object_entry_id: 6 });
    assert_eq!(transfers[2].identifier, GetRespIdentifier { server_id: 2, object_entry_id: 5 });
    assert_eq!(transfers[3].identifier, GetRespIdentifier { server_id: 2, object_entry_id: 9 });
    assert_eq!(transfers[0].size, 3);
    assert_eq!(transfers[1].size, 1);
    assert_eq!(transfers[3].size, 1);
    for transfer in &transfers {
        assert_eq!(transfer.state, GetRespState::Ready);
        assert!(transfer.buffer.is_empty());
    }
    assert_eq!(handler.get_resp_lookup.len(), 4);
    assert_eq!(handler.get_resp_lookup.get(&0x1_0005), Some(&0));
    assert_eq!(handler.get_resp_lookup.get(&0x2_0009), Some(&3));
}

#[test]
fn later_entry_of_an_identifier_wins() {
    let mut network = network();
    network.nodes.push(Node { id: 1, name: "twin".to_owned(), object_entries: vec![entry(5, word())], tx_streams: vec![] });
    let (handler, mut transfers) = GetRespFrameHandler::create(&network, &network.get_resp_message);
    assert_eq!(transfers.len(), 5);
    assert_eq!(handler.get_resp_lookup.get(&0x1_0005), Some(&4));
    let handled = handler.handle(&mut transfers, &on_the_wire(part(true, true, false, 1, 5, 77))).unwrap();
    assert!(matches!(handled.completed, Some(Value::UnsignedValue(77))));
    assert_eq!(transfers[0].state, GetRespState::Ready);
}

#[test]
fn message_without_the_parts_is_not_accepted() {
    let mut message = Message { id: MessageId::StandardId(1), name: "m".to_owned(), description: None, dlc: 8, attributes: vec![] };
    assert!(!GetRespFrameHandler::accepts(&message));
    message.attributes.push(unsigned_part("header", 0, 8));
    assert!(!GetRespFrameHandler::accepts(&message));
    message.attributes[0] = EncodedField { name: "header".to_owned(), encoding: Encoding::Struct { attribs: six_parts() } };
    assert!(!GetRespFrameHandler::accepts(&message));
    let mut parts = six_parts();
    parts.push(EncodedField {
        name: "data".to_owned(),
        encoding: Encoding::Primitive(Signal { name: "data".to_owned(), bit_offset: 32, ty: SignalType::SignedInt { size: 32 } }),
    });
    message.attributes[0] = EncodedField { name: "header".to_owned(), encoding: Encoding::Struct { attribs: parts } };
    assert!(!GetRespFrameHandler::accepts(&message));
}

#[test]
fn handled_frame_keeps_payload_and_timestamp() {
    let network = network();
    let (handler, mut transfers) = GetRespFrameHandler::create(&network, &network.get_resp_message);
    let stamp = Instant::now();
    let sent = part(true, false, false, 1, 5, 0xa);
    let can_frame = Timestamped::new(stamp, CanFrame::new(0x19, false, false, 8, sent.to_payload()));
    let handled = handler.handle(&mut transfers, &can_frame).unwrap();
    assert_eq!(*handled.frame.timestamp(), stamp);
    assert_eq!(handled.frame.value().data(), sent.to_payload());
    assert_eq!(handled.frame.value().name(), "get_resp");
    assert_eq!(handled.identifier, GetRespIdentifier { server_id: 1, object_entry_id: 5 });
    assert!(handled.completed.is_none());
    assert_eq!(GetRespFrame::new(handled.frame.value()), sent);
    assert_eq!(transfers[0].buffer, vec![0xa]);
}

#[test]
fn unknown_identifier_changes_nothing() {
    let network = network();
    let (handler, mut transfers) = GetRespFrameHandler::create(&network, &network.get_resp_message);
    assert!(handler.handle(&mut transfers, &on_the_wire(part(true, false, false, 1, 5, 0xa))).is_ok());
    for (server, object_entry) in [(1, 7), (3, 5), (2, 6), (0, 0)] {
        let refused = handler.handle(&mut transfers, &on_the_wire(part(true, false, false, server, object_entry, 1)));
        assert!(matches!(refused, Err(Error::InvalidGetResponseServerOrObjectEntryNotFound)));
        assert!(matches!(handler.route(part(true, false, false, server, object_entry, 1).to_payload()), Err(Error::InvalidGetResponseServerOrObjectEntryNotFound)));
    }
    assert_eq!(transfers[0].state, GetRespState::FragmentationToggleHigh);
    assert_eq!(transfers[0].buffer, vec![0xa]);
    for transfer in &transfers[1..] {
        assert_eq!(transfer.state, GetRespState::Ready);
        assert!(transfer.buffer.is_empty());
    }
}

#[test]
fn interleaved_transfers_do_not_disturb_each_other() {
    let network = network();
    let (handler, mut transfers) = GetRespFrameHandler::create(&network, &network.get_resp_message);
    let frames = [
        part(true, false, false, 1, 5, 0x11),
        part(true, false, false, 2, 5, 0x21),
        part(false, false, true, 2, 5, 0x22),
        part(false, false, true, 1, 5, 0x12),
        part(false, true, false, 1, 5, 0x13),
        part(true, true, false, 1, 6, 0x99),
        part(false, true, false, 2, 5, 0x23),
    ];
    let mut completed = Vec::new();
    for frame in frames {
        let handled = handler.handle(&mut transfers, &on_the_wire(frame)).unwrap();
        if let Some(value) = handled.completed {
            completed.push((handled.identifier, value));
        }
    }
    assert_eq!(completed.len(), 3);
    assert_eq!(completed[0].0, GetRespIdentifier { server_id: 1, object_entry_id: 5 });
    assert!(is_triple(&completed[0].1, 0x11, 0x12, 0x13));
    assert_eq!(completed[1].0, GetRespIdentifier { server_id: 1, object_entry_id: 6 });
    assert!(matches!(completed[1].1, Value::UnsignedValue(0x99)));
    assert_eq!(completed[2].0, GetRespIdentifier { server_id: 2, object_entry_id: 5 });
    assert!(is_triple(&completed[2].1, 0x21, 0x22, 0x23));
    for transfer in &transfers {
        assert_eq!(transfer.state, GetRespState::Ready);
        assert!(transfer.buffer.is_empty());
    }
}

#[test]
fn refused_frame_of_one_entry_leaves_the_others() {
    let network = network();
    let (handler, mut transfers) = GetRespFrameHandler::create(&network, &network.get_resp_message);
    assert!(handler.handle(&mut transfers, &on_the_wire(part(true, false, false, 2, 5, 1))).is_ok());
    assert!(matches!(handler.handle(&mut transfers, &on_the_wire(part(false, false, true, 1, 5, 2))), Err(Error::InvalidGetResponseSofFlag)));
    assert!(matches!(handler.handle(&mut transfers, &on_the_wire(part(true, true, false, 2, 9, 200))), Err(Error::UnknownEnumValue)));
    assert_eq!(transfers[0].state, GetRespState::Ready);
    assert_eq!(transfers[2].state, GetRespState::FragmentationToggleHigh);
    assert_eq!(transfers[2].buffer, vec![1]);
    assert_eq!(transfers[3].state, GetRespState::Ready);
}

#[test]
fn routing_finds_the_slot_without_changing_it() {
    let network = network();
    let (handler, transfers) = GetRespFrameHandler::create(&network, &network.get_resp_message);
    let sent = part(false, true, true, 2, 9, 1);
    let routed = handler.route(sent.to_payload()).unwrap();
    assert_eq!(routed.slot, 3);
    assert_eq!(routed.get_resp_frame, sent);
    assert_eq!(routed.frame.data(), sent.to_payload());
    assert_eq!(transfers[3].state, GetRespState::Ready);
}

#[test]
fn command_response_is_decoded_on_its_own() {
    let message = Arc::new(Message {
        id: MessageId::StandardId(0x20),
        name: "command_resp".to_owned(),
        description: None,
        dlc: 1,
        attributes: vec![
            unsigned_part("code", 0, 4),
            EncodedField { name: "mode".to_owned(), encoding: Encoding::Enum { bit_offset: 4, size: 4, entries: vec![Variant { name: "ok".to_owned(), value: 1 }] } },
        ],
    });
    let handler = CommandRespFrameHandler::create(&message);
    let stamp = Instant::now();
    let handled = handler.handle(&Timestamped::new(stamp, CanFrame::new(0x20, false, false, 1, 0x1a))).unwrap();
    assert_eq!(*handled.timestamp(), stamp);
    assert_eq!(handled.value().name(), "command_resp");
    assert!(matches!(handled.value().attribute("code"), Some(Value::UnsignedValue(0xa))));
    assert!(matches!(handled.value().attribute("mode"), Some(Value::EnumValue(name)) if name == "ok"));
    assert!(matches!(handler.handle(&Timestamped::now(CanFrame::new(0x20, false, false, 1, 0x2a))), Err(Error::UnknownEnumValue)));
}

#[test]
fn errors_describe_themselves() {
    let all = [
        Error::InvalidGetResponseSofFlag,
        Error::InvalidGetResponseToggleFlag,
        Error::InvalidGetResponseEofFlag,
        Error::InvalidGetResponseServerOrObjectEntryNotFound,
        Error::UnknownEnumValue,
    ];
    for (i, error) in all.iter().enumerate() {
        assert!(!error.message().is_empty());
        for other in &all[i + 1..] {
            assert_ne!(error.message(), other.message());
        }
    }
    assert!(Error::InvalidGetResponseToggleFlag.message().contains("toggle"));
}
