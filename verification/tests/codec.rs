use mumble_core::roles::FrameAccumulator;
use mumble_core::roles::PollOutcome;
use mumble_core::wire::FrameOutcome;
use mumble_core::wire::ProtocolMessage;
use mumble_core::wire::decode_frame;

fn text_message(
    actor: Option<u32>,
    session: Vec<u32>,
    channel_id: Vec<u32>,
    tree_id: Vec<u32>,
    message: Vec<u8>,
) -> ProtocolMessage {
    ProtocolMessage::TextMessage { actor, session, channel_id, tree_id, message }
}

#[test]
fn version_frame_exact_bytes() {
    let msg = ProtocolMessage::Version { version: 0x00010204 };
    let frame = msg.encode_frame();
    assert_eq!(frame, vec![0, 0, 0, 0, 0, 4, 0, 1, 2, 4]);
}

#[test]
fn text_message_frame_exact_bytes() {
    let msg = text_message(None, Vec::new(), vec![60], Vec::new(), b"hi".to_vec());
    let frame = msg.encode_frame();
    let expected: Vec<u8> = vec![
        0, 11, // type id of a text message
        0, 0, 0, 19, // payload length
        0, // actor absent
        0, 0, 0, 0, // no target sessions
        0, 0, 0, 1, 0, 0, 0, 60, // one target channel: 60
        0, 0, 0, 0, // no target trees
        b'h', b'i',
    ];
    assert_eq!(frame, expected);
}

#[test]
fn ping_frame_exact_bytes() {
    let msg = ProtocolMessage::Ping { timestamp: 0x0102030405060708 };
    let frame = msg.encode_frame();
    assert_eq!(frame, vec![0, 3, 0, 0, 0, 8, 1, 2, 3, 4, 5, 6, 7, 8]);
}

#[test]
fn server_sync_frame_exact_bytes() {
    let msg = ProtocolMessage::ServerSync { session: 258 };
    assert_eq!(msg.encode_frame(), vec![0, 5, 0, 0, 0, 4, 0, 0, 1, 2]);
}

#[test]
fn text_message_with_actor_exact_bytes() {
    let msg = text_message(Some(7), vec![5], Vec::new(), Vec::new(), b"x".to_vec());
    let expected: Vec<u8> = vec![
        0, 11, // type id of a text message
        0, 0, 0, 22, // payload length
        1, 0, 0, 0, 7, // actor present: 7
        0, 0, 0, 1, 0, 0, 0, 5, // one target session: 5
        0, 0, 0, 0, // no target channels
        0, 0, 0, 0, // no target trees
        b'x',
    ];
    assert_eq!(msg.encode_frame(), expected);
}

#[test]
fn frame_round_trip_text_message() {
    let msg = text_message(
        Some(7),
        vec![1, 2, 3],
        vec![60, 61],
        vec![9],
        b"round trip".to_vec(),
    );
    let frame = msg.encode_frame();
    let used = frame.len();
    match decode_frame(&frame) {
        FrameOutcome::Message(decoded, n) => {
            assert_eq!(decoded, msg);
            assert_eq!(n, used);
        },
        _ => panic!("expected a decoded message"),
    }
}

#[test]
fn frame_round_trip_all_kinds() {
    let messages = vec![
        ProtocolMessage::Version { version: 66052 },
        ProtocolMessage::Authenticate { username: b"alice".to_vec() },
        ProtocolMessage::Ping { timestamp: 123456789 },
        ProtocolMessage::ServerSync { session: 42 },
        ProtocolMessage::ChannelState { channel_id: 60, name: b"lobby".to_vec() },
        ProtocolMessage::UserState { session: 7, name: b"bob".to_vec() },
        text_message(None, Vec::new(), vec![60], Vec::new(), Vec::new()),
        ProtocolMessage::CryptSetup { key: vec![1, 2, 3, 4] },
        ProtocolMessage::Unknown { type_id: 99, payload: vec![0xde, 0xad] },
    ];
    for msg in messages {
        let frame = msg.encode_frame();
        match decode_frame(&frame) {
            FrameOutcome::Message(decoded, n) => {
                assert_eq!(decoded, msg);
                assert_eq!(n, frame.len());
            },
            _ => panic!("expected a decoded message"),
        }
    }
}

#[test]
fn incomplete_frame_not_dispatched() {
    let msg = text_message(None, Vec::new(), vec![60], Vec::new(), b"partial".to_vec());
    let frame = msg.encode_frame();
    for cut in 0..frame.len() {
        let prefix: Vec<u8> = frame[..cut].to_vec();
        assert_eq!(decode_frame(&prefix), FrameOutcome::Incomplete);
    }
}

#[test]
fn malformed_known_frame_skipped() {
    // A version frame whose payload is 3 bytes instead of 4.
    let bad: Vec<u8> = vec![0, 0, 0, 0, 0, 3, 1, 2, 3];
    assert_eq!(decode_frame(&bad), FrameOutcome::Skip(9));
}

#[test]
fn unknown_type_id_decodes_to_unknown() {
    let raw: Vec<u8> = vec![0, 99, 0, 0, 0, 2, 0xab, 0xcd];
    match decode_frame(&raw) {
        FrameOutcome::Message(ProtocolMessage::Unknown { type_id, payload }, used) => {
            assert_eq!(type_id, 99);
            assert_eq!(payload, vec![0xab, 0xcd]);
            assert_eq!(used, 8);
        },
        _ => panic!("expected an unknown message"),
    }
}

#[test]
fn accumulator_waits_for_complete_frame() {
    let msg = ProtocolMessage::ServerSync { session: 5 };
    let frame = msg.encode_frame();
    let mut acc = FrameAccumulator::new();
    let head: Vec<u8> = frame[..4].to_vec();
    let tail: Vec<u8> = frame[4..].to_vec();
    acc.feed(&head);
    assert_eq!(acc.poll(), PollOutcome::Pending);
    acc.feed(&tail);
    assert_eq!(acc.poll(), PollOutcome::Ready(msg));
    assert_eq!(acc.poll(), PollOutcome::Pending);
}

#[test]
fn accumulator_skips_malformed_then_delivers() {
    let bad: Vec<u8> = vec![0, 3, 0, 0, 0, 1, 9];
    let good = ProtocolMessage::Ping { timestamp: 1 }.encode_frame();
    let mut acc = FrameAccumulator::new();
    acc.feed(&bad);
    acc.feed(&good);
    assert_eq!(acc.poll(), PollOutcome::Skipped);
    assert_eq!(acc.poll(), PollOutcome::Ready(ProtocolMessage::Ping { timestamp: 1 }));
}
