use mumble_core::connection::Connection;
use mumble_core::connection::ConnectionError;
use mumble_core::connection::ConnectionState;
use mumble_core::connection::MainEvent;
use mumble_core::connection::CLIENT_VERSION;
use mumble_core::connection::DEFAULT_TARGET_CHANNEL;
use mumble_core::roles::InputDirective;
use mumble_core::roles::InputEvent;
use mumble_core::roles::FrameAccumulator;
use mumble_core::roles::OutputEvent;
use mumble_core::roles::input_step;
use mumble_core::roles::output_step;
use mumble_core::roles::ping_step;
use mumble_core::threads::ConnectionThread;
use mumble_core::threads::InputThread;
use mumble_core::threads::OutputThread;
use mumble_core::threads::PingThread;
use mumble_core::threads::TaskHandle;
use mumble_core::threads::ThreadRegistry;
use mumble_core::threads::DEADMAN_INTERVAL_MS;
use mumble_core::wire::FrameOutcome;
use mumble_core::wire::ProtocolMessage;
use mumble_core::wire::decode_frame;

fn handle(id: u64) -> TaskHandle {
    TaskHandle { task_id: id }
}

#[test]
fn deadman_interval_is_half_a_second() {
    assert_eq!(DEADMAN_INTERVAL_MS, 500);
}

#[test]
fn default_target_channel_is_sixty() {
    assert_eq!(DEFAULT_TARGET_CHANNEL, 60);
}

#[test]
fn role_names() {
    assert_eq!(ConnectionThread::Ping.to_string(), "PingThread");
    assert_eq!(ConnectionThread::Output.to_string(), "OutputThread");
    assert_eq!(ConnectionThread::Input.to_string(), "InputThread");
    assert_eq!(ConnectionThread::Main.to_string(), "MainThread");
}

#[test]
fn second_spawn_reports_conflict() {
    let mut reg: ThreadRegistry<TaskHandle> = ThreadRegistry::new();
    assert!(reg.try_spawn(ConnectionThread::Output, || handle(1)));
    // The original task keeps running; the duplicate reports the conflict
    // and its factory is never invoked.
    assert!(!reg.try_spawn(ConnectionThread::Output, || panic!("factory must not run")));
    assert_eq!(reg.get(ConnectionThread::Output), Some(&handle(1)));
}

#[test]
fn remove_frees_role() {
    let mut reg: ThreadRegistry<TaskHandle> = ThreadRegistry::new();
    assert!(reg.try_spawn(ConnectionThread::Ping, || handle(1)));
    assert_eq!(reg.remove(ConnectionThread::Ping), Some(handle(1)));
    assert!(!reg.contains(ConnectionThread::Ping));
    assert!(reg.try_spawn(ConnectionThread::Ping, || handle(2)));
}

#[test]
fn handshake_reaches_synced_and_spawns_each_role_once() {
    let mut conn = Connection::new(b"alice".to_vec(), DEFAULT_TARGET_CHANNEL);
    assert_eq!(conn.state, ConnectionState::Connecting);

    let step = conn.handle_main_event(MainEvent::TransportReady);
    assert_eq!(conn.state, ConnectionState::VersionExchange);
    let version_frame = step.send.expect("version frame must be sent");
    match decode_frame(&version_frame) {
        FrameOutcome::Message(ProtocolMessage::Version { version }, _) => {
            assert_eq!(version, CLIENT_VERSION);
        },
        _ => panic!("expected a version frame"),
    }

    let step = conn.handle_main_event(MainEvent::PeerVersion { version: CLIENT_VERSION });
    assert_eq!(conn.state, ConnectionState::Authenticating);
    let auth_frame = step.send.expect("authenticate frame must be sent");
    match decode_frame(&auth_frame) {
        FrameOutcome::Message(ProtocolMessage::Authenticate { username }, _) => {
            assert_eq!(username, b"alice".to_vec());
        },
        _ => panic!("expected an authenticate frame"),
    }

    let step = conn.handle_main_event(MainEvent::SessionAck { session: 17 });
    assert_eq!(conn.state, ConnectionState::Synced);
    assert!(step.spawn_roles);
    assert!(step.error.is_none());
    assert_eq!(conn.session_id, Some(17));
    assert!(conn.running.is_live());

    assert!(conn.spawn_ping_thread(handle(1)));
    assert!(conn.spawn_output_thread(handle(2)));
    assert!(conn.spawn_input_thread(handle(3)));
    // Exactly one live entry per role; duplicates are conflicts.
    assert!(conn.threads.contains(ConnectionThread::Ping));
    assert!(conn.threads.contains(ConnectionThread::Output));
    assert!(conn.threads.contains(ConnectionThread::Input));
    assert!(!conn.spawn_ping_thread(handle(4)));
    assert!(!conn.spawn_output_thread(handle(5)));
    assert!(!conn.spawn_input_thread(handle(6)));
    assert_eq!(conn.threads.get(ConnectionThread::Ping), Some(&handle(1)));
    assert_eq!(conn.threads.get(ConnectionThread::Output), Some(&handle(2)));
    assert_eq!(conn.threads.get(ConnectionThread::Input), Some(&handle(3)));
}

#[test]
fn transport_setup_failure_is_reported_once() {
    let mut conn = Connection::new(Vec::new(), DEFAULT_TARGET_CHANNEL);
    let step = conn.handle_main_event(MainEvent::TransportSetupFailed);
    assert_eq!(step.error, Some(ConnectionError::TransportSetup));
    assert_eq!(conn.state, ConnectionState::Disconnected);
    assert!(!conn.running.is_live());
}

#[test]
fn encryption_setup_failure_is_reported_once() {
    let mut conn = Connection::new(Vec::new(), DEFAULT_TARGET_CHANNEL);
    let step = conn.handle_main_event(MainEvent::EncryptionSetupFailed);
    assert_eq!(step.error, Some(ConnectionError::EncryptionSetup));
    assert_eq!(conn.state, ConnectionState::Disconnected);
    assert!(!conn.running.is_live());
}

#[test]
fn incompatible_peer_version_is_rejected() {
    let mut conn = Connection::new(Vec::new(), DEFAULT_TARGET_CHANNEL);
    conn.handle_main_event(MainEvent::TransportReady);
    let step = conn.handle_main_event(MainEvent::PeerVersion { version: 0x0209_0000 });
    assert_eq!(step.error, Some(ConnectionError::VersionIncompatible));
    assert_eq!(conn.state, ConnectionState::Disconnected);
    assert!(!conn.running.is_live());
}

#[test]
fn rejected_credentials_are_reported() {
    let mut conn = Connection::new(b"mallory".to_vec(), DEFAULT_TARGET_CHANNEL);
    conn.handle_main_event(MainEvent::TransportReady);
    conn.handle_main_event(MainEvent::PeerVersion { version: CLIENT_VERSION });
    let step = conn.handle_main_event(MainEvent::AuthRejected);
    assert_eq!(step.error, Some(ConnectionError::AuthenticationFailed));
    assert_eq!(conn.state, ConnectionState::Disconnected);
    assert!(!conn.running.is_live());
}

#[test]
fn transport_loss_after_synced_surfaces_only_via_flag() {
    let mut conn = Connection::new(Vec::new(), DEFAULT_TARGET_CHANNEL);
    conn.handle_main_event(MainEvent::TransportReady);
    conn.handle_main_event(MainEvent::PeerVersion { version: CLIENT_VERSION });
    conn.handle_main_event(MainEvent::SessionAck { session: 1 });
    let step = conn.handle_main_event(MainEvent::TransportFailed);
    assert!(step.error.is_none());
    assert_eq!(conn.state, ConnectionState::Disconnected);
    assert!(!conn.running.is_live());
}

#[test]
fn dispatch_updates_session_state_and_republishes_text() {
    let mut conn = Connection::new(Vec::new(), DEFAULT_TARGET_CHANNEL);
    conn.handle_main_event(MainEvent::TransportReady);
    conn.handle_main_event(MainEvent::PeerVersion { version: CLIENT_VERSION });
    conn.handle_main_event(MainEvent::SessionAck { session: 1 });

    let publish = conn.dispatch_message(ProtocolMessage::ChannelState {
        channel_id: 60,
        name: b"lobby".to_vec(),
    });
    assert!(publish.is_none());
    assert_eq!(conn.channels.entries.len(), 1);
    assert_eq!(conn.channels.entries[0].id, 60);
    assert_eq!(conn.channels.entries[0].name, b"lobby".to_vec());

    let publish = conn.dispatch_message(ProtocolMessage::UserState {
        session: 7,
        name: b"bob".to_vec(),
    });
    assert!(publish.is_none());
    assert_eq!(conn.users.entries.len(), 1);

    let publish = conn.dispatch_message(ProtocolMessage::TextMessage {
        actor: Some(7),
        session: Vec::new(),
        channel_id: vec![60],
        tree_id: Vec::new(),
        message: b"hello there".to_vec(),
    });
    assert_eq!(publish, Some(b"hello there".to_vec()));

    let publish = conn.dispatch_message(ProtocolMessage::Ping { timestamp: 0 });
    assert!(publish.is_none());
}

#[test]
fn roster_upsert_replaces_same_id() {
    let mut conn = Connection::new(Vec::new(), DEFAULT_TARGET_CHANNEL);
    conn.handle_main_event(MainEvent::TransportReady);
    conn.handle_main_event(MainEvent::PeerVersion { version: CLIENT_VERSION });
    conn.handle_main_event(MainEvent::SessionAck { session: 1 });
    conn.dispatch_message(ProtocolMessage::ChannelState { channel_id: 60, name: b"a".to_vec() });
    conn.dispatch_message(ProtocolMessage::ChannelState { channel_id: 61, name: b"b".to_vec() });
    conn.dispatch_message(ProtocolMessage::ChannelState { channel_id: 60, name: b"c".to_vec() });
    assert_eq!(conn.channels.entries.len(), 2);
    assert_eq!(conn.channels.entries[0].id, 60);
    assert_eq!(conn.channels.entries[0].name, b"c".to_vec());
    assert_eq!(conn.channels.entries[1].id, 61);
}

#[test]
fn output_step_frames_published_text_toward_default_channel() {
    let r = output_step(true, DEFAULT_TARGET_CHANNEL, OutputEvent::Message(b"hello".to_vec()));
    assert!(r.continue_running);
    let frame = r.send.expect("a frame must be pushed outbound");
    match decode_frame(&frame) {
        FrameOutcome::Message(
            ProtocolMessage::TextMessage { actor, session, channel_id, tree_id, message },
            _,
        ) => {
            assert_eq!(actor, None);
            assert!(session.is_empty());
            assert_eq!(channel_id, vec![DEFAULT_TARGET_CHANNEL]);
            assert!(tree_id.is_empty());
            assert_eq!(message, b"hello".to_vec());
        },
        _ => panic!("expected a text-message frame"),
    }
}

#[test]
fn output_step_stops_within_one_interval_after_clear() {
    let r = output_step(false, DEFAULT_TARGET_CHANNEL, OutputEvent::Tick);
    assert!(!r.continue_running);
    assert!(r.send.is_none());
    // Even a pending message is not sent once the flag is down.
    let r = output_step(false, DEFAULT_TARGET_CHANNEL, OutputEvent::Message(b"late".to_vec()));
    assert!(!r.continue_running);
    assert!(r.send.is_none());
}

#[test]
fn output_step_survives_closed_and_lagged_channel() {
    let r = output_step(true, DEFAULT_TARGET_CHANNEL, OutputEvent::Closed);
    assert!(r.continue_running);
    assert!(r.send.is_none());
    let r = output_step(true, DEFAULT_TARGET_CHANNEL, OutputEvent::Lagged(3));
    assert!(r.continue_running);
    assert!(r.send.is_none());
    let r = output_step(true, DEFAULT_TARGET_CHANNEL, OutputEvent::Tick);
    assert!(r.continue_running);
    assert!(r.send.is_none());
}

#[test]
fn ping_step_emits_ping_and_stops_after_clear() {
    let r = ping_step(true, 424242);
    assert!(r.continue_running);
    let frame = r.send.expect("a ping frame must be pushed outbound");
    match decode_frame(&frame) {
        FrameOutcome::Message(ProtocolMessage::Ping { timestamp }, _) => {
            assert_eq!(timestamp, 424242);
        },
        _ => panic!("expected a ping frame"),
    }
    let r = ping_step(false, 424243);
    assert!(!r.continue_running);
    assert!(r.send.is_none());
}

#[test]
fn input_step_is_fatal_on_transport_loss() {
    let mut acc = FrameAccumulator::new();
    let r: InputDirective = input_step(true, InputEvent::Data(vec![1, 2, 3]), &mut acc);
    assert!(r.continue_running);
    assert!(!r.fatal);
    let r = input_step(true, InputEvent::PeerClosed, &mut acc);
    assert!(!r.continue_running);
    assert!(r.fatal);
    let r = input_step(true, InputEvent::ReadFailed, &mut acc);
    assert!(!r.continue_running);
    assert!(r.fatal);
    let r = input_step(false, InputEvent::Data(vec![4]), &mut acc);
    assert!(!r.continue_running);
    assert!(!r.fatal);
}
