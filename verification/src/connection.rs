//! The connection: owner of the liveness flag, the thread registry and the
//! session-level state, and the Main role's protocol state machine.
//!
//! The Main role drives `Connecting -> VersionExchange -> Authenticating ->
//! Synced -> Disconnected`. Setup failures before Synced surface once as a
//! typed error; after Synced every fault surfaces only as the liveness flag
//! going false. The runtime performs the returned actions: sending handshake
//! frames, spawning the worker roles, publishing inbound text.

use vstd::prelude::*;

use crate::threads::ConnectionThread;
use crate::threads::TaskHandle;
use crate::threads::ThreadRegistry;
use crate::threads::InputThread;
use crate::threads::OutputThread;
use crate::threads::PingThread;
use crate::wire::MAX_PAYLOAD_LEN;
use crate::wire::MsgModel;
use crate::wire::ProtocolMessage;
use crate::wire::copy_range;

verus! {

/// The protocol version this client offers during the handshake.
pub const CLIENT_VERSION: u32 = 66052;

/// The default target channel of text messages sent by the Output role.
pub const DEFAULT_TARGET_CHANNEL: u32 = 60;

/// Peer versions are compatible when they agree on the major version, the
/// high 16 bits of the version word.
pub open spec fn spec_version_compatible(v: u32) -> bool {
    v / 65536 == CLIENT_VERSION / 65536
}

pub fn version_compatible(v: u32) -> (r: bool)
    ensures
        r == spec_version_compatible(v),
{
    v / 65536 == CLIENT_VERSION / 65536
}

/// The shared liveness flag. It starts true and can only be cleared: there
/// is no way back, so every role that observes false may stop for good, and
/// all of them observe it within one deadman interval.
pub struct LivenessFlag {
    live: bool,
}

impl LivenessFlag {
    pub closed spec fn spec_live(&self) -> bool {
        self.live
    }

    pub fn new() -> (r: Self)
        ensures
            r.spec_live(),
    {
        LivenessFlag { live: true }
    }

    pub fn is_live(&self) -> (r: bool)
        ensures
            r == self.spec_live(),
    {
        self.live
    }

    /// The one-way transition: request shutdown or record a fatal fault.
    pub fn clear(&mut self)
        ensures
            !final(self).spec_live(),
    {
        self.live = false;
    }
}

/// One named entry of the session state: a channel or a user known to the
/// session, keyed by its numeric id.
pub struct RosterEntry {
    pub id: u32,
    pub name: Vec<u8>,
}

impl RosterEntry {
    pub open spec fn model(&self) -> (u32, Seq<u8>) {
        (self.id, self.name@)
    }
}

/// Insert-or-replace by id, keeping the order of first insertion.
pub open spec fn spec_upsert(m: Seq<(u32, Seq<u8>)>, id: u32, name: Seq<u8>) -> Seq<(u32, Seq<u8>)>
    decreases m.len(),
{
    if m.len() == 0 {
        seq![(id, name)]
    } else if m[0].0 == id {
        seq![(id, name)] + m.drop_first()
    } else {
        seq![m[0]] + spec_upsert(m.drop_first(), id, name)
    }
}

/// The channel or user list of a session.
pub struct Roster {
    pub entries: Vec<RosterEntry>,
}

impl Roster {
    pub open spec fn model(&self) -> Seq<(u32, Seq<u8>)> {
        self.entries@.map_values(|e: RosterEntry| e.model())
    }

    pub fn new() -> (r: Self)
        ensures
            r.model() == Seq::<(u32, Seq<u8>)>::empty(),
    {
        let r = Roster { entries: Vec::new() };
        assert(r.model() =~= Seq::<(u32, Seq<u8>)>::empty());
        r
    }

    /// Update the entry with this id, or append it when the id is new.
    pub fn upsert(&mut self, id: u32, name: Vec<u8>)
        ensures
            final(self).model() == spec_upsert(old(self).model(), id, name@),
    {
        let ghost m = self.model();
        let n = self.entries.len();
        let mut j: usize = 0;
        proof {
            assert(m.skip(0) =~= m);
            assert(m.take(0) =~= Seq::<(u32, Seq<u8>)>::empty());
            assert(m.take(0) + spec_upsert(m.skip(0), id, name@) =~= spec_upsert(m, id, name@));
        }
        while j < n
            invariant
                n == self.entries.len(),
                j <= n,
                self == old(self),
                m == self.model(),
                spec_upsert(m, id, name@) == m.take(j as int) + spec_upsert(
                    m.skip(j as int),
                    id,
                    name@,
                ),
            decreases n - j,
        {
            let ghost mj = m.skip(j as int);
            proof {
                assert(mj[0] == m[j as int]);
                assert(mj.drop_first() =~= m.skip(j as int + 1));
            }
            if self.entries[j].id == id {
                self.entries.set(j, RosterEntry { id, name });
                proof {
                    assert(spec_upsert(mj, id, name@) == seq![(id, name@)] + m.skip(
                        j as int + 1,
                    ));
                    assert(self.model() =~= m.take(j as int) + (seq![(id, name@)] + m.skip(
                        j as int + 1,
                    )));
                }
                return;
            }
            proof {
                assert(spec_upsert(mj, id, name@) == seq![m[j as int]] + spec_upsert(
                    m.skip(j as int + 1),
                    id,
                    name@,
                ));
                assert(m.take(j as int) + (seq![m[j as int]] + spec_upsert(
                    m.skip(j as int + 1),
                    id,
                    name@,
                )) =~= m.take(j as int + 1) + spec_upsert(m.skip(j as int + 1), id, name@));
            }
            j = j + 1;
        }
        self.entries.push(RosterEntry { id, name });
        proof {
            assert(m.skip(n as int) =~= Seq::<(u32, Seq<u8>)>::empty());
            assert(m.take(n as int) =~= m);
            assert(self.model() =~= m + seq![(id, name@)]);
        }
    }
}

/// The protocol states of the Main role.
#[derive(Debug, Clone, Copy, PartialEq, Eq, Structural)]
pub enum ConnectionState {
    Connecting,
    VersionExchange,
    Authenticating,
    Synced,
    Disconnected,
}

/// Setup failures during initialization, surfaced once to the caller. After
/// a connection reaches Synced, faults surface only through the liveness
/// flag, never as a second caller-visible error.
#[derive(Debug, Clone, Copy, PartialEq, Eq, Structural)]
pub enum ConnectionError {
    TransportSetup,
    EncryptionSetup,
    VersionIncompatible,
    AuthenticationFailed,
}

/// A lifecycle event handed to the Main role by the runtime.
#[derive(Debug, Clone, Copy, PartialEq, Eq, Structural)]
pub enum MainEvent {
    /// The transport (and its encryption) is established.
    TransportReady,
    /// Establishing the raw transport failed.
    TransportSetupFailed,
    /// Establishing the encrypted stream failed.
    EncryptionSetupFailed,
    /// The peer's version frame arrived.
    PeerVersion { version: u32 },
    /// The peer acknowledged session establishment.
    SessionAck { session: u32 },
    /// The peer rejected the credentials.
    AuthRejected,
    /// The liveness flag was observed cleared.
    LivenessCleared,
    /// A transport read or write failed after establishment.
    TransportFailed,
    /// The peer closed the transport.
    PeerClosed,
}

/// What one lifecycle event asks the runtime to do.
pub struct MainStep {
    /// The setup error to report to the caller of `init`, if any.
    pub error: Option<ConnectionError>,
    /// A handshake frame to write to the transport.
    pub send: Option<Vec<u8>>,
    /// Whether the Ping, Output and Input roles are to be spawned now.
    pub spawn_roles: bool,
}

pub open spec fn spec_next_state(s: ConnectionState, e: MainEvent) -> ConnectionState {
    match (s, e) {
        (ConnectionState::Connecting, MainEvent::TransportReady) => ConnectionState::VersionExchange,
        (ConnectionState::Connecting, MainEvent::TransportSetupFailed) => ConnectionState::Disconnected,
        (ConnectionState::Connecting, MainEvent::EncryptionSetupFailed) => ConnectionState::Disconnected,
        (ConnectionState::VersionExchange, MainEvent::PeerVersion { version }) => {
            if spec_version_compatible(version) {
                ConnectionState::Authenticating
            } else {
                ConnectionState::Disconnected
            }
        },
        (ConnectionState::Authenticating, MainEvent::SessionAck { .. }) => ConnectionState::Synced,
        (ConnectionState::Authenticating, MainEvent::AuthRejected) => ConnectionState::Disconnected,
        (ConnectionState::Synced, MainEvent::LivenessCleared) => ConnectionState::Disconnected,
        (ConnectionState::Synced, MainEvent::TransportFailed) => ConnectionState::Disconnected,
        (ConnectionState::Synced, MainEvent::PeerClosed) => ConnectionState::Disconnected,
        _ => s,
    }
}

pub open spec fn spec_setup_error(s: ConnectionState, e: MainEvent) -> Option<ConnectionError> {
    match (s, e) {
        (ConnectionState::Connecting, MainEvent::TransportSetupFailed) => Some(
            ConnectionError::TransportSetup,
        ),
        (ConnectionState::Connecting, MainEvent::EncryptionSetupFailed) => Some(
            ConnectionError::EncryptionSetup,
        ),
        (ConnectionState::VersionExchange, MainEvent::PeerVersion { version }) => {
            if spec_version_compatible(version) {
                None
            } else {
                Some(ConnectionError::VersionIncompatible)
            }
        },
        (ConnectionState::Authenticating, MainEvent::AuthRejected) => Some(
            ConnectionError::AuthenticationFailed,
        ),
        _ => None,
    }
}

/// Whether the event completes the handshake, at which point the worker
/// roles are spawned.
pub open spec fn spec_spawns_roles(s: ConnectionState, e: MainEvent) -> bool {
    s is Authenticating && e is SessionAck
}

/// The handshake frame the event asks the runtime to send.
pub open spec fn spec_handshake_send(s: ConnectionState, e: MainEvent, username: Seq<u8>) -> Option<
    Seq<u8>,
> {
    match (s, e) {
        (ConnectionState::Connecting, MainEvent::TransportReady) => Some(
            (MsgModel::Version { version: CLIENT_VERSION }).spec_frame(),
        ),
        (ConnectionState::VersionExchange, MainEvent::PeerVersion { version }) => {
            if spec_version_compatible(version) {
                Some((MsgModel::Authenticate { username }).spec_frame())
            } else {
                None
            }
        },
        _ => None,
    }
}

/// Whether the event tears the connection down, clearing the liveness flag.
pub open spec fn spec_clears_flag(s: ConnectionState, e: MainEvent) -> bool {
    !(s is Disconnected) && spec_next_state(s, e) is Disconnected
}

/// The long-lived owner of one session: the liveness flag, the thread
/// registry, the Main role's protocol state and the session-level channel
/// and user lists. The encrypted stream and the channels between the roles
/// are owned by the runtime around the core.
pub struct Connection {
    pub running: LivenessFlag,
    pub threads: ThreadRegistry<TaskHandle>,
    pub state: ConnectionState,
    pub session_id: Option<u32>,
    pub channels: Roster,
    pub users: Roster,
    pub username: Vec<u8>,
    pub default_channel: u32,
}

impl Connection {
    /// The credentials must fit an authenticate frame.
    pub open spec fn wf(&self) -> bool {
        self.username@.len() <= MAX_PAYLOAD_LEN
    }

    /// A fresh connection: live, no roles running, handshake not started.
    pub fn new(username: Vec<u8>, default_channel: u32) -> (r: Self)
        requires
            username@.len() <= MAX_PAYLOAD_LEN,
        ensures
            r.wf(),
            r.running.spec_live(),
            r.state is Connecting,
            r.session_id is None,
            forall|role: ConnectionThread| r.threads.spec_get(role) is None,
            r.channels.model() == Seq::<(u32, Seq<u8>)>::empty(),
            r.users.model() == Seq::<(u32, Seq<u8>)>::empty(),
            r.username == username,
            r.default_channel == default_channel,
    {
        Connection {
            running: LivenessFlag::new(),
            threads: ThreadRegistry::new(),
            state: ConnectionState::Connecting,
            session_id: None,
            channels: Roster::new(),
            users: Roster::new(),
            username,
            default_channel,
        }
    }

    /// Register a task for a role, guarded by the registry: a duplicate
    /// spawn attempt leaves the running task alone and reports the conflict.
    pub fn try_spawn_role(&mut self, role: ConnectionThread, handle: TaskHandle) -> (spawned: bool)
        ensures
            spawned == (old(self).threads.spec_get(role) is None),
            spawned ==> final(self).threads == old(self).threads.spec_insert(role, handle),
            !spawned ==> final(self).threads == old(self).threads,
            final(self).running == old(self).running,
            final(self).state == old(self).state,
            final(self).session_id == old(self).session_id,
            final(self).channels == old(self).channels,
            final(self).users == old(self).users,
            final(self).username == old(self).username,
            final(self).default_channel == old(self).default_channel,
    {
        self.threads.try_spawn(
            role,
            (|| -> (h: TaskHandle)
                ensures
                    h == handle,
                { handle }),
        )
    }

    /// Advance the Main role's state machine by one lifecycle event and
    /// return what the runtime must do for it.
    pub fn handle_main_event(&mut self, event: MainEvent) -> (r: MainStep)
        requires
            old(self).wf(),
        ensures
            final(self).wf(),
            final(self).state == spec_next_state(old(self).state, event),
            r.error == spec_setup_error(old(self).state, event),
            r.spawn_roles == spec_spawns_roles(old(self).state, event),
            (match spec_handshake_send(old(self).state, event, old(self).username@) {
                Some(bytes) => r.send matches Some(b) && b@ == bytes,
                None => r.send is None,
            }),
            final(self).running.spec_live() == (old(self).running.spec_live()
                && !spec_clears_flag(old(self).state, event)),
            final(self).session_id == (if spec_spawns_roles(old(self).state, event) {
                match event {
                    MainEvent::SessionAck { session } => Some(session),
                    _ => old(self).session_id,
                }
            } else {
                old(self).session_id
            }),
            final(self).threads == old(self).threads,
            final(self).channels == old(self).channels,
            final(self).users == old(self).users,
            final(self).username == old(self).username,
            final(self).default_channel == old(self).default_channel,
    {
        let idle = MainStep { error: None, send: None, spawn_roles: false };
        match self.state {
            ConnectionState::Connecting => {
                match event {
                    MainEvent::TransportReady => {
                        self.state = ConnectionState::VersionExchange;
                        let msg = ProtocolMessage::Version { version: CLIENT_VERSION };
                        let buffer = msg.encode_frame();
                        MainStep { error: None, send: Some(buffer), spawn_roles: false }
                    },
                    MainEvent::TransportSetupFailed => {
                        self.state = ConnectionState::Disconnected;
                        self.running.clear();
                        MainStep {
                            error: Some(ConnectionError::TransportSetup),
                            send: None,
                            spawn_roles: false,
                        }
                    },
                    MainEvent::EncryptionSetupFailed => {
                        self.state = ConnectionState::Disconnected;
                        self.running.clear();
                        MainStep {
                            error: Some(ConnectionError::EncryptionSetup),
                            send: None,
                            spawn_roles: false,
                        }
                    },
                    _ => idle,
                }
            },
            ConnectionState::VersionExchange => {
                match event {
                    MainEvent::PeerVersion { version } => {
                        if version_compatible(version) {
                            self.state = ConnectionState::Authenticating;
                            let username = copy_range(&self.username, 0, self.username.len());
                            proof {
                                assert(username@ =~= self.username@);
                            }
                            let msg = ProtocolMessage::Authenticate { username };
                            let buffer = msg.encode_frame();
                            MainStep { error: None, send: Some(buffer), spawn_roles: false }
                        } else {
                            self.state = ConnectionState::Disconnected;
                            self.running.clear();
                            MainStep {
                                error: Some(ConnectionError::VersionIncompatible),
                                send: None,
                                spawn_roles: false,
                            }
                        }
                    },
                    _ => idle,
                }
            },
            ConnectionState::Authenticating => {
                match event {
                    MainEvent::SessionAck { session } => {
                        self.state = ConnectionState::Synced;
                        self.session_id = Some(session);
                        MainStep { error: None, send: None, spawn_roles: true }
                    },
                    MainEvent::AuthRejected => {
                        self.state = ConnectionState::Disconnected;
                        self.running.clear();
                        MainStep {
                            error: Some(ConnectionError::AuthenticationFailed),
                            send: None,
                            spawn_roles: false,
                        }
                    },
                    _ => idle,
                }
            },
            ConnectionState::Synced => {
                match event {
                    MainEvent::LivenessCleared => {
                        self.state = ConnectionState::Disconnected;
                        self.running.clear();
                        idle
                    },
                    MainEvent::TransportFailed => {
                        self.state = ConnectionState::Disconnected;
                        self.running.clear();
                        idle
                    },
                    MainEvent::PeerClosed => {
                        self.state = ConnectionState::Disconnected;
                        self.running.clear();
                        idle
                    },
                    _ => idle,
                }
            },
            ConnectionState::Disconnected => idle,
        }
    }

    /// Consume one decoded message while Synced: channel and user state
    /// update the session lists, inbound text is republished for external
    /// consumers, and everything else — a lone frame's decode error having
    /// already been dropped by Input — is ignored.
    pub fn dispatch_message(&mut self, msg: ProtocolMessage) -> (publish: Option<Vec<u8>>)
        requires
            old(self).state is Synced,
        ensures
            final(self).state == old(self).state,
            final(self).running == old(self).running,
            final(self).threads == old(self).threads,
            final(self).session_id == old(self).session_id,
            final(self).username == old(self).username,
            final(self).default_channel == old(self).default_channel,
            (match msg {
                ProtocolMessage::ChannelState { channel_id, name } => (final(self).channels.model()
                    == spec_upsert(old(self).channels.model(), channel_id, name@) && final(self).users
                    == old(self).users && publish is None),
                ProtocolMessage::UserState { session, name } => (final(self).users.model()
                    == spec_upsert(old(self).users.model(), session, name@) && final(self).channels
                    == old(self).channels && publish is None),
                ProtocolMessage::TextMessage { message, .. } => (publish matches Some(b) && b@
                    == message@ && final(self).channels == old(self).channels && final(self).users
                    == old(self).users),
                _ => (publish is None && final(self).channels == old(self).channels
                    && final(self).users == old(self).users),
            }),
    {
        match msg {
            ProtocolMessage::ChannelState { channel_id, name } => {
                self.channels.upsert(channel_id, name);
                None
            },
            ProtocolMessage::UserState { session, name } => {
                self.users.upsert(session, name);
                None
            },
            ProtocolMessage::TextMessage { message, .. } => Some(message),
            _ => None,
        }
    }
}

impl PingThread for Connection {
    /// Spawn the Ping role: true and exactly the Ping entry stored when the
    /// role was vacant; false and nothing changed when a Ping task already
    /// runs.
    fn spawn_ping_thread(&mut self, handle: TaskHandle) -> (spawned: bool)
        ensures
            spawned == (old(self).threads.spec_get(ConnectionThread::Ping) is None),
            spawned ==> final(self).threads == old(self).threads.spec_insert(
                ConnectionThread::Ping,
                handle,
            ),
            !spawned ==> final(self).threads == old(self).threads,
            final(self).running == old(self).running,
            final(self).state == old(self).state,
            final(self).session_id == old(self).session_id,
            final(self).channels == old(self).channels,
            final(self).users == old(self).users,
            final(self).username == old(self).username,
            final(self).default_channel == old(self).default_channel,
    {
        self.try_spawn_role(ConnectionThread::Ping, handle)
    }
}

impl OutputThread for Connection {
    /// Spawn the Output role: true and exactly the Output entry stored when
    /// the role was vacant; false and nothing changed — the running task
    /// kept — when an Output task already runs.
    fn spawn_output_thread(&mut self, handle: TaskHandle) -> (spawned: bool)
        ensures
            spawned == (old(self).threads.spec_get(ConnectionThread::Output) is None),
            spawned ==> final(self).threads == old(self).threads.spec_insert(
                ConnectionThread::Output,
                handle,
            ),
            !spawned ==> final(self).threads == old(self).threads,
            final(self).running == old(self).running,
            final(self).state == old(self).state,
            final(self).session_id == old(self).session_id,
            final(self).channels == old(self).channels,
            final(self).users == old(self).users,
            final(self).username == old(self).username,
            final(self).default_channel == old(self).default_channel,
    {
        self.try_spawn_role(ConnectionThread::Output, handle)
    }
}

impl InputThread for Connection {
    /// Spawn the Input role: true and exactly the Input entry stored when
    /// the role was vacant; false and nothing changed when an Input task
    /// already runs.
    fn spawn_input_thread(&mut self, handle: TaskHandle) -> (spawned: bool)
        ensures
            spawned == (old(self).threads.spec_get(ConnectionThread::Input) is None),
            spawned ==> final(self).threads == old(self).threads.spec_insert(
                ConnectionThread::Input,
                handle,
            ),
            !spawned ==> final(self).threads == old(self).threads,
            final(self).running == old(self).running,
            final(self).state == old(self).state,
            final(self).session_id == old(self).session_id,
            final(self).channels == old(self).channels,
            final(self).users == old(self).users,
            final(self).username == old(self).username,
            final(self).default_channel == old(self).default_channel,
    {
        self.try_spawn_role(ConnectionThread::Input, handle)
    }
}

/// The handshake path: from Connecting, a ready transport, a compatible
/// peer version and a session acknowledgement reach Synced, and exactly the
/// final step directs the worker roles to spawn.
pub proof fn lemma_handshake_reaches_synced(v: u32, sid: u32)
    requires
        spec_version_compatible(v),
    ensures
        spec_next_state(ConnectionState::Connecting, MainEvent::TransportReady)
            is VersionExchange,
        spec_next_state(ConnectionState::VersionExchange, MainEvent::PeerVersion { version: v })
            is Authenticating,
        spec_next_state(ConnectionState::Authenticating, MainEvent::SessionAck { session: sid })
            is Synced,
        spec_spawns_roles(ConnectionState::Authenticating, MainEvent::SessionAck { session: sid }),
        !spec_clears_flag(ConnectionState::Connecting, MainEvent::TransportReady),
        !spec_clears_flag(ConnectionState::VersionExchange, MainEvent::PeerVersion { version: v }),
        !spec_clears_flag(ConnectionState::Authenticating, MainEvent::SessionAck { session: sid }),
{
}

} // verus!
