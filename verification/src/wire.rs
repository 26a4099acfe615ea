//! The frame codec: typed protocol messages, their length-prefixed binary
//! frame form, and the laws that the codec round-trips and never hands a
//! partial frame to dispatch.
//!
//! A frame is `type_id: u16 big-endian` || `length: u32 big-endian` ||
//! `payload: length bytes`. The payload layout is selected by the type id;
//! unknown type ids decode to [`ProtocolMessage::Unknown`] so that they can be
//! skipped without terminating the connection.

use vstd::prelude::*;

use crate::bytes::lemma_dec_u16_at;
use crate::bytes::lemma_dec_u32_at;
use crate::bytes::lemma_dec_u64_at;
use crate::bytes::push_be16;
use crate::bytes::push_be32;
use crate::bytes::push_be64;
use crate::bytes::read_u16;
use crate::bytes::read_u32;
use crate::bytes::read_u64;
use crate::bytes::spec_be16;
use crate::bytes::spec_be32;
use crate::bytes::spec_be64;
use crate::bytes::spec_dec_u32;
use crate::bytes::spec_dec_u64;
use crate::bytes::spec_u16_of;
use crate::bytes::spec_u32_of;

verus! {

/// Wire identifiers of the message kinds the core dispatches on.
pub const MSG_VERSION: u16 = 0;

pub const MSG_AUTHENTICATE: u16 = 2;

pub const MSG_PING: u16 = 3;

pub const MSG_SERVER_SYNC: u16 = 5;

pub const MSG_CHANNEL_STATE: u16 = 7;

pub const MSG_USER_STATE: u16 = 9;

pub const MSG_TEXT_MESSAGE: u16 = 11;

pub const MSG_CRYPT_SETUP: u16 = 15;

/// Largest payload the 4-byte length field can declare.
pub const MAX_PAYLOAD_LEN: u64 = 0xFFFF_FFFF;

pub open spec fn spec_known_id(t: u16) -> bool {
    t == MSG_VERSION || t == MSG_AUTHENTICATE || t == MSG_PING || t == MSG_SERVER_SYNC
        || t == MSG_CHANNEL_STATE || t == MSG_USER_STATE || t == MSG_TEXT_MESSAGE
        || t == MSG_CRYPT_SETUP
}

/// A decoded protocol message: the tagged union the input role hands to
/// dispatch and the output role builds frames from.
#[derive(Debug, Clone, PartialEq, Eq)]
pub enum ProtocolMessage {
    Version { version: u32 },
    Authenticate { username: Vec<u8> },
    Ping { timestamp: u64 },
    ServerSync { session: u32 },
    ChannelState { channel_id: u32, name: Vec<u8> },
    UserState { session: u32, name: Vec<u8> },
    TextMessage {
        actor: Option<u32>,
        session: Vec<u32>,
        channel_id: Vec<u32>,
        tree_id: Vec<u32>,
        message: Vec<u8>,
    },
    CryptSetup { key: Vec<u8> },
    Unknown { type_id: u16, payload: Vec<u8> },
}

/// The mathematical model of a protocol message: the same tagged union over
/// sequences instead of vectors. Contracts and the codec laws speak of this.
#[verifier::ext_equal]
pub enum MsgModel {
    Version { version: u32 },
    Authenticate { username: Seq<u8> },
    Ping { timestamp: u64 },
    ServerSync { session: u32 },
    ChannelState { channel_id: u32, name: Seq<u8> },
    UserState { session: u32, name: Seq<u8> },
    TextMessage {
        actor: Option<u32>,
        session: Seq<u32>,
        channel_id: Seq<u32>,
        tree_id: Seq<u32>,
        message: Seq<u8>,
    },
    CryptSetup { key: Seq<u8> },
    Unknown { type_id: u16, payload: Seq<u8> },
}

impl View for ProtocolMessage {
    type V = MsgModel;

    open spec fn view(&self) -> MsgModel {
        match self {
            ProtocolMessage::Version { version } => MsgModel::Version { version: *version },
            ProtocolMessage::Authenticate { username } => MsgModel::Authenticate {
                username: username@,
            },
            ProtocolMessage::Ping { timestamp } => MsgModel::Ping { timestamp: *timestamp },
            ProtocolMessage::ServerSync { session } => MsgModel::ServerSync { session: *session },
            ProtocolMessage::ChannelState { channel_id, name } => MsgModel::ChannelState {
                channel_id: *channel_id,
                name: name@,
            },
            ProtocolMessage::UserState { session, name } => MsgModel::UserState {
                session: *session,
                name: name@,
            },
            ProtocolMessage::TextMessage { actor, session, channel_id, tree_id, message } => {
                MsgModel::TextMessage {
                    actor: *actor,
                    session: session@,
                    channel_id: channel_id@,
                    tree_id: tree_id@,
                    message: message@,
                }
            },
            ProtocolMessage::CryptSetup { key } => MsgModel::CryptSetup { key: key@ },
            ProtocolMessage::Unknown { type_id, payload } => MsgModel::Unknown {
                type_id: *type_id,
                payload: payload@,
            },
        }
    }
}

// ---------------------------------------------------------------------------
// Specification-level encoding
// ---------------------------------------------------------------------------

pub open spec fn spec_enc_actor(a: Option<u32>) -> Seq<u8> {
    match a {
        Option::None => seq![0u8],
        Option::Some(x) => seq![1u8] + spec_be32(x),
    }
}

pub open spec fn spec_enc_u32s(v: Seq<u32>) -> Seq<u8>
    decreases v.len(),
{
    if v.len() == 0 {
        Seq::empty()
    } else {
        spec_be32(v[0]) + spec_enc_u32s(v.drop_first())
    }
}

/// A sequence of ids on the wire: a 4-byte count followed by the entries.
pub open spec fn spec_enc_u32_field(v: Seq<u32>) -> Seq<u8> {
    spec_be32(v.len() as u32) + spec_enc_u32s(v)
}

impl MsgModel {
    pub open spec fn spec_type_id(self) -> u16 {
        match self {
            MsgModel::Version { .. } => MSG_VERSION,
            MsgModel::Authenticate { .. } => MSG_AUTHENTICATE,
            MsgModel::Ping { .. } => MSG_PING,
            MsgModel::ServerSync { .. } => MSG_SERVER_SYNC,
            MsgModel::ChannelState { .. } => MSG_CHANNEL_STATE,
            MsgModel::UserState { .. } => MSG_USER_STATE,
            MsgModel::TextMessage { .. } => MSG_TEXT_MESSAGE,
            MsgModel::CryptSetup { .. } => MSG_CRYPT_SETUP,
            MsgModel::Unknown { type_id, .. } => type_id,
        }
    }

    /// The serialized payload of the message, before framing.
    pub open spec fn spec_payload(self) -> Seq<u8> {
        match self {
            MsgModel::Version { version } => spec_be32(version),
            MsgModel::Authenticate { username } => username,
            MsgModel::Ping { timestamp } => spec_be64(timestamp),
            MsgModel::ServerSync { session } => spec_be32(session),
            MsgModel::ChannelState { channel_id, name } => spec_be32(channel_id) + name,
            MsgModel::UserState { session, name } => spec_be32(session) + name,
            MsgModel::TextMessage { actor, session, channel_id, tree_id, message } => {
                spec_enc_actor(actor) + spec_enc_u32_field(session) + spec_enc_u32_field(channel_id)
                    + spec_enc_u32_field(tree_id) + message
            },
            MsgModel::CryptSetup { key } => key,
            MsgModel::Unknown { payload, .. } => payload,
        }
    }

    /// A message the codec can frame: every variable-length part fits the
    /// 4-byte length fields, and an unknown message does not masquerade as a
    /// known kind.
    pub open spec fn valid(self) -> bool {
        &&& self.spec_payload().len() <= MAX_PAYLOAD_LEN
        &&& match self {
            MsgModel::TextMessage { session, channel_id, tree_id, .. } => {
                &&& session.len() <= MAX_PAYLOAD_LEN
                &&& channel_id.len() <= MAX_PAYLOAD_LEN
                &&& tree_id.len() <= MAX_PAYLOAD_LEN
            },
            MsgModel::Unknown { type_id, .. } => !spec_known_id(type_id),
            _ => true,
        }
    }

    /// The full wire frame of the message.
    pub open spec fn spec_frame(self) -> Seq<u8> {
        spec_be16(self.spec_type_id()) + spec_be32(self.spec_payload().len() as u32)
            + self.spec_payload()
    }
}

// ---------------------------------------------------------------------------
// Specification-level decoding
// ---------------------------------------------------------------------------

pub open spec fn spec_dec_actor(b: Seq<u8>, i: int) -> Option<(Option<u32>, int)> {
    if 0 <= i && i < b.len() {
        if b[i] == 0 {
            Some((Option::None, i + 1))
        } else if b[i] == 1 {
            match spec_dec_u32(b, i + 1) {
                Some((x, j)) => Some((Some(x), j)),
                None => None,
            }
        } else {
            None
        }
    } else {
        None
    }
}

pub open spec fn spec_dec_u32s(b: Seq<u8>, i: int, n: nat) -> Option<(Seq<u32>, int)>
    decreases n,
{
    if n == 0 {
        Some((Seq::empty(), i))
    } else {
        match spec_dec_u32(b, i) {
            Some((x, j)) => match spec_dec_u32s(b, j, (n - 1) as nat) {
                Some((rest, k)) => Some((seq![x] + rest, k)),
                None => None,
            },
            None => None,
        }
    }
}

pub open spec fn spec_dec_u32_field(b: Seq<u8>, i: int) -> Option<(Seq<u32>, int)> {
    match spec_dec_u32(b, i) {
        Some((n, j)) => spec_dec_u32s(b, j, n as nat),
        None => None,
    }
}

pub open spec fn spec_dec_version(p: Seq<u8>) -> Option<MsgModel> {
    match spec_dec_u32(p, 0) {
        Some((x, j)) => if j == p.len() {
            Some(MsgModel::Version { version: x })
        } else {
            None
        },
        None => None,
    }
}

pub open spec fn spec_dec_ping(p: Seq<u8>) -> Option<MsgModel> {
    match spec_dec_u64(p, 0) {
        Some((x, j)) => if j == p.len() {
            Some(MsgModel::Ping { timestamp: x })
        } else {
            None
        },
        None => None,
    }
}

pub open spec fn spec_dec_server_sync(p: Seq<u8>) -> Option<MsgModel> {
    match spec_dec_u32(p, 0) {
        Some((x, j)) => if j == p.len() {
            Some(MsgModel::ServerSync { session: x })
        } else {
            None
        },
        None => None,
    }
}

pub open spec fn spec_dec_channel_state(p: Seq<u8>) -> Option<MsgModel> {
    match spec_dec_u32(p, 0) {
        Some((x, j)) => Some(MsgModel::ChannelState {
            channel_id: x,
            name: p.subrange(j, p.len() as int),
        }),
        None => None,
    }
}

pub open spec fn spec_dec_user_state(p: Seq<u8>) -> Option<MsgModel> {
    match spec_dec_u32(p, 0) {
        Some((x, j)) => Some(MsgModel::UserState {
            session: x,
            name: p.subrange(j, p.len() as int),
        }),
        None => None,
    }
}

pub open spec fn spec_dec_text(p: Seq<u8>) -> Option<MsgModel> {
    match spec_dec_actor(p, 0) {
        Some((actor, i1)) => match spec_dec_u32_field(p, i1) {
            Some((session, i2)) => match spec_dec_u32_field(p, i2) {
                Some((channel_id, i3)) => match spec_dec_u32_field(p, i3) {
                    Some((tree_id, i4)) => Some(MsgModel::TextMessage {
                        actor,
                        session,
                        channel_id,
                        tree_id,
                        message: p.subrange(i4, p.len() as int),
                    }),
                    None => None,
                },
                None => None,
            },
            None => None,
        },
        None => None,
    }
}

/// Decode a complete payload according to its type id. `None` means the frame
/// is malformed and is to be dropped; an unknown type id is not malformed.
pub open spec fn spec_dec_payload(tid: u16, p: Seq<u8>) -> Option<MsgModel> {
    if tid == MSG_VERSION {
        spec_dec_version(p)
    } else if tid == MSG_AUTHENTICATE {
        Some(MsgModel::Authenticate { username: p })
    } else if tid == MSG_PING {
        spec_dec_ping(p)
    } else if tid == MSG_SERVER_SYNC {
        spec_dec_server_sync(p)
    } else if tid == MSG_CHANNEL_STATE {
        spec_dec_channel_state(p)
    } else if tid == MSG_USER_STATE {
        spec_dec_user_state(p)
    } else if tid == MSG_TEXT_MESSAGE {
        spec_dec_text(p)
    } else if tid == MSG_CRYPT_SETUP {
        Some(MsgModel::CryptSetup { key: p })
    } else {
        Some(MsgModel::Unknown { type_id: tid, payload: p })
    }
}

/// What decoding the head of a byte stream yields: nothing yet, a message and
/// the bytes it used, or a malformed frame to skip.
#[verifier::ext_equal]
pub enum SpecFrameOutcome {
    Incomplete,
    Dispatch { msg: MsgModel, used: int },
    Skip { used: int },
}

pub open spec fn spec_declared_len(b: Seq<u8>) -> int
    recommends
        b.len() >= 6,
{
    spec_u32_of(b[2], b[3], b[4], b[5]) as int
}

/// Decoding the head of a byte stream. A stream shorter than the declared
/// frame length is `Incomplete`: nothing is consumed and nothing dispatched.
pub open spec fn spec_decode_frame(b: Seq<u8>) -> SpecFrameOutcome {
    if b.len() < 6 {
        SpecFrameOutcome::Incomplete
    } else {
        let n = spec_declared_len(b);
        if b.len() < 6 + n {
            SpecFrameOutcome::Incomplete
        } else {
            match spec_dec_payload(spec_u16_of(b[0], b[1]), b.subrange(6, 6 + n)) {
                Some(m) => SpecFrameOutcome::Dispatch { msg: m, used: 6 + n },
                None => SpecFrameOutcome::Skip { used: 6 + n },
            }
        }
    }
}

// ---------------------------------------------------------------------------
// Round-trip lemmas
// ---------------------------------------------------------------------------

pub proof fn lemma_enc_u32s_len(v: Seq<u32>)
    ensures
        spec_enc_u32s(v).len() == 4 * v.len(),
    decreases v.len(),
{
    if v.len() > 0 {
        lemma_enc_u32s_len(v.drop_first());
    }
}

pub proof fn lemma_enc_u32s_snoc(v: Seq<u32>, x: u32)
    ensures
        spec_enc_u32s(v.push(x)) == spec_enc_u32s(v) + spec_be32(x),
    decreases v.len(),
{
    if v.len() == 0 {
        assert(v.push(x).drop_first() =~= Seq::<u32>::empty());
        assert(v.push(x)[0] == x);
        assert(spec_enc_u32s(v.push(x)) == spec_be32(x) + spec_enc_u32s(Seq::<u32>::empty()));
        assert(spec_enc_u32s(v.push(x)) =~= spec_enc_u32s(v) + spec_be32(x));
    } else {
        assert(v.push(x).drop_first() =~= v.drop_first().push(x));
        lemma_enc_u32s_snoc(v.drop_first(), x);
        assert(v.push(x)[0] == v[0]);
        assert(spec_enc_u32s(v.push(x)) == spec_be32(v[0]) + spec_enc_u32s(v.drop_first().push(x)));
        assert(spec_enc_u32s(v.push(x)) =~= spec_enc_u32s(v) + spec_be32(x));
    }
}

/// Decoding `n` ids at a position where `n` encoded ids were laid down
/// yields them back.
pub proof fn lemma_dec_u32s_at(b: Seq<u8>, i: int, v: Seq<u32>)
    requires
        0 <= i,
        i + 4 * v.len() <= b.len(),
        forall|k: int| 0 <= k < 4 * v.len() ==> b[i + k] == spec_enc_u32s(v)[k],
    ensures
        spec_dec_u32s(b, i, v.len()) == Some((v, i + 4 * v.len())),
    decreases v.len(),
{
    lemma_enc_u32s_len(v);
    if v.len() == 0 {
        assert(spec_dec_u32s(b, i, 0) == Some((Seq::<u32>::empty(), i)));
        assert(v =~= Seq::<u32>::empty());
    } else {
        let tail = v.drop_first();
        lemma_enc_u32s_len(tail);
        assert(spec_enc_u32s(v) == spec_be32(v[0]) + spec_enc_u32s(tail));
        assert forall|k: int| 0 <= k < 4 implies b[i + k] == spec_be32(v[0])[k] by {
            assert(spec_enc_u32s(v)[k] == spec_be32(v[0])[k]);
        }
        lemma_dec_u32_at(b, i, v[0]);
        assert forall|k: int| 0 <= k < 4 * tail.len() implies b[i + 4 + k] == spec_enc_u32s(
            tail,
        )[k] by {
            assert(b[i + (4 + k)] == spec_enc_u32s(v)[4 + k]);
            assert(spec_enc_u32s(v)[4 + k] == spec_enc_u32s(tail)[k]);
        }
        lemma_dec_u32s_at(b, i + 4, tail);
        assert(seq![v[0]] + tail =~= v);
        assert(spec_dec_u32s(b, i, v.len()) == Some((seq![v[0]] + tail, i + 4 * v.len())));
    }
}

/// Decoding a count-prefixed id field at the position where it was encoded
/// yields the ids back.
pub proof fn lemma_dec_u32_field_at(b: Seq<u8>, i: int, v: Seq<u32>)
    requires
        0 <= i,
        v.len() <= MAX_PAYLOAD_LEN,
        i + spec_enc_u32_field(v).len() <= b.len(),
        forall|k: int| 0 <= k < spec_enc_u32_field(v).len() ==> b[i + k] == spec_enc_u32_field(
            v,
        )[k],
    ensures
        spec_enc_u32_field(v).len() == 4 + 4 * v.len(),
        spec_dec_u32_field(b, i) == Some((v, i + 4 + 4 * v.len())),
{
    lemma_enc_u32s_len(v);
    let count = v.len() as u32;
    assert forall|k: int| 0 <= k < 4 implies b[i + k] == spec_be32(count)[k] by {
        assert(spec_enc_u32_field(v)[k] == spec_be32(count)[k]);
    }
    lemma_dec_u32_at(b, i, count);
    assert(count as nat == v.len());
    assert forall|k: int| 0 <= k < 4 * v.len() implies b[i + 4 + k] == spec_enc_u32s(v)[k] by {
        assert(b[i + (4 + k)] == spec_enc_u32_field(v)[4 + k]);
        assert(spec_enc_u32_field(v)[4 + k] == spec_enc_u32s(v)[k]);
    }
    lemma_dec_u32s_at(b, i + 4, v);
}

/// Decoding an optional actor id at the position where it was encoded yields
/// it back.
pub proof fn lemma_dec_actor_at(b: Seq<u8>, i: int, a: Option<u32>)
    requires
        0 <= i,
        i + spec_enc_actor(a).len() <= b.len(),
        forall|k: int| 0 <= k < spec_enc_actor(a).len() ==> b[i + k] == spec_enc_actor(a)[k],
    ensures
        spec_dec_actor(b, i) == Some((a, i + spec_enc_actor(a).len())),
{
    match a {
        Option::None => {
            assert(b[i + 0] == spec_enc_actor(a)[0]);
            assert(b[i] == 0);
        },
        Option::Some(x) => {
            assert(b[i + 0] == spec_enc_actor(a)[0]);
            assert(b[i] == 1);
            assert forall|k: int| 0 <= k < 4 implies b[i + 1 + k] == spec_be32(x)[k] by {
                assert(b[i + (1 + k)] == spec_enc_actor(a)[1 + k]);
                assert(spec_enc_actor(a)[1 + k] == spec_be32(x)[k]);
            }
            lemma_dec_u32_at(b, i + 1, x);
        },
    }
}

/// Payload-level round trip for the text-message layout.
#[verifier::rlimit(100)]
proof fn lemma_text_payload_round_trip(m: MsgModel)
    requires
        m.valid(),
        m is TextMessage,
    ensures
        spec_dec_text(m.spec_payload()) == Some(m),
{
    let p = m.spec_payload();
    match m {
        MsgModel::TextMessage { actor, session, channel_id, tree_id, message } => {
            let pa = spec_enc_actor(actor);
            let ps = spec_enc_u32_field(session);
            let pc = spec_enc_u32_field(channel_id);
            let pt = spec_enc_u32_field(tree_id);
            lemma_enc_u32s_len(session);
            lemma_enc_u32s_len(channel_id);
            lemma_enc_u32s_len(tree_id);
            assert(ps.len() == 4 + 4 * session.len());
            assert(pc.len() == 4 + 4 * channel_id.len());
            assert(pt.len() == 4 + 4 * tree_id.len());
            let q1 = pa + ps;
            let q2 = q1 + pc;
            let q3 = q2 + pt;
            let i1 = pa.len() as int;
            let i2 = i1 + ps.len();
            let i3 = i2 + pc.len();
            let i4 = i3 + pt.len();
            assert(p == q3 + message);
            assert(p.len() == i4 + message.len());
            assert forall|k: int| 0 <= k < pa.len() implies p[k] == pa[k] by {
                assert(p[k] == q3[k]);
                assert(q3[k] == q2[k]);
                assert(q2[k] == q1[k]);
                assert(q1[k] == pa[k]);
            }
            lemma_dec_actor_at(p, 0, actor);
            assert forall|k: int| 0 <= k < ps.len() implies p[i1 + k] == ps[k] by {
                assert(p[i1 + k] == q3[i1 + k]);
                assert(q3[i1 + k] == q2[i1 + k]);
                assert(q2[i1 + k] == q1[i1 + k]);
                assert(q1[i1 + k] == ps[i1 + k - pa.len()]);
            }
            lemma_dec_u32_field_at(p, i1, session);
            assert forall|k: int| 0 <= k < pc.len() implies p[i2 + k] == pc[k] by {
                assert(p[i2 + k] == q3[i2 + k]);
                assert(q3[i2 + k] == q2[i2 + k]);
                assert(q2[i2 + k] == pc[i2 + k - q1.len()]);
            }
            lemma_dec_u32_field_at(p, i2, channel_id);
            assert forall|k: int| 0 <= k < pt.len() implies p[i3 + k] == pt[k] by {
                assert(p[i3 + k] == q3[i3 + k]);
                assert(q3[i3 + k] == pt[i3 + k - q2.len()]);
            }
            lemma_dec_u32_field_at(p, i3, tree_id);
            assert(p.subrange(i4, p.len() as int) =~= message);
            assert(spec_dec_text(p) == Some(m));
        },
        _ => {},
    }
}

/// Payload-level round trip: a valid message's serialized payload decodes
/// back to the message under its own type id.
pub proof fn lemma_payload_round_trip(m: MsgModel)
    requires
        m.valid(),
    ensures
        spec_dec_payload(m.spec_type_id(), m.spec_payload()) == Some(m),
{
    let p = m.spec_payload();
    match m {
        MsgModel::Version { version } => {
            lemma_dec_u32_at(p, 0, version);
        },
        MsgModel::Authenticate { .. } => {},
        MsgModel::Ping { timestamp } => {
            lemma_dec_u64_at(p, 0, timestamp);
        },
        MsgModel::ServerSync { session } => {
            lemma_dec_u32_at(p, 0, session);
        },
        MsgModel::ChannelState { channel_id, name } => {
            assert forall|k: int| 0 <= k < 4 implies p[k] == spec_be32(channel_id)[k] by {}
            lemma_dec_u32_at(p, 0, channel_id);
            assert(p.subrange(4, p.len() as int) =~= name);
        },
        MsgModel::UserState { session, name } => {
            assert forall|k: int| 0 <= k < 4 implies p[k] == spec_be32(session)[k] by {}
            lemma_dec_u32_at(p, 0, session);
            assert(p.subrange(4, p.len() as int) =~= name);
        },
        MsgModel::TextMessage { .. } => {
            lemma_text_payload_round_trip(m);
        },
        MsgModel::CryptSetup { .. } => {},
        MsgModel::Unknown { .. } => {},
    }
}

/// Round-trip law of the frame codec: a frame built from any valid protocol
/// message decodes back to a value equal to the original, consuming exactly
/// the frame.
pub proof fn lemma_frame_round_trip(m: MsgModel)
    requires
        m.valid(),
    ensures
        spec_decode_frame(m.spec_frame()) == (SpecFrameOutcome::Dispatch {
            msg: m,
            used: m.spec_frame().len() as int,
        }),
{
    let p = m.spec_payload();
    let tid = m.spec_type_id();
    let plen = p.len() as u32;
    let b = m.spec_frame();
    assert(b == spec_be16(tid) + spec_be32(plen) + p);
    assert(b.len() == 6 + p.len());
    assert forall|k: int| 0 <= k < 2 implies b[k] == spec_be16(tid)[k] by {}
    assert forall|k: int| 0 <= k < 4 implies b[2 + k] == spec_be32(plen)[k] by {}
    lemma_dec_u16_at(b, 0, tid);
    lemma_dec_u32_at(b, 2, plen);
    assert(spec_u16_of(b[0], b[1]) == tid);
    assert(spec_u32_of(b[2], b[3], b[4], b[5]) == plen);
    assert(spec_declared_len(b) == p.len());
    assert(b.subrange(6, 6 + p.len() as int) =~= p);
    lemma_payload_round_trip(m);
}

/// Fewer bytes than one header, or fewer than the declared frame length,
/// are never dispatched: decoding reports the data incomplete and consumes
/// nothing.
pub proof fn lemma_short_data_not_dispatched(b: Seq<u8>)
    requires
        b.len() < 6 || b.len() < 6 + spec_declared_len(b),
    ensures
        spec_decode_frame(b) is Incomplete,
{
}

/// No strict prefix of an encoded frame is dispatched: the declared length
/// in the header keeps decoding deterministic on partial data.
pub proof fn lemma_frame_prefix_not_dispatched(m: MsgModel, k: int)
    requires
        m.valid(),
        0 <= k < m.spec_frame().len(),
    ensures
        spec_decode_frame(m.spec_frame().take(k)) is Incomplete,
{
    let b = m.spec_frame();
    let t = b.take(k);
    if k >= 6 {
        let p = m.spec_payload();
        let plen = p.len() as u32;
        assert(b == spec_be16(m.spec_type_id()) + spec_be32(plen) + p);
        assert forall|j: int| 0 <= j < 4 implies t[2 + j] == spec_be32(plen)[j] by {
            assert(t[2 + j] == b[2 + j]);
        }
        lemma_dec_u32_at(t, 2, plen);
        assert(spec_declared_len(t) == p.len());
        assert(t.len() == k < 6 + p.len());
    }
}

// ---------------------------------------------------------------------------
// Executable encoding
// ---------------------------------------------------------------------------

/// Append a byte string.
pub fn push_bytes(out: &mut Vec<u8>, b: &Vec<u8>)
    ensures
        final(out)@ == old(out)@ + b@,
{
    let mut k: usize = 0;
    while k < b.len()
        invariant
            k <= b.len(),
            out@ == old(out)@ + b@.take(k as int),
        decreases b.len() - k,
    {
        out.push(b[k]);
        assert(b@.take(k + 1 as int) =~= b@.take(k as int).push(b@[k as int]));
        assert(out@ =~= old(out)@ + b@.take(k + 1 as int));
        k = k + 1;
    }
    assert(b@.take(b@.len() as int) =~= b@);
}

/// Append a count-prefixed id field.
pub fn push_u32_field(out: &mut Vec<u8>, v: &Vec<u32>)
    requires
        v@.len() <= MAX_PAYLOAD_LEN,
    ensures
        final(out)@ == old(out)@ + spec_enc_u32_field(v@),
{
    push_be32(out, v.len() as u32);
    let ghost mid = out@;
    let mut k: usize = 0;
    while k < v.len()
        invariant
            k <= v.len(),
            mid == old(out)@ + spec_be32(v@.len() as u32),
            out@ == mid + spec_enc_u32s(v@.take(k as int)),
        decreases v.len() - k,
    {
        push_be32(out, v[k]);
        proof {
            lemma_enc_u32s_snoc(v@.take(k as int), v@[k as int]);
            assert(v@.take(k + 1 as int) =~= v@.take(k as int).push(v@[k as int]));
            assert(out@ =~= mid + spec_enc_u32s(v@.take(k + 1 as int)));
        }
        k = k + 1;
    }
    assert(v@.take(v@.len() as int) =~= v@);
    assert(out@ =~= old(out)@ + spec_enc_u32_field(v@));
}

/// Append an optional actor id: a presence byte, then the id when present.
pub fn push_actor(out: &mut Vec<u8>, a: &Option<u32>)
    ensures
        final(out)@ == old(out)@ + spec_enc_actor(*a),
{
    match a {
        Option::None => {
            out.push(0);
            assert(out@ =~= old(out)@ + spec_enc_actor(*a));
        },
        Option::Some(x) => {
            out.push(1);
            push_be32(out, *x);
            assert(out@ =~= old(out)@ + spec_enc_actor(*a));
        },
    }
}

impl ProtocolMessage {
    /// The wire type id the message is framed under.
    pub fn type_id(&self) -> (r: u16)
        ensures
            r == self@.spec_type_id(),
    {
        match self {
            ProtocolMessage::Version { .. } => MSG_VERSION,
            ProtocolMessage::Authenticate { .. } => MSG_AUTHENTICATE,
            ProtocolMessage::Ping { .. } => MSG_PING,
            ProtocolMessage::ServerSync { .. } => MSG_SERVER_SYNC,
            ProtocolMessage::ChannelState { .. } => MSG_CHANNEL_STATE,
            ProtocolMessage::UserState { .. } => MSG_USER_STATE,
            ProtocolMessage::TextMessage { .. } => MSG_TEXT_MESSAGE,
            ProtocolMessage::CryptSetup { .. } => MSG_CRYPT_SETUP,
            ProtocolMessage::Unknown { type_id, .. } => *type_id,
        }
    }

    /// Serialize the payload of the message, before framing.
    pub fn encode_payload(&self) -> (r: Vec<u8>)
        requires
            self@.valid(),
        ensures
            r@ == self@.spec_payload(),
    {
        let mut out: Vec<u8> = Vec::new();
        match self {
            ProtocolMessage::Version { version } => {
                push_be32(&mut out, *version);
            },
            ProtocolMessage::Authenticate { username } => {
                push_bytes(&mut out, username);
            },
            ProtocolMessage::Ping { timestamp } => {
                push_be64(&mut out, *timestamp);
            },
            ProtocolMessage::ServerSync { session } => {
                push_be32(&mut out, *session);
            },
            ProtocolMessage::ChannelState { channel_id, name } => {
                push_be32(&mut out, *channel_id);
                push_bytes(&mut out, name);
            },
            ProtocolMessage::UserState { session, name } => {
                push_be32(&mut out, *session);
                push_bytes(&mut out, name);
            },
            ProtocolMessage::TextMessage { actor, session, channel_id, tree_id, message } => {
                push_actor(&mut out, actor);
                push_u32_field(&mut out, session);
                push_u32_field(&mut out, channel_id);
                push_u32_field(&mut out, tree_id);
                push_bytes(&mut out, message);
            },
            ProtocolMessage::CryptSetup { key } => {
                push_bytes(&mut out, key);
            },
            ProtocolMessage::Unknown { payload, .. } => {
                push_bytes(&mut out, payload);
            },
        }
        assert(out@ =~= self@.spec_payload());
        out
    }

    /// Build the full wire frame: type id, payload length, payload.
    pub fn encode_frame(&self) -> (r: Vec<u8>)
        requires
            self@.valid(),
        ensures
            r@ == self@.spec_frame(),
    {
        let payload = self.encode_payload();
        let mut out: Vec<u8> = Vec::new();
        push_be16(&mut out, self.type_id());
        push_be32(&mut out, payload.len() as u32);
        push_bytes(&mut out, &payload);
        assert(out@ =~= self@.spec_frame());
        out
    }
}

// ---------------------------------------------------------------------------
// Executable decoding
// ---------------------------------------------------------------------------

/// Copy `b[from..to]` out into a fresh vector.
pub fn copy_range(b: &Vec<u8>, from: usize, to: usize) -> (r: Vec<u8>)
    requires
        from <= to,
        to <= b.len(),
    ensures
        r@ == b@.subrange(from as int, to as int),
{
    let mut out: Vec<u8> = Vec::new();
    let mut k: usize = from;
    while k < to
        invariant
            from <= k <= to,
            to <= b.len(),
            out@ == b@.subrange(from as int, k as int),
        decreases to - k,
    {
        out.push(b[k]);
        assert(out@ =~= b@.subrange(from as int, k + 1 as int));
        k = k + 1;
    }
    out
}

/// Read an optional actor id.
pub fn read_actor(b: &Vec<u8>, i: usize) -> (r: Option<(Option<u32>, usize)>)
    ensures
        r is Some <==> spec_dec_actor(b@, i as int) is Some,
        r matches Some(pr) ==> (spec_dec_actor(b@, i as int) == Some((pr.0, pr.1 as int))
            && i < pr.1 <= b.len()),
{
    if i < b.len() {
        let tag = b[i];
        if tag == 0 {
            Some((Option::None, i + 1))
        } else if tag == 1 {
            match read_u32(b, i + 1) {
                Some(pr) => Some((Some(pr.0), pr.1)),
                None => None,
            }
        } else {
            None
        }
    } else {
        None
    }
}

/// Read a count-prefixed id field.
pub fn read_u32_field(b: &Vec<u8>, i: usize) -> (r: Option<(Vec<u32>, usize)>)
    ensures
        r is Some <==> spec_dec_u32_field(b@, i as int) is Some,
        r matches Some(pr) ==> (spec_dec_u32_field(b@, i as int) == Some((pr.0@, pr.1 as int))
            && i <= pr.1 <= b.len()),
{
    let (n, j0) = match read_u32(b, i) {
        Some(pr) => pr,
        None => {
            return None;
        },
    };
    let mut acc: Vec<u32> = Vec::new();
    let mut cur: usize = j0;
    let mut k: u32 = 0;
    while k < n
        invariant
            j0 == i + 4,
            j0 <= b.len(),
            j0 <= cur,
            k <= n,
            cur <= b.len(),
            acc@.len() == k,
            spec_dec_u32_field(b@, i as int) == (match spec_dec_u32s(
                b@,
                cur as int,
                (n - k) as nat,
            ) {
                Some((rest, end)) => Some((acc@ + rest, end)),
                None => None::<(Seq<u32>, int)>,
            }),
        decreases n - k,
    {
        match read_u32(b, cur) {
            Some(pr) => {
                proof {
                    assert(spec_dec_u32s(b@, cur as int, (n - k) as nat) == (match spec_dec_u32s(
                        b@,
                        pr.1 as int,
                        (n - k - 1) as nat,
                    ) {
                        Some((rest, end)) => Some((seq![pr.0] + rest, end)),
                        None => None::<(Seq<u32>, int)>,
                    }));
                    assert forall|rest: Seq<u32>|
                        acc@.push(pr.0) + rest =~= acc@ + (seq![pr.0] + rest) by {}
                }
                acc.push(pr.0);
                cur = pr.1;
                k = k + 1;
            },
            None => {
                return None;
            },
        }
    }
    assert(spec_dec_u32s(b@, cur as int, 0) == Some((Seq::<u32>::empty(), cur as int)));
    assert(acc@ + Seq::<u32>::empty() =~= acc@);
    Some((acc, cur))
}

/// Decode a complete payload according to its type id. `None` means the
/// frame is malformed and is to be dropped, never that more data is needed.
pub fn decode_payload(tid: u16, p: &Vec<u8>) -> (r: Option<ProtocolMessage>)
    ensures
        r is Some <==> spec_dec_payload(tid, p@) is Some,
        r matches Some(m) ==> spec_dec_payload(tid, p@) == Some(m@),
{
    if tid == MSG_VERSION {
        match read_u32(p, 0) {
            Some(pr) => {
                if pr.1 == p.len() {
                    Some(ProtocolMessage::Version { version: pr.0 })
                } else {
                    None
                }
            },
            None => None,
        }
    } else if tid == MSG_AUTHENTICATE {
        let username = copy_range(p, 0, p.len());
        assert(username@ =~= p@);
        Some(ProtocolMessage::Authenticate { username })
    } else if tid == MSG_PING {
        match read_u64(p, 0) {
            Some(pr) => {
                if pr.1 == p.len() {
                    Some(ProtocolMessage::Ping { timestamp: pr.0 })
                } else {
                    None
                }
            },
            None => None,
        }
    } else if tid == MSG_SERVER_SYNC {
        match read_u32(p, 0) {
            Some(pr) => {
                if pr.1 == p.len() {
                    Some(ProtocolMessage::ServerSync { session: pr.0 })
                } else {
                    None
                }
            },
            None => None,
        }
    } else if tid == MSG_CHANNEL_STATE {
        match read_u32(p, 0) {
            Some(pr) => {
                let name = copy_range(p, pr.1, p.len());
                Some(ProtocolMessage::ChannelState { channel_id: pr.0, name })
            },
            None => None,
        }
    } else if tid == MSG_USER_STATE {
        match read_u32(p, 0) {
            Some(pr) => {
                let name = copy_range(p, pr.1, p.len());
                Some(ProtocolMessage::UserState { session: pr.0, name })
            },
            None => None,
        }
    } else if tid == MSG_TEXT_MESSAGE {
        let (actor, i1) = match read_actor(p, 0) {
            Some(pr) => pr,
            None => {
                return None;
            },
        };
        let (session, i2) = match read_u32_field(p, i1) {
            Some(pr) => pr,
            None => {
                return None;
            },
        };
        let (channel_id, i3) = match read_u32_field(p, i2) {
            Some(pr) => pr,
            None => {
                return None;
            },
        };
        let (tree_id, i4) = match read_u32_field(p, i3) {
            Some(pr) => pr,
            None => {
                return None;
            },
        };
        let message = copy_range(p, i4, p.len());
        Some(ProtocolMessage::TextMessage { actor, session, channel_id, tree_id, message })
    } else if tid == MSG_CRYPT_SETUP {
        let key = copy_range(p, 0, p.len());
        assert(key@ =~= p@);
        Some(ProtocolMessage::CryptSetup { key })
    } else {
        let payload = copy_range(p, 0, p.len());
        assert(payload@ =~= p@);
        Some(ProtocolMessage::Unknown { type_id: tid, payload })
    }
}

/// What decoding the head of a buffered byte stream produced.
#[derive(Debug, PartialEq, Eq)]
pub enum FrameOutcome {
    /// Not enough bytes for the declared frame yet; nothing was consumed.
    Incomplete,
    /// A complete well-formed frame: the message and the bytes it used.
    Message(ProtocolMessage, usize),
    /// A complete but malformed frame to drop: the bytes it used.
    Skip(usize),
}

/// Decode the head of a buffered byte stream. Data shorter than the declared
/// frame length is reported `Incomplete`; a complete frame either dispatches
/// a message or is skipped as malformed.
pub fn decode_frame(b: &Vec<u8>) -> (r: FrameOutcome)
    ensures
        (match spec_decode_frame(b@) {
            SpecFrameOutcome::Incomplete => r is Incomplete,
            SpecFrameOutcome::Dispatch { msg, used } => (r matches FrameOutcome::Message(m, u)
                && m@ == msg && u == used),
            SpecFrameOutcome::Skip { used } => (r matches FrameOutcome::Skip(u) && u == used),
        }),
{
    if b.len() < 6 {
        return FrameOutcome::Incomplete;
    }
    let tid = match read_u16(b, 0) {
        Some(pr) => pr.0,
        None => {
            return FrameOutcome::Incomplete;
        },
    };
    let n32 = match read_u32(b, 2) {
        Some(pr) => pr.0,
        None => {
            return FrameOutcome::Incomplete;
        },
    };
    if ((b.len() - 6) as u64) < (n32 as u64) {
        return FrameOutcome::Incomplete;
    }
    let n = n32 as usize;
    let p = copy_range(b, 6, 6 + n);
    match decode_payload(tid, &p) {
        Some(m) => FrameOutcome::Message(m, 6 + n),
        None => FrameOutcome::Skip(6 + n),
    }
}

} // verus!
