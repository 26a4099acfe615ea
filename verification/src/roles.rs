//! Per-iteration step logic of the Ping, Output and Input roles.
//!
//! Each role runs as an independently scheduled task whose loop body is pure
//! decision logic: the runtime hands the step function the current liveness
//! flag value and the event its wait produced, and performs the returned
//! action. Keeping the steps pure makes every iteration's behaviour a
//! contract, while the waiting itself (channel receives, interval ticks,
//! socket reads) stays outside.

use vstd::prelude::*;

use crate::wire::FrameOutcome;
use crate::wire::MsgModel;
use crate::wire::ProtocolMessage;
use crate::wire::SpecFrameOutcome;
use crate::wire::copy_range;
use crate::wire::decode_frame;
use crate::wire::spec_decode_frame;

verus! {

/// What one loop iteration of Output or Ping decided: whether to keep
/// looping, and the framed bytes to push onto the outbound byte channel,
/// if any.
pub struct StepOutcome {
    pub continue_running: bool,
    pub send: Option<Vec<u8>>,
}

/// What the wait of one Output iteration produced: a deliverable message
/// from the application-message channel, a deadman tick, or a
/// closed/lagging channel report.
pub enum OutputEvent {
    /// A text body received from the application-message channel.
    Message(Vec<u8>),
    /// The deadman interval elapsed; its sole purpose is to force
    /// re-evaluation of the loop condition.
    Tick,
    /// The application-message channel reported closure.
    Closed,
    /// The application-message channel dropped this many old messages for
    /// this slow subscriber.
    Lagged(u64),
}

/// The text message Output builds for a received body: actor unset, target
/// sessions empty, the fixed default target channel, target trees empty.
pub open spec fn spec_default_text(body: Seq<u8>, chan: u32) -> MsgModel {
    MsgModel::TextMessage {
        actor: None,
        session: Seq::empty(),
        channel_id: seq![chan],
        tree_id: Seq::empty(),
        message: body,
    }
}

/// Any body leaving 32 bytes of room for the routing fields makes a valid
/// default text message, whatever the target channel.
pub proof fn lemma_default_text_valid(body: Seq<u8>, chan: u32)
    requires
        body.len() + 32 <= crate::wire::MAX_PAYLOAD_LEN,
    ensures
        spec_default_text(body, chan).valid(),
{
    crate::wire::lemma_enc_u32s_len(Seq::<u32>::empty());
    crate::wire::lemma_enc_u32s_len(seq![chan]);
    assert(spec_default_text(body, chan).spec_payload().len() == 17 + body.len());
}

/// What the consumer of the outbound byte channel observes of Output's work:
/// the frame built for a published body decodes back to a text message whose
/// `message` field equals the published body and whose `channel_id` is
/// exactly the fixed default target channel.
pub proof fn lemma_output_frame_observed(body: Seq<u8>, chan: u32)
    requires
        spec_default_text(body, chan).valid(),
    ensures
        spec_decode_frame(spec_default_text(body, chan).spec_frame())
            == (SpecFrameOutcome::Dispatch {
            msg: spec_default_text(body, chan),
            used: spec_default_text(body, chan).spec_frame().len() as int,
        }),
        spec_default_text(body, chan) matches MsgModel::TextMessage { message, channel_id, .. }
            && message == body && channel_id == seq![chan],
{
    crate::wire::lemma_frame_round_trip(spec_default_text(body, chan));
}

/// One iteration of the Output role. While the liveness flag is true, a
/// received body is framed as a text message toward the default channel and
/// handed to the outbound byte channel; a tick or a closed/lagged report
/// sends nothing and the loop continues. Once the flag is false the role
/// stops without sending, so it terminates within one deadman interval.
pub fn output_step(live: bool, default_channel: u32, event: OutputEvent) -> (r: StepOutcome)
    requires
        event matches OutputEvent::Message(m) ==> spec_default_text(m@, default_channel).valid(),
    ensures
        r.continue_running == live,
        !live ==> r.send is None,
        live ==> (event matches OutputEvent::Message(m) ==> (r.send matches Some(b) && b@
            == spec_default_text(m@, default_channel).spec_frame())),
        !(event is Message) ==> r.send is None,
{
    if !live {
        return StepOutcome { continue_running: false, send: None };
    }
    match event {
        OutputEvent::Message(m) => {
            let ghost body = m@;
            let mut channel_id: Vec<u32> = Vec::new();
            channel_id.push(default_channel);
            let msg = ProtocolMessage::TextMessage {
                actor: None,
                session: Vec::new(),
                channel_id,
                tree_id: Vec::new(),
                message: m,
            };
            proof {
                assert(msg@ =~= spec_default_text(body, default_channel));
            }
            let buffer = msg.encode_frame();
            StepOutcome { continue_running: true, send: Some(buffer) }
        },
        _ => StepOutcome { continue_running: true, send: None },
    }
}

/// One iteration of the Ping role. While the liveness flag is true, each
/// keepalive tick emits a ping frame carrying the given timestamp onto the
/// outbound byte channel; once the flag is false the role stops, so it too
/// terminates within one deadman interval. No other role produces ping
/// frames.
pub fn ping_step(live: bool, timestamp: u64) -> (r: StepOutcome)
    ensures
        r.continue_running == live,
        !live ==> r.send is None,
        live ==> (r.send matches Some(b) && b@ == (MsgModel::Ping { timestamp }).spec_frame()),
{
    if !live {
        return StepOutcome { continue_running: false, send: None };
    }
    let msg = ProtocolMessage::Ping { timestamp };
    assert((MsgModel::Ping { timestamp }).valid());
    let buffer = msg.encode_frame();
    StepOutcome { continue_running: true, send: Some(buffer) }
}

/// The reassembly buffer of the Input role: raw bytes read off the stream
/// accumulate here until a complete frame is available, so that dispatch
/// never sees a partial message.
pub struct FrameAccumulator {
    buf: Vec<u8>,
}

/// What polling the accumulator produced: no complete frame yet, one
/// decoded message, or one complete but malformed frame that was dropped.
#[derive(Debug, PartialEq, Eq)]
pub enum PollOutcome {
    Pending,
    Ready(ProtocolMessage),
    Skipped,
}

impl FrameAccumulator {
    /// The bytes buffered and not yet consumed by a complete frame.
    pub closed spec fn pending(&self) -> Seq<u8> {
        self.buf@
    }

    pub fn new() -> (r: Self)
        ensures
            r.pending() == Seq::<u8>::empty(),
    {
        FrameAccumulator { buf: Vec::new() }
    }

    /// Append a chunk read off the stream.
    pub fn feed(&mut self, chunk: &Vec<u8>)
        ensures
            final(self).pending() == old(self).pending() + chunk@,
    {
        let mut k: usize = 0;
        while k < chunk.len()
            invariant
                k <= chunk.len(),
                self.buf@ == old(self).buf@ + chunk@.take(k as int),
            decreases chunk.len() - k,
        {
            self.buf.push(chunk[k]);
            assert(chunk@.take(k + 1 as int) =~= chunk@.take(k as int).push(chunk@[k as int]));
            assert(self.buf@ =~= old(self).buf@ + chunk@.take(k + 1 as int));
            k = k + 1;
        }
        assert(chunk@.take(chunk@.len() as int) =~= chunk@);
    }

    /// Try to take one complete frame off the front of the buffer. Fewer
    /// buffered bytes than the declared frame length consume nothing and
    /// dispatch nothing; a complete frame is consumed exactly, yielding its
    /// message or, when malformed, a drop.
    pub fn poll(&mut self) -> (r: PollOutcome)
        ensures
            (match spec_decode_frame(old(self).pending()) {
                SpecFrameOutcome::Incomplete => (r is Pending && final(self).pending() == old(
                    self,
                ).pending()),
                SpecFrameOutcome::Dispatch { msg, used } => (r matches PollOutcome::Ready(m) && m@
                    == msg && final(self).pending() == old(self).pending().skip(used)),
                SpecFrameOutcome::Skip { used } => (r is Skipped && final(self).pending() == old(
                    self,
                ).pending().skip(used)),
            }),
    {
        match decode_frame(&self.buf) {
            FrameOutcome::Incomplete => PollOutcome::Pending,
            FrameOutcome::Message(m, used) => {
                let rest = copy_range(&self.buf, used, self.buf.len());
                assert(rest@ =~= self.buf@.skip(used as int));
                self.buf = rest;
                PollOutcome::Ready(m)
            },
            FrameOutcome::Skip(used) => {
                let rest = copy_range(&self.buf, used, self.buf.len());
                assert(rest@ =~= self.buf@.skip(used as int));
                self.buf = rest;
                PollOutcome::Skipped
            },
        }
    }
}

/// What the wait of one Input iteration produced: a chunk of raw bytes, an
/// orderly close by the peer, or a transport read failure.
pub enum InputEvent {
    Data(Vec<u8>),
    PeerClosed,
    ReadFailed,
}

/// What one Input iteration decided: whether to keep looping, and whether
/// the connection's liveness flag must be cleared because the transport is
/// gone.
pub struct InputDirective {
    pub continue_running: bool,
    pub fatal: bool,
}

/// One iteration of the Input role. While the liveness flag is true, read
/// bytes accumulate for frame reassembly; a peer close or read failure is
/// fatal: the role stops and directs the connection to clear the liveness
/// flag. Once the flag is false the role stops quietly.
pub fn input_step(live: bool, event: InputEvent, acc: &mut FrameAccumulator) -> (r: InputDirective)
    ensures
        r.continue_running == (live && event is Data),
        r.fatal == (live && !(event is Data)),
        live ==> (event matches InputEvent::Data(d) ==> final(acc).pending() == old(
            acc,
        ).pending() + d@),
        !(live && event is Data) ==> final(acc).pending() == old(acc).pending(),
{
    if !live {
        return InputDirective { continue_running: false, fatal: false };
    }
    match event {
        InputEvent::Data(d) => {
            acc.feed(&d);
            InputDirective { continue_running: true, fatal: false }
        },
        InputEvent::PeerClosed => InputDirective { continue_running: false, fatal: true },
        InputEvent::ReadFailed => InputDirective { continue_running: false, fatal: true },
    }
}

} // verus!
