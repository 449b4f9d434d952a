//! The WebRTC publisher session: lifecycle of the peer connection with the
//! SFU, the decisions of the transport loop, and the bookkeeping of sent
//! and dropped frames.
//!
//! The loop itself performs socket and channel work outside this library;
//! every decision it takes — how each signal event changes the lifecycle,
//! which trickle candidates are accepted, when video writes are allowed,
//! and the per-tick bounds — is a verified step function here.

use vstd::prelude::*;

use crate::publisher::{saturating_add_spec, saturating_add_u64};

verus! {

/// Configuration for the transport.
#[derive(Clone, Debug)]
pub struct TransportConfig {
    pub server_url: String,
    pub token: String,
    pub width: u32,
    pub height: u32,
    pub fps: u32,
}

/// Commands sent from the engine to the transport loop.
pub enum TransportCommand {
    /// Send an H.264 encoded video frame.
    VideoFrame { data: Vec<u8>, timestamp_90khz: u32, keyframe: bool },
    /// Send audio data (no audio m-line is negotiated yet; accepted and
    /// discarded).
    AudioFrame { data: Vec<u8>, timestamp_48khz: u32 },
    /// Force a keyframe on the next frame (handled by the encoder, not the
    /// transport).
    ForceKeyframe,
    /// Disconnect and stop.
    Stop,
}

/// Lifecycle of the session.
#[derive(Clone, Copy, Debug, PartialEq, Eq, Structural)]
pub enum SessionPhase {
    /// Created; signaling not yet open.
    Idle,
    /// Signaling channel open, waiting for the join acknowledgement.
    Signalling,
    /// Offer sent, waiting for the answer.
    Offering,
    /// Answer applied, ICE in progress.
    Connecting,
    /// ICE connected; media flows.
    Connected,
    /// Orderly shutdown in progress.
    Closing,
    /// Shut down.
    Terminated,
    /// Fatal transport loss.
    Disconnected,
}

/// An inbound signaling event, reduced to plain values.
pub enum SignalEvent {
    /// The join acknowledgement.
    Join,
    /// An unsolicited offer (the SFU's subscriber peer connection).
    Offer { sdp: String },
    /// The answer to the publisher offer.
    Answer { sdp: String },
    /// A remote ICE candidate; `target` 0 is the publisher peer connection,
    /// 1 the subscriber one.
    Trickle { candidate_init: String, target: i32 },
    /// The published track was acknowledged.
    TrackPublished,
    /// The server asked us to leave.
    Leave,
}

/// The trickle target value that addresses the publisher peer connection.
pub const TRICKLE_TARGET_PUBLISHER: i32 = 0;

/// What the transport loop must do after applying a signal event.
pub enum SessionAction {
    /// Nothing.
    Ignore,
    /// Publish the track: send the add-track request, the SDP offer and the
    /// local host candidate over signaling.
    SendOfferFlow,
    /// Apply this SDP answer to the pending offer.
    AcceptAnswer { sdp: String },
    /// Add this remote candidate to the publisher peer connection.
    AddRemoteCandidate { candidate_init: String },
    /// Accept the subscriber offer and return an answer over signaling,
    /// even without subscribed tracks; ignoring it desynchronizes the SFU.
    AnswerSubscriberOffer { sdp: String },
}

/// What the transport loop must do with one engine command.
pub enum TransportAction {
    /// Nothing.
    Ignore,
    /// Write this frame to the RTP video track.
    WriteVideo { data: Vec<u8>, timestamp_90khz: u32 },
    /// Send the leave request and begin shutdown.
    SendLeaveAndStop,
}

/// ICE connection state changes the loop reacts to.
#[derive(Clone, Copy, Debug, PartialEq, Eq, Structural)]
pub enum IceUpdate {
    Connected,
    Disconnected,
    Other,
}

/// Verified state of the WebRTC publisher session.
pub struct WebRtcSession {
    pub phase: SessionPhase,
    /// The publisher offer is awaiting its answer.
    pub has_pending_offer: bool,
    /// ICE reports the connection usable; video writes are allowed.
    pub connected: bool,
    /// Orderly shutdown requested.
    pub stop_requested: bool,
    /// The SFU asked for a keyframe (PLI) and the request was not yet
    /// forwarded to the encoder.
    pub keyframe_request_pending: bool,
    /// Frames written to the track (saturating).
    pub frames_sent: u64,
    /// Frames submitted before the connection was usable, dropped
    /// (saturating).
    pub frames_dropped: u64,
}

impl WebRtcSession {
    /// A fresh session, before signaling is opened.
    pub fn new() -> (s: WebRtcSession)
        ensures
            s.phase is Idle,
            !s.has_pending_offer,
            !s.connected,
            !s.stop_requested,
            !s.keyframe_request_pending,
            s.frames_sent == 0,
            s.frames_dropped == 0,
    {
        WebRtcSession {
            phase: SessionPhase::Idle,
            has_pending_offer: false,
            connected: false,
            stop_requested: false,
            keyframe_request_pending: false,
            frames_sent: 0,
            frames_dropped: 0,
        }
    }

    /// The signaling channel is open; wait for the join acknowledgement.
    pub fn on_signaling_open(&mut self)
        requires
            old(self).phase is Idle,
        ensures
            *final(self) == (WebRtcSession { phase: SessionPhase::Signalling, ..*old(self) }),
    {
        self.phase = SessionPhase::Signalling;
    }

    /// The join acknowledgement did not arrive in time: the session is lost.
    pub fn on_join_timeout(&mut self)
        ensures
            *final(self) == (WebRtcSession {
                phase: SessionPhase::Disconnected,
                stop_requested: true,
                ..*old(self)
            }),
    {
        self.phase = SessionPhase::Disconnected;
        self.stop_requested = true;
    }

    /// Apply one inbound signal event and return what the loop must do:
    /// the join acknowledgement starts the offer flow; the answer (only
    /// while an offer is pending) moves to connecting; trickle candidates
    /// are added only for the publisher target and silently dropped
    /// otherwise; subscriber offers are always answered; a leave request
    /// begins shutdown.
    pub fn handle_signal_event(&mut self, ev: SignalEvent) -> (a: SessionAction)
        ensures
            ev is Join && old(self).phase is Signalling ==> a is SendOfferFlow && *final(self) == (
            WebRtcSession {
                phase: SessionPhase::Offering,
                has_pending_offer: true,
                ..*old(self)
            }),
            ev is Join && !(old(self).phase is Signalling) ==> a is Ignore && *final(self) == *old(
                self,
            ),
            forall|sdp: String|
                ev == (SignalEvent::Answer { sdp }) && old(self).has_pending_offer ==> a == (
                SessionAction::AcceptAnswer { sdp }) && *final(self) == (WebRtcSession {
                    phase: SessionPhase::Connecting,
                    has_pending_offer: false,
                    ..*old(self)
                }),
            ev is Answer && !old(self).has_pending_offer ==> a is Ignore && *final(self) == *old(
                self,
            ),
            forall|candidate_init: String, target: i32|
                ev == (SignalEvent::Trickle { candidate_init, target }) && target
                    == TRICKLE_TARGET_PUBLISHER ==> a == (SessionAction::AddRemoteCandidate {
                    candidate_init,
                }) && *final(self) == *old(self),
            forall|candidate_init: String, target: i32|
                ev == (SignalEvent::Trickle { candidate_init, target }) && target
                    != TRICKLE_TARGET_PUBLISHER ==> a is Ignore && *final(self) == *old(self),
            forall|sdp: String|
                ev == (SignalEvent::Offer { sdp }) ==> a == (SessionAction::AnswerSubscriberOffer {
                    sdp,
                }) && *final(self) == *old(self),
            ev is TrackPublished ==> a is Ignore && *final(self) == *old(self),
            ev is Leave ==> a is Ignore && *final(self) == (WebRtcSession {
                stop_requested: true,
                ..*old(self)
            }),
    {
        match ev {
            SignalEvent::Join => {
                if matches!(self.phase, SessionPhase::Signalling) {
                    self.phase = SessionPhase::Offering;
                    self.has_pending_offer = true;
                    SessionAction::SendOfferFlow
                } else {
                    SessionAction::Ignore
                }
            },
            SignalEvent::Answer { sdp } => {
                if self.has_pending_offer {
                    self.has_pending_offer = false;
                    self.phase = SessionPhase::Connecting;
                    SessionAction::AcceptAnswer { sdp }
                } else {
                    SessionAction::Ignore
                }
            },
            SignalEvent::Trickle { candidate_init, target } => {
                if target == TRICKLE_TARGET_PUBLISHER {
                    SessionAction::AddRemoteCandidate { candidate_init }
                } else {
                    SessionAction::Ignore
                }
            },
            SignalEvent::Offer { sdp } => SessionAction::AnswerSubscriberOffer { sdp },
            SignalEvent::TrackPublished => SessionAction::Ignore,
            SignalEvent::Leave => {
                self.stop_requested = true;
                SessionAction::Ignore
            },
        }
    }

    /// Apply an ICE connection state change: connected opens the media
    /// path; disconnected is fatal and begins an orderly stop.
    pub fn on_ice_update(&mut self, ice: IceUpdate)
        ensures
            ice is Connected ==> *final(self) == (WebRtcSession {
                phase: SessionPhase::Connected,
                connected: true,
                ..*old(self)
            }),
            ice is Disconnected ==> *final(self) == (WebRtcSession {
                phase: SessionPhase::Disconnected,
                connected: false,
                stop_requested: true,
                ..*old(self)
            }),
            ice is Other ==> *final(self) == *old(self),
    {
        match ice {
            IceUpdate::Connected => {
                self.phase = SessionPhase::Connected;
                self.connected = true;
            },
            IceUpdate::Disconnected => {
                self.phase = SessionPhase::Disconnected;
                self.connected = false;
                self.stop_requested = true;
            },
            IceUpdate::Other => {},
        }
    }

    /// Record a keyframe request (PLI) from the SFU, to be forwarded to the
    /// encoder.
    pub fn on_keyframe_request(&mut self)
        ensures
            *final(self) == (WebRtcSession { keyframe_request_pending: true, ..*old(self) }),
    {
        self.keyframe_request_pending = true;
    }

    /// Take the pending keyframe request for forwarding to the encoder.
    pub fn take_keyframe_request(&mut self) -> (was_pending: bool)
        ensures
            was_pending == old(self).keyframe_request_pending,
            *final(self) == (WebRtcSession { keyframe_request_pending: false, ..*old(self) }),
    {
        let was_pending = self.keyframe_request_pending;
        self.keyframe_request_pending = false;
        was_pending
    }

    /// Apply one engine command: video frames are written only while the
    /// connection is usable and dropped (counted, never queued) before
    /// that; audio has no negotiated track yet; a stop command sends the
    /// leave request and begins shutdown.
    pub fn handle_command(&mut self, cmd: TransportCommand) -> (a: TransportAction)
        ensures
            forall|data: Vec<u8>, timestamp_90khz: u32, keyframe: bool|
                cmd == (TransportCommand::VideoFrame { data, timestamp_90khz, keyframe }) && old(
                    self,
                ).connected ==> a == (TransportAction::WriteVideo { data, timestamp_90khz })
                    && *final(self) == (WebRtcSession {
                    frames_sent: saturating_add_spec(old(self).frames_sent as int, 1) as u64,
                    ..*old(self)
                }),
            cmd is VideoFrame && !old(self).connected ==> a is Ignore && *final(self) == (
            WebRtcSession {
                frames_dropped: saturating_add_spec(old(self).frames_dropped as int, 1) as u64,
                ..*old(self)
            }),
            cmd is AudioFrame ==> a is Ignore && *final(self) == *old(self),
            cmd is ForceKeyframe ==> a is Ignore && *final(self) == *old(self),
            cmd is Stop ==> a is SendLeaveAndStop && *final(self) == (WebRtcSession {
                stop_requested: true,
                ..*old(self)
            }),
    {
        match cmd {
            TransportCommand::VideoFrame { data, timestamp_90khz, keyframe: _ } => {
                if self.connected {
                    self.frames_sent = saturating_add_u64(self.frames_sent, 1);
                    TransportAction::WriteVideo { data, timestamp_90khz }
                } else {
                    self.frames_dropped = saturating_add_u64(self.frames_dropped, 1);
                    TransportAction::Ignore
                }
            },
            TransportCommand::AudioFrame { .. } => TransportAction::Ignore,
            TransportCommand::ForceKeyframe => TransportAction::Ignore,
            TransportCommand::Stop => {
                self.stop_requested = true;
                TransportAction::SendLeaveAndStop
            },
        }
    }

    /// Begin the orderly shutdown: the loop sends the leave request and
    /// enters the closing phase. Idempotent.
    pub fn begin_close(&mut self)
        ensures
            *final(self) == (WebRtcSession {
                phase: SessionPhase::Closing,
                stop_requested: true,
                ..*old(self)
            }),
    {
        self.phase = SessionPhase::Closing;
        self.stop_requested = true;
    }

    /// Shutdown complete.
    pub fn finish_close(&mut self)
        requires
            old(self).phase is Closing,
        ensures
            *final(self) == (WebRtcSession { phase: SessionPhase::Terminated, ..*old(self) }),
    {
        self.phase = SessionPhase::Terminated;
    }
}

/// How many engine commands one loop tick processes at most, so that the
/// driver keeps getting polled under command load.
pub const MAX_COMMANDS_PER_TICK: usize = 5;

/// Whether the per-tick command batch may take one more command.
pub fn command_batch_has_room(processed: usize) -> (r: bool)
    ensures
        r == (processed < MAX_COMMANDS_PER_TICK),
{
    processed < MAX_COMMANDS_PER_TICK
}

/// Bound on driver output polls per tick: a safety valve against a spinning
/// driver burning a core.
pub const MAX_POLL_ITERATIONS: u32 = 1000;

/// Whether the per-tick output poll may run once more.
pub fn poll_budget_left(iterations: u32) -> (r: bool)
    ensures
        r == (iterations < MAX_POLL_ITERATIONS),
{
    iterations < MAX_POLL_ITERATIONS
}

/// Milliseconds the loop may sleep at most before re-checking commands.
pub const COMMAND_POLL_CAP_MS: u64 = 5;

/// How long to sleep until the driver's next timeout: capped so command
/// response latency stays bounded.
pub fn bounded_wait_ms(until_timeout_ms: u64) -> (r: u64)
    ensures
        until_timeout_ms <= COMMAND_POLL_CAP_MS ==> r == until_timeout_ms,
        until_timeout_ms > COMMAND_POLL_CAP_MS ==> r == COMMAND_POLL_CAP_MS,
{
    if until_timeout_ms <= COMMAND_POLL_CAP_MS {
        until_timeout_ms
    } else {
        COMMAND_POLL_CAP_MS
    }
}

/// Milliseconds to wait for the join acknowledgement before giving up.
pub const JOIN_TIMEOUT_MS: u64 = 5000;

/// Whether the join wait has expired.
pub fn join_timed_out(elapsed_ms: u64) -> (r: bool)
    ensures
        r == (elapsed_ms >= JOIN_TIMEOUT_MS),
{
    elapsed_ms >= JOIN_TIMEOUT_MS
}

/// Codec identity of one negotiated payload parameter set.
#[derive(Clone, Copy, Debug, PartialEq, Eq, Structural)]
pub enum CodecKind {
    H264,
    Opus,
    Other,
}

/// One negotiated payload parameter set of the video m-line, reduced to
/// plain values.
#[derive(Clone, Copy, Debug, PartialEq, Eq, Structural)]
pub struct PayloadParam {
    pub codec: CodecKind,
    /// The RTP payload type number.
    pub pt: u8,
}

/// The payload type of the first H.264 entry, if any.
pub open spec fn first_h264_pt(params: Seq<PayloadParam>) -> Option<u8>
    decreases params.len(),
{
    if params.len() == 0 {
        None
    } else if params[0].codec is H264 {
        Some(params[0].pt)
    } else {
        first_h264_pt(params.drop_first())
    }
}

/// Among the negotiated payload parameters of the video m-line, pick the
/// payload type of the first entry whose codec is H.264; video cannot be
/// written without one.
pub fn select_h264_payload(params: &Vec<PayloadParam>) -> (r: Option<u8>)
    ensures
        r == first_h264_pt(params@),
{
    let n: usize = params.len();
    let mut k: usize = 0;
    proof {
        assert(params@.skip(0) =~= params@);
    }
    while k < n
        invariant
            k <= n,
            n == params@.len(),
            first_h264_pt(params@) == first_h264_pt(params@.skip(k as int)),
            forall|i: int| 0 <= i < k ==> !(#[trigger] params@[i].codec is H264),
        decreases n - k,
    {
        let p = params[k];
        proof {
            assert(params@.skip(k as int)[0] == params@[k as int]);
            assert(params@.skip(k as int).drop_first() =~= params@.skip(k as int + 1));
        }
        if matches!(p.codec, CodecKind::H264) {
            return Some(p.pt);
        }
        k += 1;
    }
    proof {
        assert(params@.skip(n as int) =~= Seq::<PayloadParam>::empty());
    }
    None
}

} // verus!
