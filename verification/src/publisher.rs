//! The encode-and-publish orchestrator state. One loop iteration checks the
//! stop flag, applies queued commands, picks the newest captured frame,
//! transfers a pending keyframe directive to the encoder, encodes, stamps
//! each returned unit with the frame's RTP timestamp, and accounts stats.
//!
//! The RTP timestamp of every emitted unit derives from the monotone frame
//! index, so the unwrapped 90 kHz tick trace never decreases: the wire
//! timestamps are monotonically non-decreasing modulo 2^32.

use vstd::prelude::*;

use crate::capture::CapturedFrame;
use crate::encoder::{EncoderConfig, EncoderVariant};
use crate::pipeline::{EncodePipeline, EncodedPacket, FrameSubmission};
use crate::timing::{
    frame_duration_spec, rtp_timestamp, rtp_ticks_per_frame_spec, rtp_ticks_spec, PTS_INDEX_LIMIT,
};

verus! {

/// Commands sent from the engine facade to the publish loop.
#[derive(Clone, Copy, Debug, PartialEq, Eq, Structural)]
pub enum EngineCommand {
    /// Encode the next frame as an IDR.
    ForceKeyframe,
    /// Stop the session.
    Stop,
}

/// `a + b`, saturating at the counter ceiling.
pub open spec fn saturating_add_spec(a: int, b: int) -> int {
    if a + b <= u64::MAX {
        a + b
    } else {
        u64::MAX as int
    }
}

/// Saturating addition for the session counters: byte and frame totals are
/// reporting values and pin at the ceiling rather than wrapping.
pub fn saturating_add_u64(a: u64, b: u64) -> (r: u64)
    ensures
        r == saturating_add_spec(a as int, b as int),
{
    if a <= u64::MAX - b {
        a + b
    } else {
        u64::MAX
    }
}

/// The byte counter after accounting every packet in order, starting from
/// `start`: each packet adds its payload size, saturating at the ceiling.
pub open spec fn accumulate_bytes(start: int, packets: Seq<EncodedPacket>) -> int
    decreases packets.len(),
{
    if packets.len() == 0 {
        start
    } else {
        accumulate_bytes(
            saturating_add_spec(start, packets[0].data@.len() as int),
            packets.drop_first(),
        )
    }
}

proof fn lemma_accumulate_bytes_snoc(start: int, packets: Seq<EncodedPacket>, p: EncodedPacket)
    ensures
        accumulate_bytes(start, packets.push(p)) == saturating_add_spec(
            accumulate_bytes(start, packets),
            p.data@.len() as int,
        ),
    decreases packets.len(),
{
    if packets.len() == 0 {
        assert(packets.push(p)[0] == p);
        assert(packets.push(p).drop_first() =~= Seq::<EncodedPacket>::empty());
        assert(accumulate_bytes(start, packets.push(p)) == accumulate_bytes(
            saturating_add_spec(start, p.data@.len() as int),
            packets.push(p).drop_first(),
        ));
    } else {
        assert(packets.push(p)[0] == packets[0]);
        assert(packets.push(p).drop_first() =~= packets.drop_first().push(p));
        lemma_accumulate_bytes_snoc(
            saturating_add_spec(start, packets[0].data@.len() as int),
            packets.drop_first(),
            p,
        );
    }
}

/// State of the publish loop.
pub struct Publisher {
    /// Target frame rate; fixed for the session.
    pub fps: u32,
    /// Frames published so far; the source of every RTP timestamp.
    pub frame_index: u64,
    /// Total bytes handed to transport (saturating).
    pub total_bytes: u64,
    /// Frames published since the last stats emission (saturating).
    pub interval_frames: u64,
    /// Bytes handed to transport since the last stats emission (saturating).
    pub interval_bytes: u64,
    /// A keyframe was requested and not yet transferred to the encoder.
    pub pending_keyframe: bool,
    /// Orderly shutdown was requested.
    pub stop_requested: bool,
    /// The unwrapped 90 kHz tick of every unit emitted so far, in emission
    /// order.
    pub emitted_ticks: Ghost<Seq<int>>,
}

impl Publisher {
    /// The trace of emitted ticks is sorted and bounded by the tick of the
    /// next frame, and the rate is valid.
    pub open spec fn wf(&self) -> bool {
        &&& self.fps >= 1
        &&& forall|i: int, j: int|
            0 <= i <= j < self.emitted_ticks@.len() ==> #[trigger] self.emitted_ticks@[i]
                <= #[trigger] self.emitted_ticks@[j]
        &&& forall|i: int|
            0 <= i < self.emitted_ticks@.len() ==> #[trigger] self.emitted_ticks@[i]
                <= rtp_ticks_spec(self.frame_index as int, self.fps)
        &&& forall|i: int| 0 <= i < self.emitted_ticks@.len() ==> 0 <= #[trigger] self.emitted_ticks@[i]
    }

    /// A fresh publisher: nothing emitted, nothing pending.
    pub fn new(fps: u32) -> (p: Publisher)
        requires
            fps >= 1,
        ensures
            p.wf(),
            p.fps == fps,
            p.frame_index == 0,
            p.total_bytes == 0,
            p.interval_frames == 0,
            p.interval_bytes == 0,
            !p.pending_keyframe,
            !p.stop_requested,
            p.emitted_ticks@.len() == 0,
    {
        proof {
            vstd::arithmetic::mul::lemma_mul_nonnegative(0, rtp_ticks_per_frame_spec(fps));
        }
        Publisher {
            fps,
            frame_index: 0,
            total_bytes: 0,
            interval_frames: 0,
            interval_bytes: 0,
            pending_keyframe: false,
            stop_requested: false,
            emitted_ticks: Ghost(Seq::empty()),
        }
    }

    /// Apply one queued command: a keyframe request sets the pending
    /// directive, a stop request sets the stop flag. Nothing else changes.
    pub fn apply_command(&mut self, cmd: EngineCommand)
        requires
            old(self).wf(),
        ensures
            final(self).wf(),
            cmd is ForceKeyframe ==> *final(self) == (Publisher {
                pending_keyframe: true,
                ..*old(self)
            }),
            cmd is Stop ==> *final(self) == (Publisher { stop_requested: true, ..*old(self) }),
    {
        match cmd {
            EngineCommand::ForceKeyframe => {
                self.pending_keyframe = true;
            },
            EngineCommand::Stop => {
                self.stop_requested = true;
            },
        }
    }

    /// Take the pending keyframe directive for transfer to the encoder:
    /// returns whether one was pending and clears it, so repeated requests
    /// before a frame still transfer exactly once.
    pub fn take_pending_keyframe(&mut self) -> (was_pending: bool)
        requires
            old(self).wf(),
        ensures
            final(self).wf(),
            was_pending == old(self).pending_keyframe,
            *final(self) == (Publisher { pending_keyframe: false, ..*old(self) }),
    {
        let was_pending = self.pending_keyframe;
        self.pending_keyframe = false;
        was_pending
    }

    /// Publish the encoded units of one frame: every unit of the frame
    /// carries the frame's RTP timestamp, the byte counters grow by the
    /// units' sizes, and the frame index advances. Returns the 32-bit wire
    /// timestamp used.
    pub fn emit_frame(&mut self, packets: &Vec<EncodedPacket>) -> (ts: u32)
        requires
            old(self).wf(),
            old(self).frame_index < PTS_INDEX_LIMIT,
        ensures
            final(self).wf(),
            ts == rtp_ticks_spec(old(self).frame_index as int, old(self).fps) % 0x1_0000_0000,
            final(self).fps == old(self).fps,
            final(self).frame_index == old(self).frame_index + 1,
            final(self).pending_keyframe == old(self).pending_keyframe,
            final(self).stop_requested == old(self).stop_requested,
            final(self).emitted_ticks@ == old(self).emitted_ticks@ + Seq::new(
                packets@.len(),
                |i: int| rtp_ticks_spec(old(self).frame_index as int, old(self).fps),
            ),
            final(self).interval_frames == saturating_add_spec(old(self).interval_frames as int, 1),
            final(self).total_bytes == accumulate_bytes(old(self).total_bytes as int, packets@),
            final(self).interval_bytes == accumulate_bytes(
                old(self).interval_bytes as int,
                packets@,
            ),
    {
        let ghost pre = *self;
        let ghost tick = rtp_ticks_spec(self.frame_index as int, self.fps);
        let ts = rtp_timestamp(self.frame_index, self.fps);
        let mut k: usize = 0;
        let n: usize = packets.len();
        proof {
            assert(packets@.subrange(0, 0) =~= Seq::<EncodedPacket>::empty());
        }
        while k < n
            invariant
                k <= n,
                n == packets@.len(),
                *self == (Publisher {
                    total_bytes: self.total_bytes,
                    interval_bytes: self.interval_bytes,
                    emitted_ticks: self.emitted_ticks,
                    ..pre
                }),
                self.emitted_ticks@ == pre.emitted_ticks@ + Seq::new(k as nat, |i: int| tick),
                self.total_bytes == accumulate_bytes(
                    pre.total_bytes as int,
                    packets@.subrange(0, k as int),
                ),
                self.interval_bytes == accumulate_bytes(
                    pre.interval_bytes as int,
                    packets@.subrange(0, k as int),
                ),
            decreases n - k,
        {
            let len_u64: u64 = packets[k].data.len() as u64;
            self.total_bytes = saturating_add_u64(self.total_bytes, len_u64);
            self.interval_bytes = saturating_add_u64(self.interval_bytes, len_u64);
            proof {
                assert(packets@.subrange(0, k as int + 1) =~= packets@.subrange(0, k as int).push(
                    packets@[k as int],
                ));
                lemma_accumulate_bytes_snoc(
                    pre.total_bytes as int,
                    packets@.subrange(0, k as int),
                    packets@[k as int],
                );
                lemma_accumulate_bytes_snoc(
                    pre.interval_bytes as int,
                    packets@.subrange(0, k as int),
                    packets@[k as int],
                );
                self.emitted_ticks@ = pre.emitted_ticks@ + Seq::new((k + 1) as nat, |i: int| tick);
                assert(self.emitted_ticks@ =~= (pre.emitted_ticks@ + Seq::new(
                    k as nat,
                    |i: int| tick,
                )).push(tick));
            }
            k += 1;
        }
        proof {
            assert(packets@.subrange(0, n as int) =~= packets@);
            assert(0 <= tick) by {
                vstd::arithmetic::mul::lemma_mul_nonnegative(
                    pre.frame_index as int,
                    rtp_ticks_per_frame_spec(pre.fps),
                );
            }
            assert(rtp_ticks_spec(pre.frame_index as int, pre.fps) <= rtp_ticks_spec(
                pre.frame_index as int + 1,
                pre.fps,
            )) by {
                crate::timing::lemma_rtp_ticks_monotone(
                    pre.frame_index as int,
                    pre.frame_index as int + 1,
                    pre.fps,
                );
            }
        }
        self.interval_frames = saturating_add_u64(self.interval_frames, 1);
        self.frame_index = self.frame_index + 1;
        ts
    }

    /// Take and reset the interval counters for a periodic stats report;
    /// the running totals are untouched.
    pub fn take_stats(&mut self) -> (r: (u64, u64))
        requires
            old(self).wf(),
        ensures
            final(self).wf(),
            r.0 == old(self).interval_frames,
            r.1 == old(self).interval_bytes,
            *final(self) == (Publisher { interval_frames: 0, interval_bytes: 0, ..*old(self) }),
    {
        let r = (self.interval_frames, self.interval_bytes);
        self.interval_frames = 0;
        self.interval_bytes = 0;
        r
    }
}

/// Emitted RTP timestamps are monotonically non-decreasing: for any two
/// units in emission order, the unwrapped 90 kHz tick of the earlier one is
/// at most that of the later one (the wire carries these ticks modulo 2^32).
pub proof fn lemma_emitted_rtp_monotone(p: Publisher, i: int, j: int)
    requires
        p.wf(),
        0 <= i <= j < p.emitted_ticks@.len(),
    ensures
        p.emitted_ticks@[i] <= p.emitted_ticks@[j],
{
}

/// The per-frame path of the publish loop, coupling the pipeline with the
/// publisher across the platform transform call: `prepare_frame` transfers
/// any pending keyframe request, stages and accounts the frame and yields
/// its directive; the transform encodes outside; `complete_frame` publishes
/// whatever came back (or `abort_frame` drops the frame on a transform
/// error). A ghost trace records the directive of every frame handed to the
/// transform: the first one is always an IDR, so a transform that honors
/// its directives opens the stream with a keyframe.
pub struct EncodePublish {
    pub pipeline: EncodePipeline,
    pub publisher: Publisher,
    /// The IDR directive of the frame currently at the transform, if any.
    pub in_flight_idr: Option<bool>,
    /// The directive of every frame submitted to the transform, in order.
    pub submitted: Ghost<Seq<bool>>,
}

impl EncodePublish {
    pub open spec fn wf(&self) -> bool {
        &&& self.pipeline.wf()
        &&& self.publisher.wf()
        &&& self.publisher.fps == self.pipeline.config.fps
        &&& self.submitted@.len() == self.pipeline.frame_count
        &&& (self.submitted@.len() == 0 ==> self.pipeline.encoder.force_idr_pending)
        &&& (self.submitted@.len() > 0 ==> self.submitted@[0])
    }

    /// The frame path of a fresh session.
    pub fn new(config: EncoderConfig, variant: EncoderVariant) -> (e: EncodePublish)
        requires
            config.wf(),
        ensures
            e.wf(),
            e.pipeline.config == config,
            e.publisher.frame_index == 0,
            e.pipeline.frame_count == 0,
            e.in_flight_idr is None,
            !e.publisher.pending_keyframe,
            !e.publisher.stop_requested,
            e.submitted@.len() == 0,
    {
        let fps = config.fps;
        EncodePublish {
            pipeline: EncodePipeline::new(config, variant),
            publisher: Publisher::new(fps),
            in_flight_idr: None,
            submitted: Ghost(Seq::empty()),
        }
    }

    /// Apply one engine command to the publish state.
    pub fn apply_command(&mut self, cmd: EngineCommand)
        requires
            old(self).wf(),
        ensures
            final(self).wf(),
            final(self).pipeline == old(self).pipeline,
            final(self).in_flight_idr == old(self).in_flight_idr,
            final(self).submitted == old(self).submitted,
            cmd is ForceKeyframe ==> final(self).publisher == (Publisher {
                pending_keyframe: true,
                ..old(self).publisher
            }),
            cmd is Stop ==> final(self).publisher == (Publisher {
                stop_requested: true,
                ..old(self).publisher
            }),
    {
        self.publisher.apply_command(cmd);
    }

    /// Stage one captured frame: transfer any pending keyframe request to
    /// the encoder, upload the tight source rectangle, run the conversion
    /// pass, account the frame and take its directive. The transform call
    /// happens outside; finish with `complete_frame` or `abort_frame`.
    pub fn prepare_frame(&mut self, frame: &CapturedFrame) -> (s: FrameSubmission)
        requires
            old(self).wf(),
            old(self).in_flight_idr is None,
            old(self).pipeline.accepts_frame(*frame),
            old(self).pipeline.frame_count < PTS_INDEX_LIMIT,
            4 * (frame.width as int) * (frame.height as int) <= usize::MAX,
            4 * (frame.width as int) <= usize::MAX,
        ensures
            final(self).wf(),
            final(self).in_flight_idr == Some(s.idr),
            final(self).pipeline.config == old(self).pipeline.config,
            final(self).pipeline.frame_count == old(self).pipeline.frame_count + 1,
            final(self).publisher.frame_index == old(self).publisher.frame_index,
            final(self).publisher.stop_requested == old(self).publisher.stop_requested,
            final(self).submitted@ == old(self).submitted@.push(s.idr),
            final(self).pipeline.bgra_staging@ == crate::geometry::rect_bytes(
                frame.data@,
                0,
                frame.row_pitch as int,
                4 * frame.width as int,
                frame.height as int,
            ),
            s.idr == (old(self).pipeline.encoder.force_idr_pending || old(
                self,
            ).publisher.pending_keyframe),
            s.pts_100ns == old(self).pipeline.frame_count * frame_duration_spec(
                old(self).pipeline.config.fps,
            ),
            s.duration_100ns == frame_duration_spec(old(self).pipeline.config.fps),
            old(self).submitted@.len() == 0 ==> s.idr,
    {
        if self.publisher.take_pending_keyframe() {
            self.pipeline.force_keyframe();
        }
        let s = self.pipeline.encode_frame(frame);
        self.in_flight_idr = Some(s.idr);
        proof {
            self.submitted@ = self.submitted@.push(s.idr);
        }
        s
    }

    /// Publish what the transform returned for the prepared frame: every
    /// unit carries the frame's RTP timestamp, the counters grow, and the
    /// publish index advances.
    pub fn complete_frame(&mut self, packets: &Vec<EncodedPacket>) -> (ts: u32)
        requires
            old(self).wf(),
            old(self).in_flight_idr is Some,
            old(self).publisher.frame_index < PTS_INDEX_LIMIT,
        ensures
            final(self).wf(),
            final(self).in_flight_idr is None,
            final(self).pipeline == old(self).pipeline,
            final(self).submitted == old(self).submitted,
            ts == rtp_ticks_spec(
                old(self).publisher.frame_index as int,
                old(self).publisher.fps,
            ) % 0x1_0000_0000,
            final(self).publisher.frame_index == old(self).publisher.frame_index + 1,
            final(self).publisher.emitted_ticks@ == old(self).publisher.emitted_ticks@ + Seq::new(
                packets@.len(),
                |i: int|
                    rtp_ticks_spec(old(self).publisher.frame_index as int, old(self).publisher.fps),
            ),
    {
        let ts = self.publisher.emit_frame(packets);
        self.in_flight_idr = None;
        ts
    }

    /// Drop the prepared frame after a transform error: nothing is
    /// published and the publish index does not advance (per-frame encode
    /// errors are non-fatal).
    pub fn abort_frame(&mut self)
        requires
            old(self).wf(),
            old(self).in_flight_idr is Some,
        ensures
            final(self).wf(),
            *final(self) == (EncodePublish { in_flight_idr: None, ..*old(self) }),
    {
        self.in_flight_idr = None;
    }

    /// Flush the encoder on shutdown; a never-started encoder is untouched.
    pub fn flush(&mut self) -> (r: Vec<EncodedPacket>)
        requires
            old(self).wf(),
        ensures
            final(self).wf(),
            r@.len() == 0,
            final(self).publisher == old(self).publisher,
            final(self).submitted == old(self).submitted,
    {
        self.pipeline.flush()
    }
}

/// The first frame this session ever hands to the transform carries the
/// IDR directive: a transform that honors its directives opens the stream
/// with a keyframe.
pub proof fn lemma_stream_opens_with_keyframe(e: EncodePublish)
    requires
        e.wf(),
        e.submitted@.len() > 0,
    ensures
        e.submitted@[0],
{
}

/// Outcome of a blocking receive on the capture channel, used when the
/// non-blocking drain found nothing.
#[derive(Clone, Copy, Debug, PartialEq, Eq, Structural)]
pub enum RecvOutcome {
    /// A frame arrived.
    Frame,
    /// The wait timed out.
    TimedOut,
    /// The producer is gone.
    Disconnected,
}

/// What the publish loop does after the fallback wait.
#[derive(Clone, Copy, Debug, PartialEq, Eq, Structural)]
pub enum GovernorStep {
    /// Encode the received frame.
    EncodeFrame,
    /// Nothing arrived in time; start the next tick.
    Retry,
    /// The capture side disconnected; stop the session.
    StopSession,
}

/// The governor's decision when the non-blocking drain produced no frame
/// and a bounded blocking wait was made instead.
pub fn governor_fallback_step(outcome: RecvOutcome) -> (s: GovernorStep)
    ensures
        outcome is Frame ==> s is EncodeFrame,
        outcome is TimedOut ==> s is Retry,
        outcome is Disconnected ==> s is StopSession,
{
    match outcome {
        RecvOutcome::Frame => GovernorStep::EncodeFrame,
        RecvOutcome::TimedOut => GovernorStep::Retry,
        RecvOutcome::Disconnected => GovernorStep::StopSession,
    }
}

/// Milliseconds between periodic stats reports.
pub const STATS_INTERVAL_MS: u64 = 1000;

/// Whether the periodic stats report is due.
pub fn stats_due(elapsed_ms: u64) -> (r: bool)
    ensures
        r == (elapsed_ms >= STATS_INTERVAL_MS),
{
    elapsed_ms >= STATS_INTERVAL_MS
}

/// Tracks the one-shot stopped notification of a session: `on_stopped`
/// must fire exactly once per successful session start.
pub struct StopNotifier {
    pub fired: bool,
}

/// Consuming the notification: it fires only if it has not fired yet.
pub open spec fn should_fire_spec(n: StopNotifier) -> (StopNotifier, bool) {
    (StopNotifier { fired: true }, !n.fired)
}

impl StopNotifier {
    /// A notifier for a freshly started session.
    pub fn new() -> (n: StopNotifier)
        ensures
            !n.fired,
    {
        StopNotifier { fired: false }
    }

    /// Whether the stopped callback must be invoked now. The first call
    /// after a session start answers `true`; every later call answers
    /// `false`.
    pub fn should_fire(&mut self) -> (fire: bool)
        ensures
            (*final(self), fire) == should_fire_spec(*old(self)),
    {
        let fire = !self.fired;
        self.fired = true;
        fire
    }
}

/// The stopped notification fires exactly once: a fresh notifier fires on
/// the first take and never again.
pub proof fn lemma_on_stopped_fires_exactly_once(n: StopNotifier)
    requires
        !n.fired,
    ensures
        should_fire_spec(n).1,
        !should_fire_spec(should_fire_spec(n).0).1,
{
}

} // verus!
