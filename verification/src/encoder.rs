//! The H.264 encoder control machine. Two transform families sit behind one
//! interface: a synchronous software transform (feed one input, drain
//! outputs until it wants more) and an asynchronous hardware transform
//! (driven by need-input / have-output / drain-complete events). This module
//! holds the verified control state: which variant was selected, the
//! start/stream/drain lifecycle, and the force-keyframe directive that is
//! applied to exactly the next frame.

use vstd::prelude::*;

verus! {

/// Configuration for the H.264 encoder.
#[derive(Debug, Clone)]
pub struct EncoderConfig {
    /// Output width; must equal the NV12 target width (even).
    pub width: u32,
    /// Output height; must equal the NV12 target height (even).
    pub height: u32,
    /// Frame rate used for pacing and frame durations.
    pub fps: u32,
    /// Target average bitrate in bits per second.
    pub bitrate: u32,
    /// Try the hardware async transform first, then software sync.
    pub prefer_hardware: bool,
}

impl EncoderConfig {
    /// Encoder dimensions are the even NV12 target dimensions and the rate
    /// is at least one frame per second.
    pub open spec fn wf(&self) -> bool {
        &&& self.width % 2 == 0
        &&& self.height % 2 == 0
        &&& self.fps >= 1
    }
}

impl Default for EncoderConfig {
    /// 1080p at 30 frames per second, 4 Mbps, hardware preferred.
    fn default() -> (c: Self)
        ensures
            c.width == 1920 && c.height == 1080,
            c.fps == 30,
            c.bitrate == 4_000_000,
            c.prefer_hardware,
            c.wf(),
    {
        EncoderConfig { width: 1920, height: 1080, fps: 30, bitrate: 4_000_000, prefer_hardware: true }
    }
}

/// H.264 High profile, the fixed output profile.
pub const H264_PROFILE_HIGH: u32 = 100;

/// Progressive scan, the fixed interlace mode.
pub const INTERLACE_MODE_PROGRESSIVE: u32 = 2;

/// Pack two 32-bit values into one 64-bit attribute value, high word first
/// (the layout of combined frame-size and frame-rate media attributes).
pub fn pack_u64(high: u32, low: u32) -> (r: u64)
    ensures
        r == (high as int) * 0x1_0000_0000 + low as int,
{
    let h: u64 = high as u64;
    let l: u64 = low as u64;
    proof {
        assert((h << 32u64) | l == h * 0x1_0000_0000 + l) by (bit_vector)
            requires
                h < 0x1_0000_0000u64 && l < 0x1_0000_0000u64,
        ;
    }
    (h << 32u64) | l
}

/// The two transform families.
#[derive(Clone, Copy, Debug, PartialEq, Eq, Structural)]
pub enum EncoderVariant {
    /// Synchronous software transform; needs CPU readback of NV12 frames.
    SyncSoftware,
    /// Asynchronous hardware transform; accepts GPU surfaces directly.
    AsyncHardware,
}

/// One pass of transform enumeration.
#[derive(Clone, Copy, Debug, PartialEq, Eq, Structural)]
pub enum EncoderPass {
    HardwareAsync,
    SoftwareSync,
}

/// The enumeration plan at construction: with hardware preferred, try the
/// hardware async transforms first and fall back to software sync; without
/// it, consider software only.
pub fn encoder_enum_passes(prefer_hardware: bool) -> (passes: Vec<EncoderPass>)
    ensures
        prefer_hardware ==> passes@ =~= seq![
            EncoderPass::HardwareAsync,
            EncoderPass::SoftwareSync,
        ],
        !prefer_hardware ==> passes@ =~= seq![EncoderPass::SoftwareSync],
{
    let mut passes: Vec<EncoderPass> = Vec::new();
    if prefer_hardware {
        passes.push(EncoderPass::HardwareAsync);
    }
    passes.push(EncoderPass::SoftwareSync);
    passes
}

/// Which variant is activated, given which families produced a transform
/// that accepted the configured media types.
pub open spec fn select_variant_spec(
    prefer_hardware: bool,
    hw_async_available: bool,
    sw_sync_available: bool,
) -> Option<EncoderVariant> {
    if prefer_hardware && hw_async_available {
        Some(EncoderVariant::AsyncHardware)
    } else if sw_sync_available {
        Some(EncoderVariant::SyncSoftware)
    } else {
        None
    }
}

/// Pick the transform variant: hardware async first when preferred, then
/// software sync; `None` when no family activated (a fatal startup error).
pub fn select_variant(
    prefer_hardware: bool,
    hw_async_available: bool,
    sw_sync_available: bool,
) -> (r: Option<EncoderVariant>)
    ensures
        r == select_variant_spec(prefer_hardware, hw_async_available, sw_sync_available),
{
    if prefer_hardware && hw_async_available {
        Some(EncoderVariant::AsyncHardware)
    } else if sw_sync_available {
        Some(EncoderVariant::SyncSoftware)
    } else {
        None
    }
}

/// Whether the caller must pre-allocate the output sample for the
/// transform. When the transform advertises that it provides its own
/// samples the caller must not allocate; otherwise it must.
pub fn caller_allocates_output(provides_samples: bool) -> (r: bool)
    ensures
        r == !provides_samples,
{
    !provides_samples
}

/// Events emitted by the asynchronous hardware transform.
#[derive(Clone, Copy, Debug, PartialEq, Eq, Structural)]
pub enum MftEvent {
    NeedInput,
    HaveOutput,
    DrainComplete,
}

/// The driver's decision for one event while waiting to submit an input.
#[derive(Clone, Copy, Debug, PartialEq, Eq, Structural)]
pub enum InputWaitStep {
    /// Submit exactly one input now.
    Submit,
    /// A drain finished instead; give up on this frame with no output.
    ReturnEmpty,
    /// Some other event; keep waiting for the input request.
    KeepWaiting,
}

/// While block-waiting to submit an input, only a need-input event submits
/// and only a drain-complete aborts; everything else is ignored.
pub fn async_input_wait_step(ev: MftEvent) -> (s: InputWaitStep)
    ensures
        ev is NeedInput ==> s is Submit,
        ev is DrainComplete ==> s is ReturnEmpty,
        ev is HaveOutput ==> s is KeepWaiting,
{
    match ev {
        MftEvent::NeedInput => InputWaitStep::Submit,
        MftEvent::DrainComplete => InputWaitStep::ReturnEmpty,
        MftEvent::HaveOutput => InputWaitStep::KeepWaiting,
    }
}

/// The driver's decision for one event while collecting output after an
/// input was submitted.
#[derive(Clone, Copy, Debug, PartialEq, Eq, Structural)]
pub enum OutputWaitStep {
    /// Extract one sample (at most one per event), then stop collecting.
    CollectOneThenStop,
    /// The transform wants more input; stop with what was collected.
    StopEmpty,
    /// Some other event; keep polling.
    KeepWaiting,
}

/// After submitting an input: a have-output event yields at most one sample
/// and ends the collection; a need-input event ends it with nothing more.
pub fn async_output_wait_step(ev: MftEvent) -> (s: OutputWaitStep)
    ensures
        ev is HaveOutput ==> s is CollectOneThenStop,
        ev is NeedInput ==> s is StopEmpty,
        ev is DrainComplete ==> s is KeepWaiting,
{
    match ev {
        MftEvent::HaveOutput => OutputWaitStep::CollectOneThenStop,
        MftEvent::NeedInput => OutputWaitStep::StopEmpty,
        MftEvent::DrainComplete => OutputWaitStep::KeepWaiting,
    }
}

/// The driver's decision for one event while draining.
#[derive(Clone, Copy, Debug, PartialEq, Eq, Structural)]
pub enum DrainWaitStep {
    /// Extract one sample and keep draining.
    CollectOne,
    /// The drain has completed.
    Finished,
    /// Some other event; keep draining.
    KeepWaiting,
}

/// After a drain command: have-output events keep yielding samples until
/// the drain-complete event ends the drain.
pub fn async_drain_step(ev: MftEvent) -> (s: DrainWaitStep)
    ensures
        ev is HaveOutput ==> s is CollectOne,
        ev is DrainComplete ==> s is Finished,
        ev is NeedInput ==> s is KeepWaiting,
{
    match ev {
        MftEvent::HaveOutput => DrainWaitStep::CollectOne,
        MftEvent::DrainComplete => DrainWaitStep::Finished,
        MftEvent::NeedInput => DrainWaitStep::KeepWaiting,
    }
}

/// Lifecycle of the encoder.
#[derive(Clone, Copy, Debug, PartialEq, Eq, Structural)]
pub enum EncoderState {
    /// Created, streaming not yet announced to the transform.
    Idle,
    /// Accepting inputs and producing outputs.
    Streaming,
    /// Drained after a flush.
    Drained,
}

/// The verified control state of the encoder: selected variant, lifecycle,
/// the pending force-keyframe directive, and how many frames were accepted.
pub struct Encoder {
    pub variant: EncoderVariant,
    pub state: EncoderState,
    /// The next accepted frame must be encoded as an IDR. Set at creation
    /// (the stream must open with a keyframe) and by `force_keyframe`;
    /// cleared when a frame consumes it.
    pub force_idr_pending: bool,
    /// Frames accepted so far.
    pub frames_accepted: u64,
}

/// A fresh encoder: idle, no frames accepted, and the opening-keyframe
/// directive already pending so that the first unit of the stream is an IDR.
pub open spec fn encoder_new_spec(variant: EncoderVariant) -> Encoder {
    Encoder { variant, state: EncoderState::Idle, force_idr_pending: true, frames_accepted: 0 }
}

/// `force_keyframe`: set the directive; redundant calls coalesce.
pub open spec fn force_keyframe_spec(e: Encoder) -> Encoder {
    Encoder { force_idr_pending: true, ..e }
}

/// Accepting one frame: the encoder starts streaming if needed, the frame
/// count advances, and the pending directive is consumed by this frame.
pub open spec fn accept_frame_spec(e: Encoder) -> (Encoder, bool) {
    (
        Encoder {
            state: EncoderState::Streaming,
            force_idr_pending: false,
            frames_accepted: (e.frames_accepted + 1) as u64,
            ..e
        },
        e.force_idr_pending,
    )
}

/// Flushing: a streaming encoder drains; anywhere else it is a no-op.
pub open spec fn flush_spec(e: Encoder) -> Encoder {
    if e.state is Streaming {
        Encoder { state: EncoderState::Drained, ..e }
    } else {
        e
    }
}

impl Encoder {
    /// Create the control state for a freshly activated transform.
    pub fn new(variant: EncoderVariant) -> (e: Encoder)
        ensures
            e == encoder_new_spec(variant),
    {
        Encoder {
            variant,
            state: EncoderState::Idle,
            force_idr_pending: true,
            frames_accepted: 0,
        }
    }

    /// Announce streaming to the transform. Idempotent.
    pub fn start(&mut self)
        ensures
            *final(self) == (Encoder { state: EncoderState::Streaming, ..*old(self) }),
    {
        self.state = EncoderState::Streaming;
    }

    /// Direct the encoder to produce an IDR on the very next frame.
    /// Idempotent: repeated calls before the next frame coalesce.
    pub fn force_keyframe(&mut self)
        ensures
            *final(self) == force_keyframe_spec(*old(self)),
    {
        self.force_idr_pending = true;
    }

    /// Account for one frame handed to the transform. Returns whether this
    /// frame must be encoded as an IDR; the directive is consumed either
    /// way, so exactly one frame carries each directive.
    pub fn accept_frame(&mut self) -> (idr: bool)
        requires
            old(self).frames_accepted < u64::MAX,
        ensures
            (*final(self), idr) == accept_frame_spec(*old(self)),
    {
        let idr = self.force_idr_pending;
        self.force_idr_pending = false;
        self.state = EncoderState::Streaming;
        self.frames_accepted = self.frames_accepted + 1;
        idr
    }

    /// Send the drain command. Flushing an encoder that is not streaming
    /// (never started, or already drained) is a no-op.
    pub fn flush(&mut self) -> (was_streaming: bool)
        ensures
            *final(self) == flush_spec(*old(self)),
            was_streaming == (old(self).state is Streaming),
    {
        match self.state {
            EncoderState::Streaming => {
                self.state = EncoderState::Drained;
                true
            },
            _ => false,
        }
    }
}

/// The very first frame accepted by a fresh encoder carries the IDR
/// directive: the first unit of the stream is a keyframe.
pub proof fn lemma_first_frame_is_keyframe(variant: EncoderVariant)
    ensures
        accept_frame_spec(encoder_new_spec(variant)).1,
{
}

/// After `force_keyframe`, the next accepted frame carries the IDR
/// directive, whatever state the encoder was in.
pub proof fn lemma_force_keyframe_applies_to_next_frame(e: Encoder)
    ensures
        accept_frame_spec(force_keyframe_spec(e)).1,
{
}

/// Repeated `force_keyframe` calls before the next frame coalesce: however
/// many times the directive is set, exactly the next frame is an IDR and
/// the one after it is not (unless forced again).
pub proof fn lemma_force_keyframe_coalesces(e: Encoder)
    requires
        e.frames_accepted + 2 <= u64::MAX,
    ensures
        force_keyframe_spec(force_keyframe_spec(e)) == force_keyframe_spec(e),
        accept_frame_spec(force_keyframe_spec(force_keyframe_spec(e))).1,
        !accept_frame_spec(accept_frame_spec(force_keyframe_spec(force_keyframe_spec(e))).0).1,
{
}

/// Flushing an encoder that was never started is a no-op, and flushing
/// twice is the same as flushing once.
pub proof fn lemma_flush_not_started_noop(e: Encoder)
    ensures
        !(e.state is Streaming) ==> flush_spec(e) == e,
        flush_spec(flush_spec(e)) == flush_spec(e),
{
}

} // verus!
