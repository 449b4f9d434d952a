//! The bounded latest-wins frame channel and the encoder control machine.

use media_engine::capture::{CapturedFrame, FrameChannel, StopHandle, CAPTURE_CHANNEL_CAPACITY};
use media_engine::encoder::{
    async_drain_step, async_input_wait_step, async_output_wait_step, caller_allocates_output,
    encoder_enum_passes, pack_u64, select_variant, DrainWaitStep, Encoder, EncoderConfig,
    EncoderPass, EncoderState, EncoderVariant, InputWaitStep, MftEvent, OutputWaitStep,
};

fn frame(tag: u8) -> CapturedFrame {
    CapturedFrame {
        data: vec![tag; 64],
        width: 2,
        height: 2,
        row_pitch: 8,
        timestamp_100ns: tag as i64,
    }
}

#[test]
fn channel_depth_never_exceeds_bound() {
    let mut ch = FrameChannel::new(CAPTURE_CHANNEL_CAPACITY);
    assert!(ch.try_send(frame(1)));
    assert!(ch.try_send(frame(2)));
    // Third frame is discarded, not queued: no overflow error, depth stays 2.
    assert!(!ch.try_send(frame(3)));
    assert_eq!(ch.len(), 2);
}

#[test]
fn drain_keeps_only_newest_frame() {
    let mut ch = FrameChannel::new(2);
    assert!(ch.try_send(frame(1)));
    assert!(ch.try_send(frame(2)));
    let (newest, dropped) = ch.drain_latest();
    let newest = newest.expect("a frame was queued");
    assert_eq!(newest.timestamp_100ns, 2);
    assert_eq!(dropped, 1);
    assert_eq!(ch.len(), 0);
    let (none, dropped) = ch.drain_latest();
    assert!(none.is_none());
    assert_eq!(dropped, 0);
}

#[test]
fn stop_handle_is_idempotent() {
    let mut h = StopHandle::new();
    assert!(!h.is_stopped());
    h.stop();
    assert!(h.is_stopped());
    h.stop();
    assert!(h.is_stopped());
}

#[test]
fn encoder_defaults() {
    let c = EncoderConfig::default();
    assert_eq!(c.width, 1920);
    assert_eq!(c.height, 1080);
    assert_eq!(c.fps, 30);
    assert_eq!(c.bitrate, 4_000_000);
    assert!(c.prefer_hardware);
}

#[test]
fn first_frame_carries_keyframe_directive() {
    let mut e = Encoder::new(EncoderVariant::AsyncHardware);
    assert_eq!(e.state, EncoderState::Idle);
    let idr = e.accept_frame();
    assert!(idr);
    assert_eq!(e.state, EncoderState::Streaming);
    // The second frame is not an IDR unless forced again.
    let idr = e.accept_frame();
    assert!(!idr);
}

#[test]
fn repeated_force_keyframe_yields_one_idr() {
    let mut e = Encoder::new(EncoderVariant::SyncSoftware);
    let _ = e.accept_frame();
    let _ = e.accept_frame();
    e.force_keyframe();
    e.force_keyframe();
    e.force_keyframe();
    // Exactly the next frame is an IDR.
    assert!(e.accept_frame());
    assert!(!e.accept_frame());
}

#[test]
fn force_keyframe_applies_to_next_frame() {
    let mut e = Encoder::new(EncoderVariant::SyncSoftware);
    let _ = e.accept_frame();
    assert!(!e.force_idr_pending);
    e.force_keyframe();
    assert!(e.force_idr_pending);
    assert!(e.accept_frame());
}

#[test]
fn flush_when_not_started_is_noop() {
    let mut e = Encoder::new(EncoderVariant::SyncSoftware);
    let was_streaming = e.flush();
    assert!(!was_streaming);
    assert_eq!(e.state, EncoderState::Idle);
    assert_eq!(e.frames_accepted, 0);
    // Streaming then flushing drains; a second flush changes nothing.
    let _ = e.accept_frame();
    assert!(e.flush());
    assert_eq!(e.state, EncoderState::Drained);
    assert!(!e.flush());
    assert_eq!(e.state, EncoderState::Drained);
}

#[test]
fn variant_selection_prefers_hardware_async() {
    assert_eq!(select_variant(true, true, true), Some(EncoderVariant::AsyncHardware));
    assert_eq!(select_variant(true, false, true), Some(EncoderVariant::SyncSoftware));
    assert_eq!(select_variant(false, true, true), Some(EncoderVariant::SyncSoftware));
    assert_eq!(select_variant(false, true, false), None);
    assert_eq!(select_variant(true, false, false), None);
}

#[test]
fn enumeration_passes_follow_preference() {
    let passes = encoder_enum_passes(true);
    assert_eq!(passes, vec![EncoderPass::HardwareAsync, EncoderPass::SoftwareSync]);
    let passes = encoder_enum_passes(false);
    assert_eq!(passes, vec![EncoderPass::SoftwareSync]);
}

#[test]
fn async_event_protocol_steps() {
    assert_eq!(async_input_wait_step(MftEvent::NeedInput), InputWaitStep::Submit);
    assert_eq!(async_input_wait_step(MftEvent::DrainComplete), InputWaitStep::ReturnEmpty);
    assert_eq!(async_input_wait_step(MftEvent::HaveOutput), InputWaitStep::KeepWaiting);
    assert_eq!(async_output_wait_step(MftEvent::HaveOutput), OutputWaitStep::CollectOneThenStop);
    assert_eq!(async_output_wait_step(MftEvent::NeedInput), OutputWaitStep::StopEmpty);
    assert_eq!(async_drain_step(MftEvent::HaveOutput), DrainWaitStep::CollectOne);
    assert_eq!(async_drain_step(MftEvent::DrainComplete), DrainWaitStep::Finished);
    assert_eq!(async_drain_step(MftEvent::NeedInput), DrainWaitStep::KeepWaiting);
}

#[test]
fn output_allocation_rule() {
    assert!(!caller_allocates_output(true));
    assert!(caller_allocates_output(false));
}

#[test]
fn media_attribute_packing() {
    assert_eq!(pack_u64(1920, 1080), (1920u64 << 32) | 1080);
    assert_eq!(pack_u64(30, 1), (30u64 << 32) | 1);
    assert_eq!(pack_u64(0, 0), 0);
}
