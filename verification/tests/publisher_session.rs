//! The publish loop state, the pipeline, and the WebRTC session machine.

use media_engine::capture::CapturedFrame;
use media_engine::encoder::{EncoderConfig, EncoderVariant};
use media_engine::pipeline::{EncodePipeline, EncodedPacket};
use media_engine::publisher::{
    governor_fallback_step, stats_due, EncodePublish, EngineCommand, GovernorStep, Publisher,
    RecvOutcome, StopNotifier,
};
use media_engine::session::{
    bounded_wait_ms, command_batch_has_room, join_timed_out, poll_budget_left, select_h264_payload,
    CodecKind, IceUpdate, PayloadParam, SessionAction, SessionPhase, TransportAction,
    TransportCommand, WebRtcSession,
};

fn packet(len: usize, keyframe: bool) -> EncodedPacket {
    EncodedPacket { data: vec![7; len], timestamp: 0, duration: 333_333, keyframe }
}

#[test]
fn pipeline_keeps_dimensions_stable() {
    let config = EncoderConfig { width: 1920, height: 1080, fps: 30, bitrate: 2_000_000, prefer_hardware: true };
    let mut p = EncodePipeline::new(config, EncoderVariant::AsyncHardware);
    let frame = CapturedFrame {
        data: vec![5; (1919 * 4 + 4) * 1079],
        width: 1919,
        height: 1079,
        row_pitch: 1919 * 4 + 4,
        timestamp_100ns: 0,
    };
    let s0 = p.encode_frame(&frame);
    assert!(s0.idr, "first frame must be an IDR");
    assert_eq!(s0.pts_100ns, 0);
    assert_eq!(s0.duration_100ns, 333_333);
    let s1 = p.encode_frame(&frame);
    assert!(!s1.idr);
    assert_eq!(s1.pts_100ns, 333_333);
    // The NV12 target dimensions never change during the session.
    assert_eq!((p.config.width, p.config.height), (1920, 1080));
    assert_eq!(p.frame_count, 2);
    assert_eq!(p.live_views, 0, "no view handle may outlive its conversion pass");
}

#[test]
fn pipeline_upload_stages_tight_rectangle() {
    let config = EncoderConfig { width: 2, height: 2, fps: 30, bitrate: 1_000_000, prefer_hardware: false };
    let mut p = EncodePipeline::new(config, EncoderVariant::SyncSoftware);
    // Row pitch 12 with 8 pixel bytes per row: padding must not be staged.
    let mut data = Vec::new();
    for row in 0..2u32 {
        for col in 0..12u32 {
            data.push(if col < 8 { (row * 10 + col) as u8 } else { 0xEE });
        }
    }
    let frame = CapturedFrame { data, width: 2, height: 2, row_pitch: 12, timestamp_100ns: 0 };
    let _ = p.encode_frame(&frame);
    assert_eq!(p.bgra_staging, vec![0, 1, 2, 3, 4, 5, 6, 7, 10, 11, 12, 13, 14, 15, 16, 17]);
}

#[test]
fn pipeline_flush_yields_nothing_when_idle() {
    let config = EncoderConfig::default();
    let mut p = EncodePipeline::new(config, EncoderVariant::SyncSoftware);
    let packets = p.flush();
    assert!(packets.is_empty());
    assert_eq!(p.frame_count, 0);
}

#[test]
fn publisher_commands_and_pending_keyframe() {
    let mut p = Publisher::new(30);
    p.apply_command(EngineCommand::ForceKeyframe);
    assert!(p.pending_keyframe);
    p.apply_command(EngineCommand::ForceKeyframe);
    assert!(p.pending_keyframe);
    // The pending directive transfers exactly once.
    assert!(p.take_pending_keyframe());
    assert!(!p.take_pending_keyframe());
    p.apply_command(EngineCommand::Stop);
    assert!(p.stop_requested);
}

#[test]
fn publisher_emits_frame_timestamps_and_counts_bytes() {
    let mut p = Publisher::new(30);
    let packets = vec![packet(100, true), packet(50, false)];
    let ts0 = p.emit_frame(&packets);
    assert_eq!(ts0, 0);
    let ts1 = p.emit_frame(&vec![packet(10, false)]);
    assert_eq!(ts1, 3000);
    assert!(ts0 <= ts1);
    assert_eq!(p.frame_index, 2);
    assert_eq!(p.total_bytes, 160);
    let (frames, bytes) = p.take_stats();
    assert_eq!(frames, 2);
    assert_eq!(bytes, 160);
    // Interval counters reset; totals stay.
    let (frames, bytes) = p.take_stats();
    assert_eq!((frames, bytes), (0, 0));
    assert_eq!(p.total_bytes, 160);
}

#[test]
fn frame_path_opens_stream_with_keyframe() {
    let config = EncoderConfig { width: 2, height: 2, fps: 30, bitrate: 1_000_000, prefer_hardware: true };
    let mut path = EncodePublish::new(config, EncoderVariant::AsyncHardware);
    let frame = CapturedFrame {
        data: vec![9; 16],
        width: 2,
        height: 2,
        row_pitch: 8,
        timestamp_100ns: 0,
    };
    // The very first submitted frame carries the IDR directive, even after
    // a transform error drops it: the directive belongs to the submission.
    let s0 = path.prepare_frame(&frame);
    assert!(s0.idr);
    path.abort_frame();
    // Nothing was published for the dropped frame.
    assert_eq!(path.publisher.frame_index, 0);
    assert_eq!(path.pipeline.frame_count, 1);
    // The next frame publishes normally; its timestamp is the publish
    // index, not the submission index.
    let s1 = path.prepare_frame(&frame);
    assert!(!s1.idr);
    let ts = path.complete_frame(&vec![packet(20, true)]);
    assert_eq!(ts, 0);
    assert_eq!(path.publisher.frame_index, 1);
    assert_eq!(path.publisher.total_bytes, 20);
    // A keyframe request applies to exactly the next submission.
    path.apply_command(EngineCommand::ForceKeyframe);
    path.apply_command(EngineCommand::ForceKeyframe);
    let s2 = path.prepare_frame(&frame);
    assert!(s2.idr);
    let _ = path.complete_frame(&Vec::new());
    let s3 = path.prepare_frame(&frame);
    assert!(!s3.idr);
    let _ = path.complete_frame(&Vec::new());
    // A stop command surfaces on the publish state.
    path.apply_command(EngineCommand::Stop);
    assert!(path.publisher.stop_requested);
    let leftovers = path.flush();
    assert!(leftovers.is_empty());
}

#[test]
fn governor_fallback_decisions() {
    assert_eq!(governor_fallback_step(RecvOutcome::Frame), GovernorStep::EncodeFrame);
    assert_eq!(governor_fallback_step(RecvOutcome::TimedOut), GovernorStep::Retry);
    assert_eq!(governor_fallback_step(RecvOutcome::Disconnected), GovernorStep::StopSession);
    assert!(stats_due(1000));
    assert!(!stats_due(999));
}

#[test]
fn stopped_notification_fires_exactly_once() {
    let mut n = StopNotifier::new();
    assert!(n.should_fire());
    assert!(!n.should_fire());
    assert!(!n.should_fire());
}

#[test]
fn session_lifecycle_follows_signal_events() {
    let mut s = WebRtcSession::new();
    assert_eq!(s.phase, SessionPhase::Idle);
    s.on_signaling_open();
    assert_eq!(s.phase, SessionPhase::Signalling);
    let a = s.handle_signal_event(media_engine::session::SignalEvent::Join);
    assert!(matches!(a, SessionAction::SendOfferFlow));
    assert_eq!(s.phase, SessionPhase::Offering);
    assert!(s.has_pending_offer);
    let a = s.handle_signal_event(media_engine::session::SignalEvent::Answer {
        sdp: String::from("v=0"),
    });
    match a {
        SessionAction::AcceptAnswer { sdp } => assert_eq!(sdp, "v=0"),
        _ => panic!("expected the answer to be applied"),
    }
    assert_eq!(s.phase, SessionPhase::Connecting);
    assert!(!s.has_pending_offer);
    // A second answer with no pending offer is ignored.
    let a = s.handle_signal_event(media_engine::session::SignalEvent::Answer {
        sdp: String::from("v=0"),
    });
    assert!(matches!(a, SessionAction::Ignore));
    s.on_ice_update(IceUpdate::Connected);
    assert_eq!(s.phase, SessionPhase::Connected);
    assert!(s.connected);
}

#[test]
fn trickle_candidates_filter_by_target() {
    let mut s = WebRtcSession::new();
    let a = s.handle_signal_event(media_engine::session::SignalEvent::Trickle {
        candidate_init: String::from("{}"),
        target: 0,
    });
    assert!(matches!(a, SessionAction::AddRemoteCandidate { .. }));
    // Subscriber candidates are silently dropped.
    let a = s.handle_signal_event(media_engine::session::SignalEvent::Trickle {
        candidate_init: String::from("{}"),
        target: 1,
    });
    assert!(matches!(a, SessionAction::Ignore));
}

#[test]
fn subscriber_offers_are_always_answered() {
    let mut s = WebRtcSession::new();
    let a = s.handle_signal_event(media_engine::session::SignalEvent::Offer {
        sdp: String::from("v=0 sub"),
    });
    match a {
        SessionAction::AnswerSubscriberOffer { sdp } => assert_eq!(sdp, "v=0 sub"),
        _ => panic!("subscriber offers must be answered"),
    }
}

#[test]
fn frames_before_connected_are_dropped() {
    let mut s = WebRtcSession::new();
    let cmd = TransportCommand::VideoFrame { data: vec![1, 2], timestamp_90khz: 0, keyframe: true };
    let a = s.handle_command(cmd);
    assert!(matches!(a, TransportAction::Ignore));
    assert_eq!(s.frames_dropped, 1);
    assert_eq!(s.frames_sent, 0);
    s.on_ice_update(IceUpdate::Connected);
    let cmd = TransportCommand::VideoFrame { data: vec![1, 2], timestamp_90khz: 3000, keyframe: false };
    match s.handle_command(cmd) {
        TransportAction::WriteVideo { data, timestamp_90khz } => {
            assert_eq!(data, vec![1, 2]);
            assert_eq!(timestamp_90khz, 3000);
        },
        _ => panic!("connected sessions write video"),
    }
    assert_eq!(s.frames_sent, 1);
}

#[test]
fn ice_disconnect_stops_the_session() {
    let mut s = WebRtcSession::new();
    s.on_ice_update(IceUpdate::Connected);
    s.on_ice_update(IceUpdate::Disconnected);
    assert_eq!(s.phase, SessionPhase::Disconnected);
    assert!(!s.connected);
    assert!(s.stop_requested);
}

#[test]
fn keyframe_requests_forward_once() {
    let mut s = WebRtcSession::new();
    s.on_keyframe_request();
    s.on_keyframe_request();
    assert!(s.take_keyframe_request());
    assert!(!s.take_keyframe_request());
}

#[test]
fn loop_bounds_and_waits() {
    assert!(command_batch_has_room(4));
    assert!(!command_batch_has_room(5));
    assert!(poll_budget_left(999));
    assert!(!poll_budget_left(1000));
    assert_eq!(bounded_wait_ms(3), 3);
    assert_eq!(bounded_wait_ms(5), 5);
    assert_eq!(bounded_wait_ms(500), 5);
    assert!(join_timed_out(5000));
    assert!(!join_timed_out(4999));
}

#[test]
fn h264_payload_selection() {
    let params = vec![
        PayloadParam { codec: CodecKind::Opus, pt: 111 },
        PayloadParam { codec: CodecKind::H264, pt: 102 },
        PayloadParam { codec: CodecKind::H264, pt: 104 },
    ];
    assert_eq!(select_h264_payload(&params), Some(102));
    let params = vec![PayloadParam { codec: CodecKind::Opus, pt: 111 }];
    assert_eq!(select_h264_payload(&params), None);
    assert_eq!(select_h264_payload(&Vec::new()), None);
}
