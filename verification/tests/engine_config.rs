//! Configuration parsing, the engine facade and the single-session slot.

use media_engine::audio::{next_audio_timestamp, AudioCaptureConfig, AudioMode, AudioStopHandle};
use media_engine::capture::CaptureTarget;
use media_engine::engine::{
    audio_config_of, capture_config_of, encoder_config_of, first_frame_timeout_error,
    parse_audio_mode, parse_config, parse_target, parse_u32_decimal, transport_config_of,
    ConfigError, EngineSlot, FacadeError, MediaEngine, ScreenShareConfig,
};
use media_engine::error::EngineError;
use media_engine::publisher::EngineCommand;
use media_engine::sources::{
    parse_source_index, screen_source_id, screen_source_name, select_resolution, window_source_id,
    ResolutionClass,
};

#[test]
fn decimal_parsing_is_exact() {
    assert_eq!(parse_u32_decimal("0"), Some(0));
    assert_eq!(parse_u32_decimal("1234"), Some(1234));
    assert_eq!(parse_u32_decimal("4294967295"), Some(u32::MAX));
    assert_eq!(parse_u32_decimal("4294967296"), None);
    assert_eq!(parse_u32_decimal(""), None);
    assert_eq!(parse_u32_decimal("12a"), None);
    assert_eq!(parse_u32_decimal("-5"), None);
    assert_eq!(parse_u32_decimal("007"), Some(7));
}

#[test]
fn target_parsing() {
    assert!(matches!(parse_target("primary", None), Ok(CaptureTarget::PrimaryDisplay)));
    assert!(matches!(parse_target("display", Some(2)), Ok(CaptureTarget::Display(2))));
    assert!(matches!(parse_target("window", Some(77)), Ok(CaptureTarget::Window(77))));
    let e = parse_target("display", None).unwrap_err();
    assert_eq!(e.message(), "target_id required for display target");
    let e = parse_target("window", None).unwrap_err();
    assert_eq!(e.message(), "target_id required for window target");
    let e = parse_target("desktop", Some(1)).unwrap_err();
    assert_eq!(e.message(), "Unknown target_type: desktop");
}

#[test]
fn audio_mode_parsing() {
    assert!(matches!(parse_audio_mode(&None), Ok(AudioMode::System)));
    assert!(matches!(parse_audio_mode(&Some(String::from("system"))), Ok(AudioMode::System)));
    assert!(matches!(parse_audio_mode(&Some(String::from("4242"))), Ok(AudioMode::Process(4242))));
    let e = parse_audio_mode(&Some(String::from("chrome.exe"))).unwrap_err();
    assert_eq!(e.message(), "Invalid audio_mode PID: chrome.exe");
    assert!(matches!(
        parse_audio_mode(&Some(String::from("chrome.exe"))),
        Err(ConfigError::InvalidAudioPid(_))
    ));
}

#[test]
fn full_config_parsing() {
    let c = parse_config(
        String::from("ws://localhost:7880"),
        String::from("tok"),
        "display",
        Some(1),
        60,
        8_000_000,
        true,
        true,
        Some(String::from("system")),
    )
    .expect("valid config");
    assert_eq!(c.server_url, "ws://localhost:7880");
    assert_eq!(c.token, "tok");
    assert!(matches!(c.target, CaptureTarget::Display(1)));
    assert_eq!(c.fps, 60);
    assert_eq!(c.bitrate, 8_000_000);
    assert!(c.show_cursor);
    assert!(c.capture_audio);
    assert!(matches!(c.audio_mode, AudioMode::System));
    // The target error wins over a bad audio mode.
    let e = parse_config(
        String::from("u"),
        String::from("t"),
        "nothing",
        None,
        30,
        1,
        false,
        false,
        Some(String::from("bad")),
    )
    .unwrap_err();
    assert_eq!(e.message(), "Unknown target_type: nothing");
}

fn sample_config() -> ScreenShareConfig {
    ScreenShareConfig {
        server_url: String::from("ws://localhost:7880"),
        token: String::from("tok"),
        target: CaptureTarget::PrimaryDisplay,
        fps: 30,
        bitrate: 2_000_000,
        show_cursor: true,
        capture_audio: false,
        audio_mode: AudioMode::System,
    }
}

#[test]
fn session_configs_derive_from_screen_share_config() {
    let c = sample_config();
    let cap = capture_config_of(&c);
    assert!(matches!(cap.target, CaptureTarget::PrimaryDisplay));
    assert!(cap.show_cursor);
    assert!(!cap.show_border);
    let audio = audio_config_of(&c);
    assert_eq!(audio.sample_rate, 48000);
    assert_eq!(audio.channels, 2);
    let enc = encoder_config_of(&c, 1920, 1080);
    assert_eq!((enc.width, enc.height, enc.fps, enc.bitrate), (1920, 1080, 30, 2_000_000));
    assert!(enc.prefer_hardware);
    let t = transport_config_of(&c, 1920, 1080);
    assert_eq!(t.server_url, "ws://localhost:7880");
    assert_eq!(t.token, "tok");
    assert_eq!((t.width, t.height, t.fps), (1920, 1080, 30));
}

#[test]
fn engine_stop_is_idempotent_and_running_reflects_it() {
    let mut e = MediaEngine::new();
    assert!(e.is_running());
    let cmd = e.stop();
    assert!(matches!(cmd, EngineCommand::Stop));
    assert!(!e.is_running());
    let cmd = e.stop();
    assert!(matches!(cmd, EngineCommand::Stop));
    assert!(!e.is_running());
}

#[test]
fn slot_allows_one_session_at_a_time() {
    let mut slot = EngineSlot::new();
    assert!(!slot.is_screen_share_running());
    assert!(slot.start_screen_share().is_ok());
    assert!(slot.is_screen_share_running());
    let e = slot.start_screen_share().unwrap_err();
    assert_eq!(e.message(), "Screen share already running");
    // Stopping twice is the same as stopping once.
    assert!(matches!(slot.stop_screen_share(), Ok(EngineCommand::Stop)));
    assert!(!slot.is_screen_share_running());
    assert!(matches!(slot.stop_screen_share(), Ok(EngineCommand::Stop)));
    assert!(!slot.is_screen_share_running());
    // A stopped slot can host a new session.
    assert!(slot.start_screen_share().is_ok());
    assert!(slot.is_screen_share_running());
}

#[test]
fn slot_rejects_control_without_session() {
    let mut slot = EngineSlot::new();
    let e = slot.stop_screen_share().unwrap_err();
    assert_eq!(e.message(), "No screen share running");
    let e = slot.force_keyframe().unwrap_err();
    assert!(matches!(e, FacadeError::NotRunning));
    assert!(slot.start_screen_share().is_ok());
    assert!(matches!(slot.force_keyframe(), Ok(EngineCommand::ForceKeyframe)));
    let _ = slot.stop_screen_share();
    let e = slot.force_keyframe().unwrap_err();
    assert!(matches!(e, FacadeError::Engine(EngineError::Encode(_))));
    assert_eq!(e.message(), "Encode error: Engine thread stopped");
}

#[test]
fn engine_error_messages() {
    assert_eq!(EngineError::GpuDeviceCreation.message(), "Failed to create GPU device");
    assert_eq!(EngineError::TextureCreation.message(), "Failed to create texture");
    assert_eq!(EngineError::Platform(-2005270523).message(), "Platform error: -2005270523");
    assert_eq!(EngineError::Capture(String::from("x")).message(), "Capture error: x");
    assert_eq!(EngineError::Encode(String::from("y")).message(), "Encode error: y");
    assert_eq!(EngineError::Transport(String::from("z")).message(), "Transport error: z");
    let e = first_frame_timeout_error();
    assert_eq!(e.message(), "Capture error: No frame received within 5s");
}

#[test]
fn audio_defaults_and_timestamps() {
    let c = AudioCaptureConfig::default();
    assert!(matches!(c.mode, AudioMode::System));
    assert_eq!((c.sample_rate, c.channels), (48000, 2));
    let mut h = AudioStopHandle::new();
    h.stop();
    h.stop();
    assert!(h.is_stopped());
    assert_eq!(next_audio_timestamp(0, 480), 480);
    assert_eq!(next_audio_timestamp(u32::MAX, 1), 0);
}

#[test]
fn capture_source_ids_and_resolutions() {
    assert_eq!(screen_source_id(0), "screen:0");
    assert_eq!(window_source_id(12), "window:12");
    assert_eq!(screen_source_name(0), "Screen 1");
    assert_eq!(parse_source_index("screen:3"), Some(3));
    assert_eq!(parse_source_index("window:0"), Some(0));
    assert_eq!(parse_source_index("screen"), None);
    assert_eq!(parse_source_index("screen:"), None);
    assert_eq!(parse_source_index("screen:x"), None);
    // Only the segment between the first and second ':' counts.
    assert_eq!(parse_source_index("screen:3:9"), Some(3));
    assert_eq!(select_resolution(1920, 1080), ResolutionClass::R1080p);
    assert_eq!(select_resolution(2560, 1440), ResolutionClass::R1440p);
    assert_eq!(select_resolution(3840, 2160), ResolutionClass::R2160p);
    assert_eq!(select_resolution(1280, 1440), ResolutionClass::R1440p);
}
