//! The engine facade: session configuration and its parsing, the
//! single-session slot, and the control surface the host drives
//! (start, stop, force-keyframe, is-running).

use vstd::prelude::*;

use crate::audio::{AudioCaptureConfig, AudioMode};
use crate::capture::{CaptureConfig, CaptureTarget};
use crate::encoder::EncoderConfig;
use crate::error::EngineError;
use crate::publisher::EngineCommand;
use crate::session::TransportConfig;
use crate::text::str_eq;

verus! {

/// Configuration for starting a screen share.
#[derive(Clone, Debug)]
pub struct ScreenShareConfig {
    /// Base URL of the signaling endpoint.
    pub server_url: String,
    /// Access token for the signaling endpoint.
    pub token: String,
    /// Capture target (display or window).
    pub target: CaptureTarget,
    /// Target frames per second.
    pub fps: u32,
    /// Target bitrate in bits per second.
    pub bitrate: u32,
    /// Whether to show the cursor in the capture.
    pub show_cursor: bool,
    /// Whether to capture system audio.
    pub capture_audio: bool,
    /// Audio mode (system loopback or process-specific).
    pub audio_mode: AudioMode,
}

/// Errors of host-supplied configuration.
#[derive(Debug)]
pub enum ConfigError {
    /// `target_type` was `"display"` without a `target_id`.
    MissingDisplayTargetId,
    /// `target_type` was `"window"` without a `target_id`.
    MissingWindowTargetId,
    /// An unrecognized `target_type`, carried along.
    UnknownTargetType(String),
    /// An `audio_mode` that is neither `"system"` nor a decimal process id,
    /// carried along.
    InvalidAudioPid(String),
}

impl ConfigError {
    /// The message text for this error.
    pub open spec fn message_spec(&self) -> Seq<char> {
        match self {
            ConfigError::MissingDisplayTargetId => "target_id required for display target"@,
            ConfigError::MissingWindowTargetId => "target_id required for window target"@,
            ConfigError::UnknownTargetType(t) => "Unknown target_type: "@ + t@,
            ConfigError::InvalidAudioPid(p) => "Invalid audio_mode PID: "@ + p@,
        }
    }

    /// Human-readable description of the error.
    pub fn message(&self) -> (m: String)
        ensures
            m@ == self.message_spec(),
    {
        match self {
            ConfigError::MissingDisplayTargetId => String::from_str(
                "target_id required for display target",
            ),
            ConfigError::MissingWindowTargetId => String::from_str(
                "target_id required for window target",
            ),
            ConfigError::UnknownTargetType(t) => {
                let head = String::from_str("Unknown target_type: ");
                head.concat(t.as_str())
            },
            ConfigError::InvalidAudioPid(p) => {
                let head = String::from_str("Invalid audio_mode PID: ");
                head.concat(p.as_str())
            },
        }
    }
}

/// Whether `c` is a decimal digit.
pub open spec fn is_dec_digit(c: char) -> bool {
    48 <= c as u32 <= 57
}

/// The value of a decimal digit character.
pub open spec fn dec_digit_val(c: char) -> int {
    c as u32 - 48
}

/// Whether every character of `s` is a decimal digit.
pub open spec fn all_dec_digits(s: Seq<char>) -> bool {
    forall|i: int| 0 <= i < s.len() ==> is_dec_digit(#[trigger] s[i])
}

/// The number denoted by a digit string, most significant digit first.
pub open spec fn dec_value(s: Seq<char>) -> int
    decreases s.len(),
{
    if s.len() == 0 {
        0
    } else {
        dec_value(s.drop_last()) * 10 + dec_digit_val(s.last())
    }
}

proof fn lemma_dec_value_nonneg(s: Seq<char>)
    requires
        all_dec_digits(s),
    ensures
        dec_value(s) >= 0,
    decreases s.len(),
{
    if s.len() > 0 {
        assert(all_dec_digits(s.drop_last()));
        lemma_dec_value_nonneg(s.drop_last());
    }
}

/// The value of a digit string is at least the value of any of its
/// prefixes: once a prefix exceeds a bound, the whole string does.
proof fn lemma_dec_value_prefix_le(s: Seq<char>, i: int)
    requires
        all_dec_digits(s),
        0 <= i <= s.len(),
    ensures
        dec_value(s.subrange(0, i)) <= dec_value(s),
    decreases s.len() - i,
{
    if i == s.len() {
        assert(s.subrange(0, i) =~= s);
    } else {
        assert(s.subrange(0, i + 1).drop_last() =~= s.subrange(0, i));
        assert(s.subrange(0, i + 1).last() == s[i]);
        assert(all_dec_digits(s.subrange(0, i)));
        lemma_dec_value_nonneg(s.subrange(0, i));
        lemma_dec_value_prefix_le(s, i + 1);
    }
}

/// Parse a decimal number: succeeds exactly on nonempty all-digit strings
/// whose value fits in 32 bits, and then yields that value.
pub fn parse_u32_decimal(s: &str) -> (r: Option<u32>)
    ensures
        r is Some <==> (s@.len() > 0 && all_dec_digits(s@) && dec_value(s@) <= u32::MAX),
        r matches Some(v) ==> v == dec_value(s@),
{
    let n: usize = s.unicode_len();
    if n == 0 {
        return None;
    }
    let mut acc: u64 = 0;
    let mut i: usize = 0;
    proof {
        assert(s@.subrange(0, 0) =~= Seq::<char>::empty());
    }
    while i < n
        invariant
            0 < n == s@.len(),
            i <= n,
            all_dec_digits(s@.subrange(0, i as int)),
            acc == dec_value(s@.subrange(0, i as int)),
            acc <= u32::MAX,
        decreases n - i,
    {
        let c: char = s.get_char(i);
        let cu: u32 = c as u32;
        if cu < 48 || cu > 57 {
            proof {
                assert(!is_dec_digit(s@[i as int]));
            }
            return None;
        }
        let d: u64 = (cu - 48) as u64;
        let acc2: u64 = acc * 10 + d;
        proof {
            assert(s@.subrange(0, i as int + 1).drop_last() =~= s@.subrange(0, i as int));
            assert(s@.subrange(0, i as int + 1).last() == s@[i as int]);
            assert(all_dec_digits(s@.subrange(0, i as int + 1)));
            assert(acc2 == dec_value(s@.subrange(0, i as int + 1)));
        }
        if acc2 > 0xFFFF_FFFFu64 {
            proof {
                if all_dec_digits(s@) {
                    lemma_dec_value_prefix_le(s@, i as int + 1);
                }
            }
            return None;
        }
        acc = acc2;
        i += 1;
    }
    proof {
        assert(s@.subrange(0, n as int) =~= s@);
    }
    Some(acc as u32)
}

/// Whether a target description parses.
pub open spec fn target_parses(tt: Seq<char>, id: Option<i64>) -> bool {
    ||| tt == "primary"@
    ||| (tt == "display"@ && id is Some)
    ||| (tt == "window"@ && id is Some)
}

/// The capture target a well-formed description denotes.
pub open spec fn target_of(tt: Seq<char>, id: Option<i64>) -> CaptureTarget {
    if tt == "primary"@ {
        CaptureTarget::PrimaryDisplay
    } else if tt == "display"@ {
        CaptureTarget::Display(id->0 as usize)
    } else {
        CaptureTarget::Window(id->0 as isize)
    }
}

/// Parse the capture target: `"primary"`, `"display"` with an index, or
/// `"window"` with a handle; anything else is rejected with the offending
/// type carried in the error.
pub fn parse_target(target_type: &str, target_id: Option<i64>) -> (r: Result<
    CaptureTarget,
    ConfigError,
>)
    ensures
        r is Ok <==> target_parses(target_type@, target_id),
        r matches Ok(t) ==> t == target_of(target_type@, target_id),
        target_type@ == "display"@ && target_id is None ==> (r matches Err(e) && e
            is MissingDisplayTargetId),
        target_type@ == "window"@ && target_id is None ==> (r matches Err(e) && e
            is MissingWindowTargetId),
        target_type@ != "primary"@ && target_type@ != "display"@ && target_type@ != "window"@
            ==> (r matches Err(ConfigError::UnknownTargetType(t)) && t@ == target_type@),
{
    proof {
        reveal_strlit("primary");
        reveal_strlit("display");
        reveal_strlit("window");
        assert("primary"@ != "display"@) by {
            assert("primary"@[0] == 'p' && "display"@[0] == 'd');
        }
        assert("primary"@ != "window"@ && "display"@ != "window"@) by {
            assert("primary"@.len() == 7 && "display"@.len() == 7 && "window"@.len() == 6);
        }
    }
    if str_eq(target_type, "primary") {
        Ok(CaptureTarget::PrimaryDisplay)
    } else if str_eq(target_type, "display") {
        match target_id {
            Some(id) => Ok(CaptureTarget::Display(id as usize)),
            None => Err(ConfigError::MissingDisplayTargetId),
        }
    } else if str_eq(target_type, "window") {
        match target_id {
            Some(id) => Ok(CaptureTarget::Window(id as isize)),
            None => Err(ConfigError::MissingWindowTargetId),
        }
    } else {
        Err(ConfigError::UnknownTargetType(String::from_str(target_type)))
    }
}

/// Whether an audio mode string denotes the system loopback.
pub open spec fn is_system_audio(audio_mode: Option<String>) -> bool {
    match audio_mode {
        None => true,
        Some(s) => s@ == "system"@,
    }
}

/// Whether a non-system audio mode string is a usable process id.
pub open spec fn is_valid_pid(s: Seq<char>) -> bool {
    s.len() > 0 && all_dec_digits(s) && dec_value(s) <= u32::MAX
}

/// Whether an audio mode description parses.
pub open spec fn audio_parses(audio_mode: Option<String>) -> bool {
    is_system_audio(audio_mode) || is_valid_pid(audio_mode->0@)
}

/// The audio mode a well-formed description denotes.
pub open spec fn audio_mode_of(audio_mode: Option<String>) -> AudioMode {
    if is_system_audio(audio_mode) {
        AudioMode::System
    } else {
        AudioMode::Process(dec_value(audio_mode->0@) as u32)
    }
}

/// Parse the audio mode: absent or `"system"` is the system loopback, a
/// decimal string is a process id, anything else is rejected with the
/// offending string carried in the error.
pub fn parse_audio_mode(audio_mode: &Option<String>) -> (r: Result<AudioMode, ConfigError>)
    ensures
        r is Ok <==> audio_parses(*audio_mode),
        r matches Ok(m) ==> m == audio_mode_of(*audio_mode),
        !audio_parses(*audio_mode) ==> (r matches Err(ConfigError::InvalidAudioPid(p)) && p@ == (
        audio_mode->0)@),
{
    match audio_mode {
        None => Ok(AudioMode::System),
        Some(s) => {
            if str_eq(s.as_str(), "system") {
                Ok(AudioMode::System)
            } else {
                match parse_u32_decimal(s.as_str()) {
                    Some(pid) => Ok(AudioMode::Process(pid)),
                    None => Err(ConfigError::InvalidAudioPid(s.clone())),
                }
            }
        },
    }
}

/// Parse a host-supplied configuration into a session configuration. The
/// target is parsed first, then the audio mode; the first failure is
/// reported. All other fields pass through unchanged.
pub fn parse_config(
    server_url: String,
    token: String,
    target_type: &str,
    target_id: Option<i64>,
    fps: u32,
    bitrate: u32,
    show_cursor: bool,
    capture_audio: bool,
    audio_mode: Option<String>,
) -> (r: Result<ScreenShareConfig, ConfigError>)
    ensures
        r is Ok <==> (target_parses(target_type@, target_id) && audio_parses(audio_mode)),
        r matches Ok(c) ==> c == (ScreenShareConfig {
            server_url,
            token,
            target: target_of(target_type@, target_id),
            fps,
            bitrate,
            show_cursor,
            capture_audio,
            audio_mode: audio_mode_of(audio_mode),
        }),
        target_type@ == "display"@ && target_id is None ==> (r matches Err(e) && e
            is MissingDisplayTargetId),
        target_type@ == "window"@ && target_id is None ==> (r matches Err(e) && e
            is MissingWindowTargetId),
        target_type@ != "primary"@ && target_type@ != "display"@ && target_type@ != "window"@
            ==> (r matches Err(ConfigError::UnknownTargetType(t)) && t@ == target_type@),
        target_parses(target_type@, target_id) && !audio_parses(audio_mode) ==> (r matches Err(
            ConfigError::InvalidAudioPid(p),
        ) && p@ == (audio_mode->0)@),
{
    let target = match parse_target(target_type, target_id) {
        Ok(t) => t,
        Err(e) => {
            return Err(e);
        },
    };
    let mode = match parse_audio_mode(&audio_mode) {
        Ok(m) => m,
        Err(e) => {
            return Err(e);
        },
    };
    Ok(
        ScreenShareConfig {
            server_url,
            token,
            target,
            fps,
            bitrate,
            show_cursor,
            capture_audio,
            audio_mode: mode,
        },
    )
}

/// The capture configuration of a session: its target and cursor choice,
/// never the yellow capture border.
pub fn capture_config_of(config: &ScreenShareConfig) -> (r: CaptureConfig)
    ensures
        r.target == config.target,
        r.show_cursor == config.show_cursor,
        !r.show_border,
{
    CaptureConfig { target: config.target, show_cursor: config.show_cursor, show_border: false }
}

/// The audio capture configuration of a session: its mode at 48 kHz stereo.
pub fn audio_config_of(config: &ScreenShareConfig) -> (r: AudioCaptureConfig)
    ensures
        r.mode == config.audio_mode,
        r.sample_rate == 48000,
        r.channels == 2,
{
    AudioCaptureConfig { mode: config.audio_mode, sample_rate: 48000, channels: 2 }
}

/// The encoder configuration of a session: the even NV12 target dimensions,
/// the session rate and bitrate, hardware preferred.
pub fn encoder_config_of(config: &ScreenShareConfig, width: u32, height: u32) -> (r: EncoderConfig)
    ensures
        r == (EncoderConfig {
            width,
            height,
            fps: config.fps,
            bitrate: config.bitrate,
            prefer_hardware: true,
        }),
{
    EncoderConfig {
        width,
        height,
        fps: config.fps,
        bitrate: config.bitrate,
        prefer_hardware: true,
    }
}

/// The transport configuration of a session: endpoint, token and the
/// negotiated even dimensions.
pub fn transport_config_of(config: &ScreenShareConfig, width: u32, height: u32) -> (r:
    TransportConfig)
    ensures
        r.server_url@ == config.server_url@,
        r.token@ == config.token@,
        r.width == width,
        r.height == height,
        r.fps == config.fps,
{
    TransportConfig {
        server_url: config.server_url.clone(),
        token: config.token.clone(),
        width,
        height,
        fps: config.fps,
    }
}

/// Milliseconds to wait for the first captured frame before the session
/// fails to start.
pub const FIRST_FRAME_TIMEOUT_MS: u64 = 5000;

/// The startup error when no frame arrives in time.
pub fn first_frame_timeout_error() -> (e: EngineError)
    ensures
        e matches EngineError::Capture(m) && m@ == "No frame received within 5s"@,
{
    EngineError::Capture(String::from_str("No frame received within 5s"))
}

/// Errors of the host-facing control surface.
#[derive(Debug)]
pub enum FacadeError {
    /// A session is already running.
    AlreadyRunning,
    /// No session is running.
    NotRunning,
    /// The running session's engine refused the request.
    Engine(EngineError),
}

impl FacadeError {
    /// The message text for this error.
    pub open spec fn message_spec(&self) -> Seq<char> {
        match self {
            FacadeError::AlreadyRunning => "Screen share already running"@,
            FacadeError::NotRunning => "No screen share running"@,
            FacadeError::Engine(e) => e.message_spec(),
        }
    }

    /// Human-readable description of the error.
    pub fn message(&self) -> (m: String)
        ensures
            m@ == self.message_spec(),
    {
        match self {
            FacadeError::AlreadyRunning => String::from_str("Screen share already running"),
            FacadeError::NotRunning => String::from_str("No screen share running"),
            FacadeError::Engine(e) => e.message(),
        }
    }
}

/// The per-session engine handle: the session-wide stop flag. Commands to
/// the workers are values returned by the methods below; the host's shim
/// forwards them on the session's command channel.
pub struct MediaEngine {
    /// Orderly shutdown has been requested.
    pub stop_requested: bool,
}

/// Stopping an engine: the stop flag is set, whatever came before.
pub open spec fn engine_stop_spec(e: MediaEngine) -> MediaEngine {
    MediaEngine { stop_requested: true }
}

impl MediaEngine {
    /// The handle of a freshly started session.
    pub fn new() -> (e: MediaEngine)
        ensures
            !e.stop_requested,
    {
        MediaEngine { stop_requested: false }
    }

    /// Request a keyframe. Fails once the session is stopping, because the
    /// worker that would serve it is gone.
    pub fn force_keyframe(&self) -> (r: Result<EngineCommand, EngineError>)
        ensures
            !self.stop_requested ==> (r matches Ok(c) && c is ForceKeyframe),
            self.stop_requested ==> (r matches Err(EngineError::Encode(m)) && m@
                == "Engine thread stopped"@),
    {
        if self.stop_requested {
            Err(EngineError::Encode(String::from_str("Engine thread stopped")))
        } else {
            Ok(EngineCommand::ForceKeyframe)
        }
    }

    /// Stop the session: set the stop flag and hand back the stop command
    /// for the workers. Idempotent in its observable effect.
    pub fn stop(&mut self) -> (cmd: EngineCommand)
        ensures
            *final(self) == engine_stop_spec(*old(self)),
            cmd is Stop,
    {
        self.stop_requested = true;
        EngineCommand::Stop
    }

    /// Whether the session is still running.
    pub fn is_running(&self) -> (r: bool)
        ensures
            r == !self.stop_requested,
    {
        !self.stop_requested
    }
}

/// Stopping twice is the same as stopping once, and the engine reports not
/// running after either.
pub proof fn lemma_stop_idempotent(e: MediaEngine)
    ensures
        engine_stop_spec(engine_stop_spec(e)) == engine_stop_spec(e),
        engine_stop_spec(e).stop_requested,
{
}

/// The process-wide screen-share slot: at most one session exists, and
/// starting a second one while the first runs is rejected.
pub struct EngineSlot {
    pub engine: Option<MediaEngine>,
}

impl EngineSlot {
    /// An empty slot.
    pub fn new() -> (s: EngineSlot)
        ensures
            s.engine is None,
    {
        EngineSlot { engine: None }
    }

    /// Whether a session currently runs.
    pub open spec fn running_spec(&self) -> bool {
        match self.engine {
            Some(e) => !e.stop_requested,
            None => false,
        }
    }

    /// Claim the slot for a new session: rejected while one is running;
    /// otherwise the slot holds the fresh session handle. The capture,
    /// encode and transport workers of the session start around this claim.
    pub fn start_screen_share(&mut self) -> (r: Result<(), FacadeError>)
        ensures
            old(self).running_spec() ==> (r matches Err(e) && e is AlreadyRunning && *final(self)
                == *old(self)),
            !old(self).running_spec() ==> (r is Ok && (final(self).engine matches Some(e)
                && !e.stop_requested)),
    {
        let running = match &self.engine {
            Some(e) => e.is_running(),
            None => false,
        };
        if running {
            Err(FacadeError::AlreadyRunning)
        } else {
            self.engine = Some(MediaEngine::new());
            Ok(())
        }
    }

    /// Stop the running session, if any. A second stop still succeeds and
    /// leaves the session stopped: stopping twice equals stopping once.
    pub fn stop_screen_share(&mut self) -> (r: Result<EngineCommand, FacadeError>)
        ensures
            old(self).engine is None ==> (r matches Err(e) && e is NotRunning && *final(self)
                == *old(self)),
            old(self).engine matches Some(e) ==> (r matches Ok(c) && c is Stop
                && final(self).engine == Some(engine_stop_spec(e))),
            !final(self).running_spec(),
    {
        match &mut self.engine {
            Some(e) => Ok(e.stop()),
            None => Err(FacadeError::NotRunning),
        }
    }

    /// Request a keyframe from the running session, if any. A session
    /// whose engine is already stopping passes the engine's refusal along.
    pub fn force_keyframe(&self) -> (r: Result<EngineCommand, FacadeError>)
        ensures
            self.engine is None ==> (r matches Err(e) && e is NotRunning),
            self.engine matches Some(e) && !e.stop_requested ==> (r matches Ok(c) && c
                is ForceKeyframe),
            self.engine matches Some(e) && e.stop_requested ==> (r matches Err(
                FacadeError::Engine(EngineError::Encode(m)),
            ) && m@ == "Engine thread stopped"@),
    {
        match &self.engine {
            Some(e) => {
                match e.force_keyframe() {
                    Ok(c) => Ok(c),
                    Err(err) => Err(FacadeError::Engine(err)),
                }
            },
            None => Err(FacadeError::NotRunning),
        }
    }

    /// Whether a screen share is running.
    pub fn is_screen_share_running(&self) -> (r: bool)
        ensures
            r == self.running_spec(),
    {
        match &self.engine {
            Some(e) => e.is_running(),
            None => false,
        }
    }
}

} // verus!
