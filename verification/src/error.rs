//! The engine's failure taxonomy. Startup failures (GPU device, textures,
//! encoder activation, signaling) abort a session; per-frame failures are
//! reported and the frame is dropped.

use vstd::prelude::*;

use crate::text::{dec_chars_signed, i64_to_decimal};

verus! {

/// Errors surfaced by the media engine.
#[derive(Debug)]
pub enum EngineError {
    /// No video-capable GPU device could be created (fatal at startup).
    GpuDeviceCreation,
    /// A GPU texture could not be allocated (fatal at startup).
    TextureCreation,
    /// A wrapped native platform error, carried as its raw status code.
    Platform(i64),
    /// Capture failure: fatal at startup, a graceful-stop signal mid-stream.
    Capture(String),
    /// Encode failure: fatal at startup, per-frame non-fatal mid-stream.
    Encode(String),
    /// Transport failure: fatal at startup; mid-stream disconnects instead
    /// trigger an orderly stop.
    Transport(String),
}

impl EngineError {
    /// The message text for this error.
    pub open spec fn message_spec(&self) -> Seq<char> {
        match self {
            EngineError::GpuDeviceCreation => "Failed to create GPU device"@,
            EngineError::TextureCreation => "Failed to create texture"@,
            EngineError::Platform(code) => "Platform error: "@ + dec_chars_signed(*code as int),
            EngineError::Capture(m) => "Capture error: "@ + m@,
            EngineError::Encode(m) => "Encode error: "@ + m@,
            EngineError::Transport(m) => "Transport error: "@ + m@,
        }
    }

    /// Human-readable description of the error.
    pub fn message(&self) -> (m: String)
        ensures
            m@ == self.message_spec(),
    {
        match self {
            EngineError::GpuDeviceCreation => String::from_str("Failed to create GPU device"),
            EngineError::TextureCreation => String::from_str("Failed to create texture"),
            EngineError::Platform(code) => {
                let head = String::from_str("Platform error: ");
                head.concat(i64_to_decimal(*code).as_str())
            },
            EngineError::Capture(m) => {
                let head = String::from_str("Capture error: ");
                head.concat(m.as_str())
            },
            EngineError::Encode(m) => {
                let head = String::from_str("Encode error: ");
                head.concat(m.as_str())
            },
            EngineError::Transport(m) => {
                let head = String::from_str("Transport error: ");
                head.concat(m.as_str())
            },
        }
    }
}

} // verus!
