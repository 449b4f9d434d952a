//! Audio capture data model: capture mode, configuration, the stop handle,
//! and the forwarder's timestamp arithmetic. The loopback backend produces
//! interleaved float PCM packets; the forwarder advances a 48 kHz RTP-style
//! timestamp by the frame count of each packet, wrapping at 32 bits.

use vstd::prelude::*;

verus! {

/// Audio mode: system loopback or a specific process.
#[derive(Clone, Copy, Debug)]
pub enum AudioMode {
    /// Capture all system audio output (loopback).
    System,
    /// Capture audio from a specific process.
    Process(u32),
}

/// Configuration for audio capture.
#[derive(Clone, Copy, Debug)]
pub struct AudioCaptureConfig {
    pub mode: AudioMode,
    pub sample_rate: u32,
    pub channels: u16,
}

impl Default for AudioCaptureConfig {
    /// System loopback at 48 kHz stereo.
    fn default() -> (c: Self)
        ensures
            c.mode is System,
            c.sample_rate == 48000,
            c.channels == 2,
    {
        AudioCaptureConfig { mode: AudioMode::System, sample_rate: 48000, channels: 2 }
    }
}

/// Handle to stop audio capture; the capture thread polls the flag.
pub struct AudioStopHandle {
    pub stop_flag: bool,
}

impl AudioStopHandle {
    /// A fresh handle for a capture that has not been asked to stop.
    pub fn new() -> (h: AudioStopHandle)
        ensures
            !h.stop_flag,
    {
        AudioStopHandle { stop_flag: false }
    }

    /// Request the audio capture to stop. Idempotent.
    pub fn stop(&mut self)
        ensures
            final(self).stop_flag,
    {
        self.stop_flag = true;
    }

    /// Whether a stop has been requested.
    pub fn is_stopped(&self) -> (r: bool)
        ensures
            r == self.stop_flag,
    {
        self.stop_flag
    }
}

/// Capacity of the audio packet channel. On a full channel the producer
/// drops the packet.
pub const AUDIO_CHANNEL_CAPACITY: usize = 32;

/// Bytes per interleaved frame of 32-bit float samples.
pub fn audio_bytes_per_frame(channels: u16) -> (r: usize)
    ensures
        r == 4 * channels,
{
    4 * (channels as usize)
}

/// The forwarder's timestamp for the packet after one holding `frames`
/// frames: advanced by the frame count, wrapped to 32 bits.
pub fn next_audio_timestamp(ts: u32, frames: u32) -> (r: u32)
    ensures
        r == (ts + frames) % 0x1_0000_0000,
{
    (((ts as u64) + (frames as u64)) % 0x1_0000_0000u64) as u32
}

} // verus!
