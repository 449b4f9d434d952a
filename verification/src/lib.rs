//! Real-time screen-share media pipeline: the verified control and data logic
//! behind capture → color conversion → H.264 encode → RTP → WebRTC transport.
//!
//! This crate holds the pipeline's decisions and byte-level transformations,
//! each with a proved contract. Platform backends (desktop capture, GPU video
//! processing, the hardware encoder, sockets) live outside and exchange plain
//! values with this library.

pub mod audio;
pub mod capture;
pub mod encoder;
pub mod engine;
pub mod error;
pub mod geometry;
pub mod pipeline;
pub mod publisher;
pub mod session;
pub mod signal;
pub mod sources;
pub mod text;
pub mod timing;

use vstd::prelude::*;

verus! {

/// Library version string reported to the host application.
pub fn version() -> (v: String)
    ensures
        v@ == "0.1.0"@,
{
    String::from_str("0.1.0")
}

} // verus!
