//! Media timestamps. Presentation times advance in 100-nanosecond units by
//! one frame duration per encoded frame; the wire carries a 90 kHz RTP clock
//! derived from the same monotone frame index, wrapped to 32 bits.

use vstd::prelude::*;

verus! {

/// 100-nanosecond units per second.
pub const HUNDRED_NS_PER_SECOND: u64 = 10_000_000;

/// The RTP video clock rate in Hz.
pub const RTP_VIDEO_CLOCK_HZ: u64 = 90_000;

/// Highest frame index for which a presentation timestamp is computed.
/// `PTS_INDEX_LIMIT * HUNDRED_NS_PER_SECOND` still fits in 64 bits, so the
/// timestamp arithmetic below cannot overflow (at 1 frame per second this
/// allows tens of thousands of years of session time).
pub const PTS_INDEX_LIMIT: u64 = 1_000_000_000_000;

/// Duration of one frame in 100-ns units at the given rate.
pub open spec fn frame_duration_spec(fps: u32) -> int {
    HUNDRED_NS_PER_SECOND as int / fps as int
}

/// RTP clock ticks per frame at the given rate.
pub open spec fn rtp_ticks_per_frame_spec(fps: u32) -> int {
    RTP_VIDEO_CLOCK_HZ as int / fps as int
}

/// The unwrapped RTP timestamp of a frame: frame index times ticks per frame.
pub open spec fn rtp_ticks_spec(frame_index: int, fps: u32) -> int {
    frame_index * rtp_ticks_per_frame_spec(fps)
}

/// Duration of one frame in 100-ns units.
pub fn frame_duration_100ns(fps: u32) -> (d: u64)
    requires
        fps >= 1,
    ensures
        d == frame_duration_spec(fps),
        d <= HUNDRED_NS_PER_SECOND,
        fps <= HUNDRED_NS_PER_SECOND ==> 1 <= d,
{
    proof {
        vstd::arithmetic::div_mod::lemma_div_nonincreasing(
            HUNDRED_NS_PER_SECOND as int,
            fps as int,
        );
        if fps <= HUNDRED_NS_PER_SECOND {
            vstd::arithmetic::div_mod::lemma_div_non_zero(
                HUNDRED_NS_PER_SECOND as int,
                fps as int,
            );
        }
    }
    HUNDRED_NS_PER_SECOND / (fps as u64)
}

/// Presentation timestamp of a frame in 100-ns units: the frame index times
/// the frame duration.
pub fn pts_100ns(frame_index: u64, fps: u32) -> (t: u64)
    requires
        fps >= 1,
        frame_index < PTS_INDEX_LIMIT,
    ensures
        t == frame_index * frame_duration_spec(fps),
{
    let d: u64 = frame_duration_100ns(fps);
    proof {
        assert(frame_index * (d as int) <= PTS_INDEX_LIMIT * HUNDRED_NS_PER_SECOND
            && 0 <= frame_index * (d as int)) by (nonlinear_arith)
            requires
                0 <= frame_index <= PTS_INDEX_LIMIT && 0 <= d <= HUNDRED_NS_PER_SECOND,
        ;
    }
    frame_index * d
}

/// The 32-bit RTP timestamp put on the wire for a frame: the unwrapped tick
/// count reduced modulo 2^32.
pub fn rtp_timestamp(frame_index: u64, fps: u32) -> (ts: u32)
    requires
        fps >= 1,
    ensures
        ts == rtp_ticks_spec(frame_index as int, fps) % 0x1_0000_0000,
{
    let ticks_per_frame: u64 = RTP_VIDEO_CLOCK_HZ / (fps as u64);
    proof {
        vstd::arithmetic::div_mod::lemma_div_nonincreasing(
            RTP_VIDEO_CLOCK_HZ as int,
            fps as int,
        );
        assert((frame_index as int) * (ticks_per_frame as int) <= u128::MAX && 0 <= (
        frame_index as int) * (ticks_per_frame as int)) by (nonlinear_arith)
            requires
                0 <= frame_index <= u64::MAX && 0 <= ticks_per_frame <= RTP_VIDEO_CLOCK_HZ,
        ;
    }
    let wide: u128 = (frame_index as u128) * (ticks_per_frame as u128);
    (wide % 0x1_0000_0000u128) as u32
}

/// Unwrapped RTP timestamps never decrease as the frame index grows: the
/// wire timestamps are monotonically non-decreasing modulo 2^32.
pub proof fn lemma_rtp_ticks_monotone(i: int, j: int, fps: u32)
    requires
        0 <= i <= j,
        fps >= 1,
    ensures
        rtp_ticks_spec(i, fps) <= rtp_ticks_spec(j, fps),
{
    assert(i * rtp_ticks_per_frame_spec(fps) <= j * rtp_ticks_per_frame_spec(fps))
        by (nonlinear_arith)
        requires
            0 <= i <= j && 0 <= rtp_ticks_per_frame_spec(fps),
    ;
}

/// Presentation timestamps strictly increase with the frame index whenever
/// the frame duration is positive.
pub proof fn lemma_pts_strictly_monotone(i: int, j: int, fps: u32)
    requires
        0 <= i < j,
        1 <= fps <= HUNDRED_NS_PER_SECOND,
    ensures
        i * frame_duration_spec(fps) < j * frame_duration_spec(fps),
{
    vstd::arithmetic::div_mod::lemma_div_non_zero(HUNDRED_NS_PER_SECOND as int, fps as int);
    assert(i * frame_duration_spec(fps) < j * frame_duration_spec(fps)) by (nonlinear_arith)
        requires
            0 <= i < j && 1 <= frame_duration_spec(fps),
    ;
}

} // verus!
