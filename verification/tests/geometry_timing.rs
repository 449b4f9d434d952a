//! Frame geometry, plane copies and timestamp arithmetic.

use media_engine::geometry::{copy_bgra_rect, nv12_target_dims, readback_nv12, round_up_even};
use media_engine::timing::{frame_duration_100ns, pts_100ns, rtp_timestamp};
use media_engine::version;

#[test]
fn test_version() {
    assert_eq!(version(), "0.1.0");
}

#[test]
fn round_up_even_values() {
    assert_eq!(round_up_even(1919), 1920);
    assert_eq!(round_up_even(1920), 1920);
    assert_eq!(round_up_even(1079), 1080);
    assert_eq!(round_up_even(0), 0);
    assert_eq!(round_up_even(1), 2);
}

#[test]
fn odd_capture_dimensions_round_to_even_target() {
    let (w, h) = nv12_target_dims(1919, 1079);
    assert_eq!((w, h), (1920, 1080));
    let (w, h) = nv12_target_dims(1920, 1080);
    assert_eq!((w, h), (1920, 1080));
    assert_eq!(w % 2, 0);
    assert_eq!(h % 2, 0);
}

#[test]
fn bgra_upload_copies_only_source_rectangle() {
    // 2x2 frame, 8 pixel bytes per row, row pitch 12: 4 bytes padding per row.
    let width = 2u32;
    let height = 2u32;
    let row_pitch = 12u32;
    let mut data = Vec::new();
    for row in 0..height {
        for col in 0..row_pitch {
            if col < 4 * width {
                data.push((row * 100 + col) as u8);
            } else {
                data.push(0xEE); // padding that must not be copied
            }
        }
    }
    let out = copy_bgra_rect(&data, width, height, row_pitch);
    assert_eq!(out.len(), (4 * width * height) as usize);
    assert_eq!(out, vec![0, 1, 2, 3, 4, 5, 6, 7, 100, 101, 102, 103, 104, 105, 106, 107]);
}

#[test]
fn nv12_readback_honors_row_pitch() {
    // 2x2 NV12 surface mapped with row pitch 4: two luma rows, one chroma
    // row at offset height * pitch.
    let width = 2u32;
    let height = 2u32;
    let pitch = 4u32;
    let mapped = vec![
        10, 11, 0xEE, 0xEE, // luma row 0 (+ pitch padding)
        20, 21, 0xEE, 0xEE, // luma row 1
        30, 31, 0xEE, 0xEE, // chroma row 0
    ];
    let out = readback_nv12(&mapped, width, height, pitch);
    assert_eq!(out.len(), (width * height + width * (height / 2)) as usize);
    assert_eq!(out, vec![10, 11, 20, 21, 30, 31]);
}

#[test]
fn frame_durations_and_pts() {
    assert_eq!(frame_duration_100ns(30), 333_333);
    assert_eq!(frame_duration_100ns(60), 166_666);
    assert_eq!(frame_duration_100ns(1), 10_000_000);
    assert_eq!(pts_100ns(0, 30), 0);
    assert_eq!(pts_100ns(10, 30), 3_333_330);
}

#[test]
fn rtp_timestamps_are_index_times_ticks() {
    assert_eq!(rtp_timestamp(0, 30), 0);
    assert_eq!(rtp_timestamp(1, 30), 3000);
    assert_eq!(rtp_timestamp(2, 30), 6000);
    assert_eq!(rtp_timestamp(1, 60), 1500);
}

#[test]
fn rtp_timestamps_wrap_at_32_bits() {
    // With one tick per frame, the wire timestamp is the index mod 2^32.
    assert_eq!(rtp_timestamp(1u64 << 32, 90_000), 0);
    assert_eq!(rtp_timestamp((1u64 << 32) + 7, 90_000), 7);
    // Monotone before the wrap: non-decreasing unwrapped ticks.
    let a = rtp_timestamp(100, 30);
    let b = rtp_timestamp(101, 30);
    assert!(a < b);
}
