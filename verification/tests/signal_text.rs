//! Signaling messages, URL construction and text rendering.

use media_engine::error::EngineError;
use media_engine::signal::{
    build_ws_url, form_urlencode, ice_candidate_line, trickle_candidate_json, uuid_simple,
    video_track_cid, OutboundSignal, SignalSender, TRACK_SOURCE_SCREEN_SHARE, TRACK_TYPE_VIDEO,
};
use media_engine::text::{i64_to_decimal, str_eq, u64_to_decimal};

#[test]
fn decimal_rendering() {
    assert_eq!(u64_to_decimal(0), "0");
    assert_eq!(u64_to_decimal(7), "7");
    assert_eq!(u64_to_decimal(90000), "90000");
    assert_eq!(u64_to_decimal(u64::MAX), "18446744073709551615");
    assert_eq!(i64_to_decimal(-42), "-42");
    assert_eq!(i64_to_decimal(i64::MIN), "-9223372036854775808");
}

#[test]
fn string_equality() {
    assert!(str_eq("abc", "abc"));
    assert!(!str_eq("abc", "abd"));
    assert!(!str_eq("abc", "ab"));
    assert!(str_eq("", ""));
}

#[test]
fn uuid_is_32_lower_hex() {
    assert_eq!(uuid_simple(255), "000000000000000000000000000000ff");
    assert_eq!(uuid_simple(0), "00000000000000000000000000000000");
    assert_eq!(uuid_simple(u128::MAX), "ffffffffffffffffffffffffffffffff");
    assert_eq!(video_track_cid(255), "video-000000000000000000000000000000ff");
}

#[test]
fn ws_url_maps_schemes_and_encodes_token() {
    let url = build_ws_url("http://localhost:7880", "tok").expect("valid URL");
    assert_eq!(
        url,
        "ws://localhost:7880/rtc?sdk=rust-media-engine&protocol=16&version=0.1.0&auto_subscribe=1&adaptive_stream=0&access_token=tok"
    );
    let url = build_ws_url("https://sfu.example.com/base", "a b+c").expect("valid URL");
    assert_eq!(
        url,
        "wss://sfu.example.com/rtc?sdk=rust-media-engine&protocol=16&version=0.1.0&auto_subscribe=1&adaptive_stream=0&access_token=a+b%2Bc"
    );
    let url = build_ws_url("wss://sfu.example.com", "t").expect("valid URL");
    assert!(url.starts_with("wss://sfu.example.com/rtc?"));
    let url = build_ws_url("ws://localhost:7880", "t").expect("valid URL");
    assert!(url.starts_with("ws://localhost:7880/rtc?"));
}

#[test]
fn invalid_server_urls_are_rejected() {
    for bad in ["localhost:7880", "://host", "http://"] {
        match build_ws_url(bad, "t") {
            Err(e) => {
                assert!(matches!(e, EngineError::Transport(_)));
                assert_eq!(e.message(), "Transport error: Invalid URL");
            },
            Ok(u) => panic!("{bad:?} should be rejected, got {u:?}"),
        }
    }
}

#[test]
fn form_urlencoding_matches_query_rules() {
    assert_eq!(form_urlencode("abc-XYZ_0.9*"), "abc-XYZ_0.9*");
    assert_eq!(form_urlencode("a b"), "a+b");
    assert_eq!(form_urlencode("a/b=c&d%"), "a%2Fb%3Dc%26d%25");
    assert_eq!(form_urlencode(""), "");
    assert_eq!(form_urlencode("~"), "%7E");
}

#[test]
fn ice_candidate_wire_strings() {
    assert_eq!(
        ice_candidate_line("192.168.1.10", 52000),
        "candidate:1 1 udp 2130706431 192.168.1.10 52000 typ host"
    );
    let json = trickle_candidate_json(
        "candidate:1 1 udp 2130706431 192.168.1.10 52000 typ host",
        "0",
        0,
    );
    assert_eq!(
        json,
        "{\"candidate\":\"candidate:1 1 udp 2130706431 192.168.1.10 52000 typ host\",\"sdpMid\":\"0\",\"sdpMLineIndex\":0,\"usernameFragment\":null}"
    );
}

#[test]
fn signal_sender_queues_in_order() {
    let mut s = SignalSender::new();
    s.send_add_track(
        String::from("video-1"),
        String::from("screenshare"),
        TRACK_TYPE_VIDEO,
        TRACK_SOURCE_SCREEN_SHARE,
        1920,
        1080,
    );
    s.send_offer(String::from("v=0 offer"));
    s.send_trickle(String::from("{}"), 0);
    s.send_answer(String::from("v=0 answer"));
    s.send_leave();
    let msgs = s.drain();
    assert_eq!(msgs.len(), 5);
    match &msgs[0] {
        OutboundSignal::AddTrack { cid, name, track_type, source, width, height, muted } => {
            assert_eq!(cid, "video-1");
            assert_eq!(name, "screenshare");
            assert_eq!(*track_type, 1);
            assert_eq!(*source, 3);
            assert_eq!((*width, *height), (1920, 1080));
            assert!(!muted);
        },
        _ => panic!("first message must be the add-track request"),
    }
    match &msgs[1] {
        OutboundSignal::Offer { sdp_type, sdp } => {
            assert_eq!(sdp_type, "offer");
            assert_eq!(sdp, "v=0 offer");
        },
        _ => panic!("second message must be the offer"),
    }
    match &msgs[2] {
        OutboundSignal::Trickle { candidate_init, target, is_final } => {
            assert_eq!(candidate_init, "{}");
            assert_eq!(*target, 0);
            assert!(!is_final);
        },
        _ => panic!("third message must be the trickle"),
    }
    match &msgs[3] {
        OutboundSignal::Answer { sdp_type, sdp } => {
            assert_eq!(sdp_type, "answer");
            assert_eq!(sdp, "v=0 answer");
        },
        _ => panic!("fourth message must be the answer"),
    }
    assert!(matches!(msgs[4], OutboundSignal::Leave));
    // Drained: nothing pending.
    assert!(s.drain().is_empty());
}
