//! The signaling layer's verified half: the outbound message queue with the
//! exact messages the engine emits (add-track, offer, answer, trickle,
//! leave), the WebSocket URL of the signaling endpoint, the ICE candidate
//! wire strings, and the locally generated identifiers.
//!
//! Framing and the WebSocket itself are byte transport outside this
//! library; every string and every message that goes onto them is built and
//! specified here.

use vstd::prelude::*;

use crate::error::EngineError;
use crate::text::{dec_chars, hex_chars_fixed, hex_digit_str_upper, str_eq, u128_to_hex32,
    u64_to_decimal};

verus! {

/// An outbound signaling message, as plain values.
pub enum OutboundSignal {
    /// The publisher SDP offer.
    Offer { sdp_type: String, sdp: String },
    /// The answer to a subscriber offer.
    Answer { sdp_type: String, sdp: String },
    /// A local ICE candidate, as candidate-init JSON, for the given target
    /// peer connection.
    Trickle { candidate_init: String, target: i32, is_final: bool },
    /// Request to publish a track.
    AddTrack {
        cid: String,
        name: String,
        track_type: i32,
        source: i32,
        width: u32,
        height: u32,
        muted: bool,
    },
    /// Leave the room.
    Leave,
}

/// Protocol value: a video track.
pub const TRACK_TYPE_VIDEO: i32 = 1;

/// Protocol value: a screen-share source.
pub const TRACK_SOURCE_SCREEN_SHARE: i32 = 3;

/// The queue of outbound signaling messages awaiting the wire. The engine
/// enqueues; the signaling task drains, serializes and sends.
pub struct SignalSender {
    /// Messages in order of submission.
    pub pending: Vec<OutboundSignal>,
}

impl SignalSender {
    /// An empty queue.
    pub fn new() -> (s: SignalSender)
        ensures
            s.pending@.len() == 0,
    {
        SignalSender { pending: Vec::new() }
    }

    /// Queue the publisher offer, typed `"offer"`.
    pub fn send_offer(&mut self, sdp: String)
        ensures
            final(self).pending@.len() == old(self).pending@.len() + 1,
            final(self).pending@.drop_last() == old(self).pending@,
            (final(self).pending@.last() matches OutboundSignal::Offer { sdp_type, sdp: s }
                && sdp_type@ == "offer"@ && s == sdp),
    {
        self.pending.push(OutboundSignal::Offer { sdp_type: String::from_str("offer"), sdp });
    }

    /// Queue an answer, typed `"answer"`.
    pub fn send_answer(&mut self, sdp: String)
        ensures
            final(self).pending@.len() == old(self).pending@.len() + 1,
            final(self).pending@.drop_last() == old(self).pending@,
            (final(self).pending@.last() matches OutboundSignal::Answer { sdp_type, sdp: s }
                && sdp_type@ == "answer"@ && s == sdp),
    {
        self.pending.push(OutboundSignal::Answer { sdp_type: String::from_str("answer"), sdp });
    }

    /// Queue a trickle candidate for the given target peer connection.
    pub fn send_trickle(&mut self, candidate_init: String, target: i32)
        ensures
            final(self).pending@ == old(self).pending@.push(
                OutboundSignal::Trickle { candidate_init, target, is_final: false },
            ),
    {
        self.pending.push(OutboundSignal::Trickle { candidate_init, target, is_final: false });
    }

    /// Queue the add-track request for the screen-share video track.
    pub fn send_add_track(
        &mut self,
        cid: String,
        name: String,
        track_type: i32,
        source: i32,
        width: u32,
        height: u32,
    )
        ensures
            final(self).pending@ == old(self).pending@.push(
                OutboundSignal::AddTrack {
                    cid,
                    name,
                    track_type,
                    source,
                    width,
                    height,
                    muted: false,
                },
            ),
    {
        self.pending.push(
            OutboundSignal::AddTrack { cid, name, track_type, source, width, height, muted: false },
        );
    }

    /// Queue the leave request.
    pub fn send_leave(&mut self)
        ensures
            final(self).pending@ == old(self).pending@.push(OutboundSignal::Leave),
    {
        self.pending.push(OutboundSignal::Leave);
    }

    /// Take everything queued, in order, for serialization.
    pub fn drain(&mut self) -> (r: Vec<OutboundSignal>)
        ensures
            r@ == old(self).pending@,
            final(self).pending@.len() == 0,
    {
        let mut out: Vec<OutboundSignal> = Vec::new();
        core::mem::swap(&mut out, &mut self.pending);
        out
    }
}

/// Whether a character passes through form-urlencoding unchanged:
/// ASCII alphanumerics and `*`, `-`, `.`, `_`.
pub open spec fn form_safe_char(c: char) -> bool {
    ||| 97 <= c as u32 <= 122
    ||| 65 <= c as u32 <= 90
    ||| 48 <= c as u32 <= 57
    ||| c == '*'
    ||| c == '-'
    ||| c == '.'
    ||| c == '_'
}

/// The form-urlencoding of one ASCII character: safe characters pass, the
/// space becomes `+`, everything else a `%XX` escape with uppercase hex.
pub open spec fn form_encode_char(c: char) -> Seq<char> {
    if form_safe_char(c) {
        seq![c]
    } else if c == ' ' {
        seq!['+']
    } else {
        seq![
            '%',
            crate::text::hex_digit_char_upper(c as u32 as int / 16),
            crate::text::hex_digit_char_upper(c as u32 as int % 16),
        ]
    }
}

/// The form-urlencoding of an ASCII string.
pub open spec fn form_encode(s: Seq<char>) -> Seq<char>
    decreases s.len(),
{
    if s.len() == 0 {
        seq![]
    } else {
        form_encode(s.drop_last()) + form_encode_char(s.last())
    }
}

/// Form-urlencode an ASCII string (the encoding of URL query values).
pub fn form_urlencode(s: &str) -> (r: String)
    requires
        s.is_ascii(),
    ensures
        r@ == form_encode(s@),
{
    let n: usize = s.unicode_len();
    let mut out = String::new();
    let mut i: usize = 0;
    proof {
        assert(s@.subrange(0, 0) =~= Seq::<char>::empty());
    }
    while i < n
        invariant
            i <= n,
            n == s@.len(),
            s.is_ascii(),
            out@ == form_encode(s@.subrange(0, i as int)),
        decreases n - i,
    {
        let c: char = s.get_char(i);
        let cu: u32 = c as u32;
        proof {
            assert(s@.subrange(0, i as int + 1).drop_last() =~= s@.subrange(0, i as int));
            assert(s@.subrange(0, i as int + 1).last() == s@[i as int]);
        }
        let safe: bool = (97 <= cu && cu <= 122) || (65 <= cu && cu <= 90) || (48 <= cu && cu <= 57)
            || c == '*' || c == '-' || c == '.' || c == '_';
        if safe {
            let piece: &str = s.substring_ascii(i, i + 1);
            proof {
                assert(piece@ =~= form_encode_char(s@[i as int]));
            }
            out.append(piece);
        } else if c == ' ' {
            out.append("+");
            proof {
                reveal_strlit("+");
                assert("+"@ =~= form_encode_char(' '));
            }
        } else {
            proof {
                vstd::utf8::is_ascii_chars_nat_bound(s@);
                assert(cu < 128);
            }
            out.append("%");
            out.append(hex_digit_str_upper((cu / 16) as u8));
            out.append(hex_digit_str_upper((cu % 16) as u8));
            proof {
                reveal_strlit("%");
                assert("%"@ =~= seq!['%']);
                assert("%"@ + seq![crate::text::hex_digit_char_upper(cu as int / 16)] + seq![
                    crate::text::hex_digit_char_upper(cu as int % 16),
                ] =~= form_encode_char(s@[i as int]));
            }
        }
        i += 1;
    }
    proof {
        assert(s@.subrange(0, n as int) =~= s@);
    }
    out
}

/// The position of the first `"://"` in `s`, searching from `from`.
pub open spec fn scheme_sep_from(s: Seq<char>, from: int) -> Option<int>
    decreases s.len() - from,
{
    if from < 0 || from + 3 > s.len() {
        None
    } else if s[from] == ':' && s[from + 1] == '/' && s[from + 2] == '/' {
        Some(from)
    } else {
        scheme_sep_from(s, from + 1)
    }
}

/// The end of the authority part that starts at `from`: the first `/`, `?`
/// or `#` at or after `from`, or the end of the string.
pub open spec fn authority_end_from(s: Seq<char>, from: int) -> int
    decreases s.len() - from,
{
    if from < 0 || from >= s.len() {
        s.len() as int
    } else if s[from] == '/' || s[from] == '?' || s[from] == '#' {
        from
    } else {
        authority_end_from(s, from + 1)
    }
}

/// The WebSocket scheme for a signaling endpoint scheme: secure stays
/// secure (`https` and `wss` map to `wss`), everything else maps to `ws`.
pub open spec fn ws_scheme_of(scheme: Seq<char>) -> Seq<char> {
    if scheme == "https"@ || scheme == "wss"@ {
        "wss"@
    } else {
        "ws"@
    }
}

/// Whether a signaling endpoint URL can be rewritten: it must have a
/// nonempty scheme before `"://"` and a nonempty authority after it.
pub open spec fn ws_url_parses(s: Seq<char>) -> bool {
    &&& scheme_sep_from(s, 0) is Some
    &&& scheme_sep_from(s, 0)->0 > 0
    &&& authority_end_from(s, scheme_sep_from(s, 0)->0 + 3) > scheme_sep_from(s, 0)->0 + 3
}

/// The signaling endpoint path and fixed query, up to the access token.
pub open spec fn signal_query_prefix() -> Seq<char> {
    "/rtc?sdk=rust-media-engine&protocol=16&version=0.1.0&auto_subscribe=1&adaptive_stream=0&access_token="@
}

/// The signaling WebSocket URL for a server URL and token: the mapped
/// WebSocket scheme, the server's authority, the `/rtc` path with the fixed
/// query, and the form-urlencoded token.
pub open spec fn ws_url_spec(s: Seq<char>, token: Seq<char>) -> Seq<char> {
    let sep = scheme_sep_from(s, 0)->0;
    ws_scheme_of(s.subrange(0, sep)) + "://"@ + s.subrange(
        sep + 3,
        authority_end_from(s, sep + 3),
    ) + signal_query_prefix() + form_encode(token)
}

fn authority_char_ends(s: &str, j: usize) -> (r: bool)
    requires
        j < s@.len(),
    ensures
        r == (s@[j as int] == '/' || s@[j as int] == '?' || s@[j as int] == '#'),
{
    let c: char = s.get_char(j);
    c == '/' || c == '?' || c == '#'
}

/// Build the WebSocket URL for the signaling endpoint.
pub fn build_ws_url(server_url: &str, token: &str) -> (r: Result<String, EngineError>)
    ensures
        r is Ok <==> (server_url.is_ascii() && token.is_ascii() && ws_url_parses(server_url@)),
        (r matches Ok(url) ==> url@ == ws_url_spec(server_url@, token@)),
        (r matches Err(e) ==> e matches EngineError::Transport(m) && m@ == "Invalid URL"@),
{
    if !server_url.is_ascii() || !token.is_ascii() {
        return Err(EngineError::Transport(String::from_str("Invalid URL")));
    }
    let n: usize = server_url.unicode_len();
    // Find the "://" separator.
    let mut i: usize = 0;
    let mut sep: usize = 0;
    let mut found: bool = false;
    while !found && n - i >= 3
        invariant
            i <= n,
            n == server_url@.len(),
            server_url.is_ascii(),
            !found ==> scheme_sep_from(server_url@, 0) == scheme_sep_from(server_url@, i as int),
            found ==> scheme_sep_from(server_url@, 0) == Some(sep as int) && sep as int + 3 <= n,
        decreases n - i, (if found { 0int } else { 1int }),
    {
        let c0: char = server_url.get_char(i);
        let c1: char = server_url.get_char(i + 1);
        let c2: char = server_url.get_char(i + 2);
        if c0 == ':' && c1 == '/' && c2 == '/' {
            sep = i;
            found = true;
        } else {
            i += 1;
        }
    }
    if !found || sep == 0 {
        return Err(EngineError::Transport(String::from_str("Invalid URL")));
    }
    // Find the end of the authority.
    let auth_start: usize = sep + 3;
    let mut j: usize = auth_start;
    while j < n && !authority_char_ends(server_url, j)
        invariant
            auth_start <= j <= n,
            n == server_url@.len(),
            server_url.is_ascii(),
            authority_end_from(server_url@, auth_start as int) == authority_end_from(
                server_url@,
                j as int,
            ),
        decreases n - j,
    {
        j += 1;
    }
    proof {
        assert(authority_end_from(server_url@, j as int) == j as int);
    }
    if j == auth_start {
        return Err(EngineError::Transport(String::from_str("Invalid URL")));
    }
    // Assemble.
    let scheme: &str = server_url.substring_ascii(0, sep);
    let secure: bool = str_eq(scheme, "https") || str_eq(scheme, "wss");
    let mut url: String = if secure {
        String::from_str("wss")
    } else {
        String::from_str("ws")
    };
    url.append("://");
    url.append(server_url.substring_ascii(auth_start, j));
    url.append(
        "/rtc?sdk=rust-media-engine&protocol=16&version=0.1.0&auto_subscribe=1&adaptive_stream=0&access_token=",
    );
    let encoded = form_urlencode(token);
    url.append(encoded.as_str());
    Ok(url)
}

/// A locally generated identifier: a clock reading rendered as exactly 32
/// lowercase hex digits. The caller supplies the nanosecond reading.
pub fn uuid_simple(nanos: u128) -> (s: String)
    ensures
        s@ == hex_chars_fixed(nanos as int, 32),
{
    u128_to_hex32(nanos)
}

/// The client track id for the published video track: `"video-"` followed
/// by a locally generated identifier.
pub fn video_track_cid(nanos: u128) -> (s: String)
    ensures
        s@ == "video-"@ + hex_chars_fixed(nanos as int, 32),
{
    let head = String::from_str("video-");
    head.concat(uuid_simple(nanos).as_str())
}

/// The SDP string of the engine's host ICE candidate: component 1 over UDP
/// with a fixed host-candidate priority, at the given address.
pub fn ice_candidate_line(ip: &str, port: u16) -> (s: String)
    ensures
        s@ == "candidate:1 1 udp 2130706431 "@ + ip@ + " "@ + dec_chars(port as int)
            + " typ host"@,
{
    let mut out = String::from_str("candidate:1 1 udp 2130706431 ");
    out.append(ip);
    out.append(" ");
    out.append(u64_to_decimal(port as u64).as_str());
    out.append(" typ host");
    out
}

/// Whether a string can stand inside a JSON string literal unescaped.
pub open spec fn json_string_safe(s: Seq<char>) -> bool {
    forall|i: int|
        0 <= i < s.len() ==> (#[trigger] s[i]) != '"' && s[i] != '\\' && s[i] as u32 >= 32
}

/// Check the JSON-safety condition at run time, for callers that assemble
/// candidate strings from outside values.
pub fn json_string_safe_check(s: &str) -> (r: bool)
    ensures
        r == json_string_safe(s@),
{
    let n: usize = s.unicode_len();
    let mut i: usize = 0;
    while i < n
        invariant
            i <= n,
            n == s@.len(),
            forall|k: int|
                0 <= k < i ==> (#[trigger] s@[k]) != '"' && s@[k] != '\\' && s@[k] as u32 >= 32,
        decreases n - i,
    {
        let c: char = s.get_char(i);
        if c == '"' || c == '\\' || (c as u32) < 32 {
            return false;
        }
        i += 1;
    }
    true
}

/// The candidate-init JSON for a local trickle candidate, in the
/// RTCIceCandidateInit wire shape: the candidate line, the media id, the
/// m-line index, and no username fragment.
pub fn trickle_candidate_json(candidate: &str, sdp_mid: &str, sdp_mline_index: u32) -> (s: String)
    requires
        json_string_safe(candidate@),
        json_string_safe(sdp_mid@),
    ensures
        s@ == "{\"candidate\":\""@ + candidate@ + "\",\"sdpMid\":\""@ + sdp_mid@
            + "\",\"sdpMLineIndex\":"@ + dec_chars(sdp_mline_index as int)
            + ",\"usernameFragment\":null}"@,
{
    let mut out = String::from_str("{\"candidate\":\"");
    out.append(candidate);
    out.append("\",\"sdpMid\":\"");
    out.append(sdp_mid);
    out.append("\",\"sdpMLineIndex\":");
    out.append(u64_to_decimal(sdp_mline_index as u64).as_str());
    out.append(",\"usernameFragment\":null}");
    out
}

} // verus!
