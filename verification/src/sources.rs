//! Capture-source enumeration records for the host: stable source ids of
//! the form `"screen:<index>"` or `"window:<index>"`, their display names,
//! and the output-resolution class a requested size falls into.

use vstd::prelude::*;

use crate::text::{dec_chars, u64_to_decimal};

verus! {

/// A capture source as presented to the host.
pub struct CaptureSource {
    /// Stable id: `"screen:<index>"` or `"window:<index>"`.
    pub id: String,
    /// Display name.
    pub name: String,
    /// Whether the source is a whole screen (else a window).
    pub is_screen: bool,
    pub width: Option<u32>,
    pub height: Option<u32>,
}

/// The id of the screen source at the given enumeration index.
pub fn screen_source_id(index: u64) -> (s: String)
    ensures
        s@ == "screen:"@ + dec_chars(index as int),
{
    let head = String::from_str("screen:");
    head.concat(u64_to_decimal(index).as_str())
}

/// The id of the window source at the given enumeration index.
pub fn window_source_id(index: u64) -> (s: String)
    ensures
        s@ == "window:"@ + dec_chars(index as int),
{
    let head = String::from_str("window:");
    head.concat(u64_to_decimal(index).as_str())
}

/// The display name of the screen source at the given enumeration index,
/// numbered from one.
pub fn screen_source_name(index: u64) -> (s: String)
    requires
        index < u64::MAX,
    ensures
        s@ == "Screen "@ + dec_chars(index as int + 1),
{
    let head = String::from_str("Screen ");
    head.concat(u64_to_decimal(index + 1).as_str())
}

/// The position of the first `':'` in `s` at or after `from`.
pub open spec fn colon_at(s: Seq<char>, from: int) -> Option<int>
    decreases s.len() - from,
{
    if from < 0 || from >= s.len() {
        None
    } else if s[from] == ':' {
        Some(from)
    } else {
        colon_at(s, from + 1)
    }
}

/// The index segment of a source id: the characters between the first
/// `':'` and the next `':'` (or the end).
pub open spec fn index_segment(s: Seq<char>) -> Seq<char>
    recommends
        colon_at(s, 0) is Some,
{
    let k = colon_at(s, 0)->0;
    match colon_at(s, k + 1) {
        Some(e) => s.subrange(k + 1, e),
        None => s.subrange(k + 1, s.len() as int),
    }
}

/// The enumeration index a source id names, if any: the decimal number in
/// the segment after the first `':'`.
pub open spec fn source_index_of(s: Seq<char>) -> Option<int> {
    if colon_at(s, 0) is Some {
        let seg = index_segment(s);
        if seg.len() > 0 && crate::engine::all_dec_digits(seg) && crate::engine::dec_value(seg)
            <= u32::MAX {
            Some(crate::engine::dec_value(seg))
        } else {
            None
        }
    } else {
        None
    }
}

/// The enumeration index named by a source id: the decimal segment after
/// the first `':'`. `None` when the id has no `':'` or the segment is not a
/// decimal number in range.
pub fn parse_source_index(id: &str) -> (r: Option<usize>)
    ensures
        r is Some <==> source_index_of(id@) is Some,
        (r matches Some(i) ==> i == source_index_of(id@)->0),
{
    let n: usize = id.unicode_len();
    let k: usize = match find_colon(id, 0) {
        Some(k) => k,
        None => {
            return None;
        },
    };
    let seg_end: usize = match find_colon(id, k + 1) {
        Some(e) => e,
        None => n,
    };
    let rest: &str = id.substring_char(k + 1, seg_end);
    proof {
        assert(rest@ == index_segment(id@));
    }
    match crate::engine::parse_u32_decimal(rest) {
        Some(v) => Some(v as usize),
        None => None,
    }
}

/// Find the first `':'` at or after `from`.
fn find_colon(s: &str, from: usize) -> (r: Option<usize>)
    requires
        from <= s@.len(),
    ensures
        r matches Some(k) ==> colon_at(s@, from as int) == Some(k as int) && from <= k < s@.len(),
        r is None ==> colon_at(s@, from as int) is None,
{
    let n: usize = s.unicode_len();
    let mut k: usize = from;
    while k < n && !id_char_is_colon(s, k)
        invariant
            from <= k <= n,
            n == s@.len(),
            colon_at(s@, from as int) == colon_at(s@, k as int),
        decreases n - k,
    {
        k += 1;
    }
    if k == n {
        None
    } else {
        Some(k)
    }
}

fn id_char_is_colon(s: &str, k: usize) -> (r: bool)
    requires
        k < s@.len(),
    ensures
        r == (s@[k as int] == ':'),
{
    s.get_char(k) == ':'
}

/// Output resolution classes of the capture backend.
#[derive(Clone, Copy, Debug, PartialEq, Eq, Structural)]
pub enum ResolutionClass {
    R1080p,
    R1440p,
    R2160p,
}

/// The smallest resolution class that covers a requested size: 1080p up to
/// 1920x1080, 1440p up to 2560x1440, 2160p beyond.
pub fn select_resolution(width: u32, height: u32) -> (r: ResolutionClass)
    ensures
        width <= 1920 && height <= 1080 ==> r is R1080p,
        !(width <= 1920 && height <= 1080) && width <= 2560 && height <= 1440 ==> r is R1440p,
        !(width <= 2560 && height <= 1440) ==> r is R2160p,
{
    if width <= 1920 && height <= 1080 {
        ResolutionClass::R1080p
    } else if width <= 2560 && height <= 1440 {
        ResolutionClass::R1440p
    } else {
        ResolutionClass::R2160p
    }
}

} // verus!
