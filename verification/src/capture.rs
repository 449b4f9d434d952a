//! Capture-side data model: captured frames, capture configuration, display
//! and window enumeration records, the stop handle, and the bounded
//! latest-wins frame channel shared between the capture backend and the
//! encode thread.
//!
//! Captured frames are multi-megabyte BGRA buffers, so they must never queue
//! up: the channel bounds its depth and a full channel discards the offered
//! frame, and the consumer drains everything and keeps only the newest frame.

use vstd::prelude::*;

verus! {

/// A captured frame: raw BGRA pixels plus metadata from the capture backend.
pub struct CapturedFrame {
    /// Contiguous BGRA bytes; at least `row_pitch * height` long.
    pub data: Vec<u8>,
    /// Source width in pixels (may be odd).
    pub width: u32,
    /// Source height in pixels (may be odd).
    pub height: u32,
    /// Bytes per row in `data`; at least `4 * width`, backends may pad.
    pub row_pitch: u32,
    /// Backend-provided monotone timestamp in 100-nanosecond units.
    pub timestamp_100ns: i64,
}

impl CapturedFrame {
    /// A frame is well formed when its buffer really holds `height` rows of
    /// `row_pitch` bytes and each row holds the `4 * width` pixel bytes.
    pub open spec fn wf(&self) -> bool {
        &&& 4 * self.width <= self.row_pitch
        &&& (self.row_pitch as int) * (self.height as int) <= self.data@.len()
    }
}

/// What to capture.
#[derive(Clone, Copy, Debug)]
pub enum CaptureTarget {
    PrimaryDisplay,
    Display(usize),
    Window(isize),
}

/// Configuration for screen capture.
pub struct CaptureConfig {
    pub target: CaptureTarget,
    pub show_cursor: bool,
    pub show_border: bool,
}

/// Handle to request that an active capture session stop. The capture
/// backend polls the flag and ends its callback loop once it is set.
pub struct StopHandle {
    pub stop_flag: bool,
}

impl StopHandle {
    /// A fresh handle for a session that has not been asked to stop.
    pub fn new() -> (h: StopHandle)
        ensures
            !h.stop_flag,
    {
        StopHandle { stop_flag: false }
    }

    /// Request the capture to stop. Idempotent: stopping an already stopped
    /// capture changes nothing.
    pub fn stop(&mut self)
        ensures
            final(self).stop_flag,
    {
        self.stop_flag = true;
    }

    /// Whether a stop has been requested.
    pub fn is_stopped(&self) -> (r: bool)
        ensures
            r == self.stop_flag,
    {
        self.stop_flag
    }
}

/// Info about a display monitor.
#[derive(Debug, Clone)]
pub struct DisplayInfo {
    pub index: usize,
    pub name: String,
    pub width: u32,
    pub height: u32,
}

/// Info about a capturable window.
#[derive(Debug, Clone)]
pub struct WindowInfo {
    pub handle: isize,
    pub title: String,
    pub process_name: String,
}

/// Capacity of the capture frame channel: two frames in flight at most.
pub const CAPTURE_CHANNEL_CAPACITY: usize = 2;

/// The bounded frame channel between the capture callback and the encode
/// thread. Its depth never exceeds its capacity; a send against a full
/// channel discards the offered frame (it is never an error), and the
/// consumer takes the newest frame and discards the rest.
pub struct FrameChannel {
    queue: Vec<CapturedFrame>,
    capacity: usize,
}

impl FrameChannel {
    /// The frames currently queued, oldest first.
    pub closed spec fn queued(&self) -> Seq<CapturedFrame> {
        self.queue@
    }

    /// The channel bound.
    pub closed spec fn cap(&self) -> int {
        self.capacity as int
    }

    /// Channel depth never exceeds the bound.
    pub open spec fn wf(&self) -> bool {
        self.queued().len() <= self.cap()
    }

    /// A new empty channel with the given capacity.
    pub fn new(capacity: usize) -> (ch: FrameChannel)
        requires
            capacity >= 1,
        ensures
            ch.wf(),
            ch.queued().len() == 0,
            ch.cap() == capacity,
    {
        FrameChannel { queue: Vec::new(), capacity }
    }

    /// Number of frames currently queued.
    pub fn len(&self) -> (n: usize)
        ensures
            n == self.queued().len(),
    {
        self.queue.len()
    }

    /// Producer side: offer a frame without blocking. When the channel is
    /// full the frame is discarded and `false` returned; this is the
    /// deliberate latest-wins backpressure, not a failure.
    pub fn try_send(&mut self, frame: CapturedFrame) -> (accepted: bool)
        requires
            old(self).wf(),
        ensures
            final(self).wf(),
            final(self).cap() == old(self).cap(),
            accepted == (old(self).queued().len() < old(self).cap()),
            accepted ==> final(self).queued() == old(self).queued().push(frame),
            !accepted ==> final(self).queued() == old(self).queued(),
    {
        if self.queue.len() < self.capacity {
            self.queue.push(frame);
            true
        } else {
            false
        }
    }

    /// Consumer side: drain the whole queue, keep only the newest frame.
    /// Everything older is discarded at once so that large frame buffers
    /// never accumulate. Returns the newest frame (if any) and the number
    /// of frames discarded.
    pub fn drain_latest(&mut self) -> (r: (Option<CapturedFrame>, usize))
        requires
            old(self).wf(),
        ensures
            final(self).wf(),
            final(self).cap() == old(self).cap(),
            final(self).queued().len() == 0,
            old(self).queued().len() == 0 ==> r.0 is None && r.1 == 0,
            old(self).queued().len() > 0 ==> r.0 == Some(old(self).queued().last()) && r.1
                == old(self).queued().len() - 1,
    {
        let n: usize = self.queue.len();
        if n == 0 {
            (None, 0)
        } else {
            let last = self.queue.pop().unwrap();
            let dropped: usize = self.queue.len();
            self.queue.clear();
            (Some(last), dropped)
        }
    }
}

/// The channel keeps its bound across any producer step, and a rejected
/// frame leaves the queue exactly as it was: backpressure only ever
/// discards, it never overflows the queue.
pub proof fn lemma_channel_depth_bounded(
    pre: FrameChannel,
    post: FrameChannel,
    frame: CapturedFrame,
    accepted: bool,
)
    requires
        pre.wf(),
        accepted == (pre.queued().len() < pre.cap()),
        accepted ==> post.queued() == pre.queued().push(frame),
        !accepted ==> post.queued() == pre.queued(),
        post.cap() == pre.cap(),
    ensures
        post.queued().len() <= post.cap(),
        !accepted ==> post.queued() == pre.queued(),
{
}

} // verus!
