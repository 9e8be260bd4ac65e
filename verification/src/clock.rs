//! Process-relative frame clock with a rolling frames-per-window counter.
//!
//! Timestamps are milliseconds since an arbitrary process start.  Frames
//! are counted per fixed three-second report window; when a frame lands
//! past the window's end, the finished window is reported as
//! `floor(count / 3)` frames per second, the counter restarts at zero, and
//! the next window ends three seconds after the frame that reported.

use vstd::prelude::*;

verus! {

/// Length of one report window in milliseconds.
pub const REPORT_WINDOW_MS: u64 = 3000;

/// Length of one report window in whole seconds.
pub const REPORT_WINDOW_SECS: u64 = 3;

/// Tracks frames rendered since the last report and when to report next.
pub struct FrameClock {
    frames_rendered: u64,
    next_report_at: u64,
}

impl FrameClock {
    /// Frames counted so far in the current report window.
    pub closed spec fn spec_frames(self) -> u64 {
        self.frames_rendered
    }

    /// Timestamp past which the next rendered frame triggers a report.
    pub closed spec fn spec_next_report_at(self) -> u64 {
        self.next_report_at
    }

    /// Whether a frame rendered at `now_ms` closes the current window.
    pub open spec fn report_due(self, now_ms: u64) -> bool {
        now_ms > self.spec_next_report_at()
    }

    /// The frames-per-second value reported for the current window.
    pub open spec fn report_value(self) -> u64 {
        self.spec_frames() / REPORT_WINDOW_SECS
    }

    /// Start counting at `now_ms` with an empty window that is due at
    /// once, so the very first frame reports.
    pub fn start(now_ms: u64) -> (clock: FrameClock)
        ensures
            clock.spec_frames() == 0,
            clock.spec_next_report_at() == now_ms,
    {
        FrameClock { frames_rendered: 0, next_report_at: now_ms }
    }

    /// Frames counted so far in the current report window.
    pub fn frames(&self) -> (n: u64)
        ensures
            n == self.spec_frames(),
    {
        self.frames_rendered
    }

    /// Count one rendered frame at time `now_ms`.  If the frame lands past
    /// the window's end, first report `floor(frames / 3)` for the finished
    /// window, reset the counter to zero and end the next window three
    /// seconds from now; the frame itself is then counted into the new
    /// window.
    pub fn record_frame(&mut self, now_ms: u64) -> (report: Option<u64>)
        requires
            now_ms <= u64::MAX - REPORT_WINDOW_MS,
            old(self).spec_frames() < u64::MAX,
        ensures
            if old(self).report_due(now_ms) {
                &&& report == Some(old(self).report_value())
                &&& final(self).spec_frames() == 1
                &&& final(self).spec_next_report_at() == now_ms + REPORT_WINDOW_MS
            } else {
                &&& report is None
                &&& final(self).spec_frames() == old(self).spec_frames() + 1
                &&& final(self).spec_next_report_at() == old(self).spec_next_report_at()
            },
    {
        let report: Option<u64> = if now_ms > self.next_report_at {
            let fps = self.frames_rendered / REPORT_WINDOW_SECS;
            self.next_report_at = now_ms + REPORT_WINDOW_MS;
            self.frames_rendered = 0;
            Some(fps)
        } else {
            None
        };
        self.frames_rendered = self.frames_rendered + 1;
        report
    }
}

} // verus!
