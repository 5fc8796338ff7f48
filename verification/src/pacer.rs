//! Frame pacer and frame-rate telemetry.
//!
//! Each host iteration does some work and then sleeps out the remainder of a
//! fixed frame budget, so the loop runs at the target cadence. The pacer also
//! keeps a rolling count of iterations: once a full second of paced time has
//! elapsed it publishes that count as the current frame rate and starts the
//! next second. The published value is the sole output read by the host's
//! command surface.

use vstd::prelude::*;

verus! {

/// Frame budget of one iteration at the 60 Hz target, in nanoseconds,
/// rounded to the nearest nanosecond.
pub const TARGET_FRAME_NANOS: u64 = 16_666_667;

pub const NANOS_PER_SECOND: u64 = 1_000_000_000;

/// Per-iteration pacing state and the published frame-rate metric.
#[derive(Clone, Copy, PartialEq, Eq, Structural, Debug)]
pub struct FramePacer {
    /// Iterations completed since the current second began.
    pub frame_count: usize,
    /// Paced time accumulated in the current second, in nanoseconds.
    pub nanos_into_second: u64,
    /// Iterations completed in the previous full second; zero until the
    /// first full second has elapsed.
    pub published_rate: usize,
}

impl FramePacer {
    /// The accumulated time never reaches a full second between frames, and
    /// every counted frame contributed at least one frame budget to it.
    pub open spec fn wf(self) -> bool {
        &&& self.nanos_into_second < NANOS_PER_SECOND
        &&& self.frame_count * TARGET_FRAME_NANOS <= self.nanos_into_second
    }

    /// How long the pacer sleeps after a frame that took `work_nanos` of
    /// work: the positive remainder of the frame budget, never negative.
    pub open spec fn spec_sleep(work_nanos: u64) -> u64 {
        if work_nanos >= TARGET_FRAME_NANOS {
            0
        } else {
            (TARGET_FRAME_NANOS - work_nanos) as u64
        }
    }

    /// Paced wall time of one frame: its work plus the sleep that follows,
    /// i.e. at least one frame budget.
    pub open spec fn spec_frame_total(work_nanos: u64) -> u64 {
        if work_nanos >= TARGET_FRAME_NANOS {
            work_nanos
        } else {
            TARGET_FRAME_NANOS
        }
    }

    /// The pacer after one frame. When the frame completes a full second,
    /// the frame count (this frame included) is published and both the count
    /// and the accumulated time start over; otherwise both roll forward.
    pub open spec fn spec_end_frame(self, work_nanos: u64) -> FramePacer {
        let total = Self::spec_frame_total(work_nanos);
        if self.nanos_into_second + total >= NANOS_PER_SECOND {
            FramePacer {
                frame_count: 0,
                nanos_into_second: 0,
                published_rate: (self.frame_count + 1) as usize,
            }
        } else {
            FramePacer {
                frame_count: (self.frame_count + 1) as usize,
                nanos_into_second: (self.nanos_into_second + total) as u64,
                published_rate: self.published_rate,
            }
        }
    }

    /// A fresh pacer: nothing counted, nothing published yet.
    pub fn new() -> (pacer: FramePacer)
        ensures
            pacer == (FramePacer { frame_count: 0, nanos_into_second: 0, published_rate: 0 }),
            pacer.wf(),
    {
        FramePacer { frame_count: 0, nanos_into_second: 0, published_rate: 0 }
    }

    /// Closes one iteration that took `work_nanos` of work and returns how
    /// long the caller must sleep to fill the frame budget. An iteration
    /// that overran the budget sleeps zero. Crossing a full second publishes
    /// the iteration count of that second.
    pub fn end_frame(&mut self, work_nanos: u64) -> (sleep_nanos: u64)
        requires
            old(self).wf(),
        ensures
            *final(self) == old(self).spec_end_frame(work_nanos),
            final(self).wf(),
            sleep_nanos == Self::spec_sleep(work_nanos),
    {
        let sleep_nanos: u64 = if work_nanos >= TARGET_FRAME_NANOS {
            0
        } else {
            TARGET_FRAME_NANOS - work_nanos
        };
        let total: u64 = if work_nanos >= TARGET_FRAME_NANOS {
            work_nanos
        } else {
            TARGET_FRAME_NANOS
        };
        let reaches_second: bool = total >= NANOS_PER_SECOND || self.nanos_into_second + total
            >= NANOS_PER_SECOND;
        if reaches_second {
            self.published_rate = self.frame_count + 1;
            self.frame_count = 0;
            self.nanos_into_second = 0;
        } else {
            self.frame_count = self.frame_count + 1;
            self.nanos_into_second = self.nanos_into_second + total;
        }
        sleep_nanos
    }

    /// The most recently published frame rate; zero before the first full
    /// second of iterations has elapsed.
    pub fn average_frame_rate(&self) -> (rate: usize)
        ensures
            rate == self.published_rate,
    {
        self.published_rate
    }
}

} // verus!
