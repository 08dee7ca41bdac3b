//! Frame timing: per-frame delta accumulation and the smoothed
//! frame-rate / frame-time display metrics.
//!
//! Time is carried in whole microseconds. The smoothed metrics are
//! recomputed at most once per one-second window, reflect the average
//! over the preceding window, and the window then restarts.

use vstd::prelude::*;

verus! {

/// One second, in microseconds: the smoothing window for the metrics.
pub const METRICS_WINDOW_MICROS: u64 = 1_000_000;

/// Addition on `u64` that stops at the top of the range instead of
/// wrapping; total, so the clock never demands anything of its caller.
pub open spec fn sat_add_u64(a: u64, b: u64) -> u64 {
    if a + b > u64::MAX {
        u64::MAX
    } else {
        (a + b) as u64
    }
}

/// Increment on `u32` that stops at the top of the range.
pub open spec fn sat_inc_u32(a: u32) -> u32 {
    if a == u32::MAX {
        a
    } else {
        (a + 1) as u32
    }
}

/// Smoothed frame rate over a window: frames per second, in thousandths,
/// rounded toward zero.
pub open spec fn fps_milli_of(frames: int, micros: int) -> int
    recommends
        micros >= 1,
{
    frames * 1_000_000_000 / micros
}

/// Per-frame timing state. Created once at startup, mutated once per
/// frame, never destroyed until the process exits.
pub struct FrameInfo {
    /// Frames ticked since the metrics were last recomputed.
    pub frame_count: u32,
    /// Time accumulated since the metrics were last recomputed.
    pub accumulated_micros: u64,
    /// Smoothed frame rate, in thousandths of a frame per second.
    pub fps_milli: u64,
    /// Smoothed frame duration, in microseconds.
    pub frame_time_micros: u64,
}

impl FrameInfo {
    /// Between ticks the accumulator always sits below the window bound:
    /// a tick that reaches the bound resets it.
    pub open spec fn wf(self) -> bool {
        self.accumulated_micros < METRICS_WINDOW_MICROS
    }

    /// What one tick does: add the delta and count the frame; once the
    /// accumulated time reaches the window, recompute both metrics from
    /// the whole window and restart it.
    pub open spec fn tick_spec(self, delta_micros: u64) -> FrameInfo {
        let acc = sat_add_u64(self.accumulated_micros, delta_micros);
        let frames = sat_inc_u32(self.frame_count);
        if acc >= METRICS_WINDOW_MICROS {
            FrameInfo {
                frame_count: 0,
                accumulated_micros: 0,
                fps_milli: fps_milli_of(frames as int, acc as int) as u64,
                frame_time_micros: (acc as int / frames as int) as u64,
            }
        } else {
            FrameInfo { frame_count: frames, accumulated_micros: acc, ..self }
        }
    }

    pub fn new() -> (r: FrameInfo)
        ensures
            r == (FrameInfo {
                frame_count: 0,
                accumulated_micros: 0,
                fps_milli: 0,
                frame_time_micros: 0,
            }),
            r.wf(),
    {
        FrameInfo { frame_count: 0, accumulated_micros: 0, fps_milli: 0, frame_time_micros: 0 }
    }

    /// Advance the clock by one frame's elapsed time and hand the delta
    /// back for the caller's per-frame consumers.
    ///
    /// The metrics update exactly when the accumulated time reaches the
    /// one-second window, to the average over that whole window, and the
    /// frame count and accumulator restart at zero.
    pub fn fetch(&mut self, delta_micros: u64) -> (delta: u64)
        requires
            old(self).wf(),
        ensures
            *final(self) == old(self).tick_spec(delta_micros),
            final(self).wf(),
            delta == delta_micros,
            sat_add_u64(old(self).accumulated_micros, delta_micros) >= METRICS_WINDOW_MICROS
                ==> {
                    &&& final(self).fps_milli == fps_milli_of(
                        sat_inc_u32(old(self).frame_count) as int,
                        sat_add_u64(old(self).accumulated_micros, delta_micros) as int,
                    )
                    &&& final(self).frame_count == 0
                    &&& final(self).accumulated_micros == 0
                },
            sat_add_u64(old(self).accumulated_micros, delta_micros) < METRICS_WINDOW_MICROS
                ==> {
                    &&& final(self).fps_milli == old(self).fps_milli
                    &&& final(self).frame_time_micros == old(self).frame_time_micros
                },
    {
        let acc: u64 = if delta_micros > u64::MAX - self.accumulated_micros {
            u64::MAX
        } else {
            self.accumulated_micros + delta_micros
        };
        let frames: u32 = if self.frame_count == u32::MAX {
            self.frame_count
        } else {
            self.frame_count + 1
        };
        if acc >= METRICS_WINDOW_MICROS {
            assert(frames >= 1);
            self.fps_milli = (frames as u64) * 1_000_000_000 / acc;
            self.frame_time_micros = acc / (frames as u64);
            self.accumulated_micros = 0;
            self.frame_count = 0;
        } else {
            self.accumulated_micros = acc;
            self.frame_count = frames;
        }
        delta_micros
    }
}

impl Default for FrameInfo {
    /// The startup state: no frames counted, both metrics at zero.
    fn default() -> (r: FrameInfo)
        ensures
            r == (FrameInfo {
                frame_count: 0,
                accumulated_micros: 0,
                fps_milli: 0,
                frame_time_micros: 0,
            }),
            r.wf(),
    {
        FrameInfo::new()
    }
}

} // verus!
