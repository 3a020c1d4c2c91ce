//! Frame-timing metrics over an integer clock.  Timestamps and durations
//! are microseconds; the embedding application reads the clock and passes
//! the current timestamp in.

use vstd::prelude::*;

verus! {

/// How long a reporting cycle runs before it is summarized and restarted.
pub const CYCLE_REPORT_INTERVAL_MICROS: u64 = 1_000_000;

/// The fastest-render seed: a render longer than this never counts as
/// fastest on an empty cycle.
pub const FASTEST_RENDER_SEED_MICROS: u64 = 30_000_000;

/// Addition that sticks at the largest representable value.
pub open spec fn sat_add64(a: u64, b: u64) -> u64 {
    if a + b <= u64::MAX {
        (a + b) as u64
    } else {
        u64::MAX
    }
}

/// Increment that sticks at the largest representable value.
pub open spec fn sat_inc32(a: u32) -> u32 {
    if a < u32::MAX {
        (a + 1) as u32
    } else {
        u32::MAX
    }
}

/// The summary of one reporting cycle.
#[derive(Clone, Copy, Debug, PartialEq, Eq, Structural)]
pub struct CycleReport {
    pub slowest: u64,
    pub fastest: u64,
    pub average: u64,
    pub frames: u32,
}

/// Timing of the current reporting cycle.
#[derive(Clone, Copy, Debug, PartialEq, Eq, Structural)]
pub struct Cycle {
    /// When the current reporting cycle began.
    pub start: u64,
    /// When the current frame began.
    pub frame_start: u64,
    pub slowest_render: u64,
    pub fastest_render: u64,
    pub total_render: u64,
    pub total_frames: u32,
}

impl Cycle {
    /// A fresh cycle beginning at `now`.
    pub fn new(now: u64) -> (r: Cycle)
        ensures
            r == (Cycle {
                start: now,
                frame_start: now,
                slowest_render: 0u64,
                fastest_render: FASTEST_RENDER_SEED_MICROS,
                total_render: 0u64,
                total_frames: 0u32,
            }),
    {
        Cycle {
            start: now,
            frame_start: now,
            slowest_render: 0,
            fastest_render: FASTEST_RENDER_SEED_MICROS,
            total_render: 0,
            total_frames: 0,
        }
    }

    /// Restarts the reporting cycle at `now`.
    pub fn start(&mut self, now: u64)
        ensures
            *final(self) == (Cycle { start: now, ..*old(self) }),
    {
        self.start = now;
    }

    /// Marks the beginning of a frame at `now`.
    pub fn start_frame(&mut self, now: u64)
        ensures
            *final(self) == (Cycle { frame_start: now, ..*old(self) }),
    {
        self.frame_start = now;
    }

    /// Marks the end of a frame at `now`: folds the frame's render time
    /// into the cycle totals and, once the cycle has run its reporting
    /// interval, returns its summary and restarts it at `now`.
    pub fn end_frame(&mut self, now: u64) -> (r: Option<CycleReport>)
        requires
            old(self).frame_start <= now,
            old(self).start <= now,
        ensures
            ({
                let elapsed = (now - old(self).frame_start) as u64;
                let frames = sat_inc32(old(self).total_frames);
                let total = sat_add64(old(self).total_render, elapsed);
                let slowest = if elapsed > old(self).slowest_render {
                    elapsed
                } else {
                    old(self).slowest_render
                };
                let fastest = if elapsed < old(self).fastest_render {
                    elapsed
                } else {
                    old(self).fastest_render
                };
                if now - old(self).start > CYCLE_REPORT_INTERVAL_MICROS {
                    &&& r == Some(
                        CycleReport {
                            slowest,
                            fastest,
                            average: (total as int / frames as int) as u64,
                            frames,
                        },
                    )
                    &&& *final(self) == (Cycle {
                        start: now,
                        frame_start: now,
                        slowest_render: 0u64,
                        fastest_render: FASTEST_RENDER_SEED_MICROS,
                        total_render: 0u64,
                        total_frames: 0u32,
                    })
                } else {
                    &&& r is None
                    &&& *final(self) == (Cycle {
                        slowest_render: slowest,
                        fastest_render: fastest,
                        total_render: total,
                        total_frames: frames,
                        ..*old(self)
                    })
                }
            }),
    {
        let elapsed = now - self.frame_start;
        if self.total_frames < u32::MAX {
            self.total_frames = self.total_frames + 1;
        }
        if self.total_render <= u64::MAX - elapsed {
            self.total_render = self.total_render + elapsed;
        } else {
            self.total_render = u64::MAX;
        }
        if elapsed > self.slowest_render {
            self.slowest_render = elapsed;
        }
        if elapsed < self.fastest_render {
            self.fastest_render = elapsed;
        }
        if now - self.start > CYCLE_REPORT_INTERVAL_MICROS {
            let report = CycleReport {
                slowest: self.slowest_render,
                fastest: self.fastest_render,
                average: self.total_render / (self.total_frames as u64),
                frames: self.total_frames,
            };
            *self = Cycle::new(now);
            Some(report)
        } else {
            None
        }
    }
}

/// Engine-wide counters beside the per-cycle timing.
#[derive(Clone, Copy, Debug, PartialEq, Eq, Structural)]
pub struct Metrics {
    pub engine_start: u64,
    pub cycle: Cycle,
    pub total_frames: u64,
}

impl Metrics {
    /// Fresh metrics beginning at `now`.
    pub fn new(now: u64) -> (r: Metrics)
        ensures
            r.engine_start == now,
            r.cycle == (Cycle {
                start: now,
                frame_start: now,
                slowest_render: 0u64,
                fastest_render: FASTEST_RENDER_SEED_MICROS,
                total_render: 0u64,
                total_frames: 0u32,
            }),
            r.total_frames == 0,
    {
        Metrics { engine_start: now, cycle: Cycle::new(now), total_frames: 0 }
    }

    /// Counts one rendered frame.
    pub fn count_frame(&mut self)
        ensures
            *final(self) == (Metrics {
                total_frames: sat_add64(old(self).total_frames, 1),
                ..*old(self)
            }),
    {
        if self.total_frames < u64::MAX {
            self.total_frames = self.total_frames + 1;
        }
    }
}

} // verus!
