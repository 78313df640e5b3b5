//! Pacing and telemetry. A frame counter is bumped once per displayed frame
//! and folded into a read-only frames-per-second value once a second; a rate
//! limit holds the configured duration of one frame as nanoseconds, and the
//! pacing stage sleeps out the remainder of that duration before releasing
//! the next frame. The callers share these cells across threads; every
//! transition here is a plain value update with an exact contract.

use vstd::prelude::*;

use crate::util::spec_tick_nanos;
use crate::util::tick_dur;

verus! {

/// The write side of the frame counter: one increment per displayed frame.
#[derive(Clone, Copy, Debug)]
pub struct FpsUpdater {
    pub inner: u8,
}

impl Default for FpsUpdater {
    fn default() -> (r: Self)
        ensures
            r.inner == 0,
    {
        FpsUpdater { inner: 0 }
    }
}

impl FpsUpdater {
    /// Count one displayed frame; the counter saturates rather than wraps.
    pub fn incr(&mut self)
        ensures
            final(self).inner == if old(self).inner < 255 {
                old(self).inner + 1
            } else {
                255int
            },
    {
        self.inner = self.inner.saturating_add(1);
    }

    /// The once-a-second fold: publish the count gathered since the last fold
    /// as the current frames-per-second value, and start counting afresh.
    pub fn upt(&mut self, rhs: &mut Fps)
        ensures
            final(rhs).inner == old(self).inner,
            final(self).inner == 0,
    {
        rhs.inner = self.inner;
        self.inner = 0;
    }
}

/// The read side of the frame counter: the frames displayed during the last
/// whole second.
#[derive(Clone, Copy, Debug)]
pub struct Fps {
    pub inner: u8,
}

impl Default for Fps {
    fn default() -> (r: Self)
        ensures
            r.inner == 0,
    {
        Fps { inner: 0 }
    }
}

impl Fps {
    pub fn get(&self) -> (r: u8)
        ensures
            r == self.inner,
    {
        self.inner
    }
}

/// The configured duration of one frame, in nanoseconds; zero means
/// unlimited.
#[derive(Clone, Copy, Debug)]
pub struct Limit {
    pub nanos: u64,
}

impl Default for Limit {
    fn default() -> (r: Self)
        ensures
            r.nanos == 0,
    {
        Limit { nanos: 0 }
    }
}

impl Limit {
    pub fn get(&self) -> (r: u64)
        ensures
            r == self.nanos,
    {
        self.nanos
    }

    /// Derive the per-frame duration from a target rate; a rate of zero means
    /// unlimited.
    pub fn set(&mut self, fps: u8)
        ensures
            final(self).nanos == spec_tick_nanos(fps as u32),
    {
        self.nanos = tick_dur(fps as u32);
    }
}

/// How long the pacing stage still has to wait before releasing the next
/// frame, given the configured frame duration and the time already elapsed
/// since the previous release.
pub open spec fn spec_pace_delay(limit: u64, elapsed: u64) -> u64 {
    if elapsed >= limit {
        0u64
    } else {
        (limit - elapsed) as u64
    }
}

pub fn pace_delay(limit: u64, elapsed: u64) -> (rem: u64)
    ensures
        rem == spec_pace_delay(limit, elapsed),
        elapsed + rem >= limit,
{
    if elapsed >= limit {
        0
    } else {
        limit - elapsed
    }
}

/// Pacing throttles to the configured rate: for any positive target rate, the
/// time elapsed since the previous release plus the delay still enforced is
/// at least one full tick, so releases are never spaced closer than the tick
/// duration.
pub proof fn lemma_pacing_spacing(rate: u32, elapsed: u64)
    requires
        rate > 0,
    ensures
        elapsed + spec_pace_delay(spec_tick_nanos(rate), elapsed) >= spec_tick_nanos(rate),
{
}

/// Apply a newly configured target rate: record it, derive the per-frame
/// duration, and report whether the limited/unlimited mode changed — only
/// such a change obliges the caller to reload its render state.
pub fn set_fps_limit_fn(limit: &mut u8, limit_dur: &mut Limit, target: u8) -> (reload: bool)
    ensures
        reload == ((old(limit_dur).nanos == 0) != (target == 0)),
        *final(limit) == target,
        final(limit_dur).nanos == spec_tick_nanos(target as u32),
{
    let old_unlimited = limit_dur.get() == 0;
    let new_unlimited = target == 0;
    let reload = old_unlimited != new_unlimited;
    *limit = target;
    limit_dur.set(target);
    reload
}

} // verus!
