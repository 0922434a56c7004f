//! Fixed-period tick counters: the spawn scheduler ("create one entity
//! every N update ticks") and the sprite-frame cycler the games share.

use vstd::prelude::*;

verus! {

/// A fixed-period scheduler. `tick` reports true exactly once every
/// `period` calls, and the counter resets on that call.
#[derive(Clone, Copy, PartialEq, Eq, Structural, Debug)]
pub struct SpawnTimer {
    pub period: u32,
    pub count: u32,
}

/// The counter always stays below the period between ticks.
pub open spec fn timer_wf(t: SpawnTimer) -> bool {
    1 <= t.period && t.count < t.period
}

/// How many of the next `n` ticks of a timer with period `p` and
/// current count `c` fire.
pub open spec fn spec_fires(c: int, p: int, n: nat) -> int
    decreases n,
{
    if n == 0 {
        0
    } else if c + 1 >= p {
        1 + spec_fires(0, p, (n - 1) as nat)
    } else {
        spec_fires(c + 1, p, (n - 1) as nat)
    }
}

impl SpawnTimer {
    pub fn new(period: u32) -> (t: SpawnTimer)
        requires
            1 <= period,
        ensures
            timer_wf(t),
            t.period == period,
            t.count == 0,
    {
        SpawnTimer { period, count: 0 }
    }

    /// Advance the counter by one tick; report whether the period was
    /// reached, in which case the counter starts over.
    pub fn tick(&mut self) -> (fired: bool)
        requires
            timer_wf(*old(self)),
        ensures
            timer_wf(*final(self)),
            final(self).period == old(self).period,
            fired == (old(self).count + 1 >= old(self).period),
            final(self).count == if fired {
                0int
            } else {
                old(self).count + 1
            },
    {
        self.count = self.count + 1;
        if self.count >= self.period {
            self.count = 0;
            true
        } else {
            false
        }
    }
}

/// While the count stays strictly below the period, no tick fires.
proof fn lemma_no_fire_below_period(c: int, p: int, n: nat)
    requires
        0 <= c < p,
        n <= p - 1 - c,
    ensures
        spec_fires(c, p, n) == 0,
    decreases n,
{
    if n > 0 {
        lemma_no_fire_below_period(c + 1, p, (n - 1) as nat);
    }
}

/// Spawn cadence: a fresh timer with period `p` fires exactly once over
/// exactly `p` ticks — so a spawner gated by it creates exactly one
/// entity in that window.
pub proof fn lemma_spawn_cadence(p: int)
    requires
        1 <= p,
    ensures
        spec_fires(0, p, p as nat) == 1,
{
    lemma_fires_once_from(0, p);
}

/// From any mid-window count, the remainder of the window fires exactly
/// once.
proof fn lemma_fires_once_from(c: int, p: int)
    requires
        0 <= c < p,
    ensures
        spec_fires(c, p, (p - c) as nat) == 1,
    decreases p - c,
{
    if c + 1 >= p {
        assert(spec_fires(0, p, (p - c - 1) as nat) == 0) by {
            lemma_no_fire_below_period(0, p, (p - c - 1) as nat);
        }
    } else {
        lemma_fires_once_from(c + 1, p);
    }
}

/// A sprite-animation counter: every `period + 1` ticks the current
/// frame advances cyclically through `frames` frames.
#[derive(Clone, Copy, PartialEq, Eq, Structural, Debug)]
pub struct FrameCycle {
    pub frames: u32,
    pub period: u32,
    pub count: u32,
    pub current: u32,
}

pub open spec fn cycle_wf(f: FrameCycle) -> bool {
    1 <= f.frames && f.current < f.frames && f.count <= f.period
}

impl FrameCycle {
    pub fn new(frames: u32, period: u32) -> (f: FrameCycle)
        requires
            1 <= frames,
        ensures
            cycle_wf(f),
            f.frames == frames,
            f.period == period,
            f.count == 0,
            f.current == 0,
    {
        FrameCycle { frames, period, count: 0, current: 0 }
    }

    /// One display refresh: advance the frame once the hold period has
    /// elapsed, wrapping back to the first frame after the last.
    pub fn tick(&mut self)
        requires
            cycle_wf(*old(self)),
        ensures
            cycle_wf(*final(self)),
            final(self).frames == old(self).frames,
            final(self).period == old(self).period,
            old(self).count < old(self).period ==> final(self).count == old(self).count + 1
                && final(self).current == old(self).current,
            old(self).count >= old(self).period ==> final(self).count == 0
                && final(self).current == (if old(self).current + 1 == old(self).frames {
                0int
            } else {
                old(self).current + 1
            }),
    {
        if self.count < self.period {
            self.count = self.count + 1;
            return ;
        }
        self.count = 0;
        self.current = self.current + 1;
        if self.current >= self.frames {
            self.current = 0;
        }
    }
}

} // verus!
