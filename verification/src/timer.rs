//! A one-shot countdown in whole milliseconds, as the menus use it for key
//! repeat cooldowns and message lifetimes.

use vstd::prelude::*;

verus! {

/// Runs from zero up to its duration and then stays finished until reset.
#[derive(Clone, Copy, Debug, PartialEq, Eq, Structural)]
pub struct OnceTimer {
    pub duration_ms: u32,
    pub elapsed_ms: u32,
}

impl OnceTimer {
    /// The elapsed time never passes the duration.
    pub open spec fn wf(&self) -> bool {
        self.elapsed_ms <= self.duration_ms
    }

    pub open spec fn is_finished(&self) -> bool {
        self.elapsed_ms >= self.duration_ms
    }

    /// A timer of `duration_ms` that has just started.
    pub fn new(duration_ms: u32) -> (t: Self)
        ensures
            t.wf(),
            t.duration_ms == duration_ms,
            t.elapsed_ms == 0,
    {
        OnceTimer { duration_ms, elapsed_ms: 0 }
    }

    /// Advances the timer by `delta_ms`, stopping at the duration.
    pub fn tick(&mut self, delta_ms: u32)
        requires
            old(self).wf(),
        ensures
            final(self).wf(),
            final(self).duration_ms == old(self).duration_ms,
            final(self).elapsed_ms == if old(self).elapsed_ms + delta_ms >= old(self).duration_ms {
                old(self).duration_ms as int
            } else {
                old(self).elapsed_ms + delta_ms
            },
    {
        if delta_ms >= self.duration_ms - self.elapsed_ms {
            self.elapsed_ms = self.duration_ms;
        } else {
            self.elapsed_ms = self.elapsed_ms + delta_ms;
        }
    }

    pub fn finished(&self) -> (b: bool)
        ensures
            b == self.is_finished(),
    {
        self.elapsed_ms >= self.duration_ms
    }

    /// Starts the timer over.
    pub fn reset(&mut self)
        ensures
            final(self).duration_ms == old(self).duration_ms,
            final(self).elapsed_ms == 0,
            final(self).wf(),
    {
        self.elapsed_ms = 0;
    }
}

} // verus!
