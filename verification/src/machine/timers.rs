//! The delay and sound timers, which count down at 60 Hz.

use vstd::prelude::*;
use crate::machine::CHIP8;
use crate::model::tick_spec;

verus! {

/// The rate at which both timers count down, in ticks per second.
pub const TIMER_HZ: u8 = 60;

/// Whether a tick is due once `elapsed_ms` milliseconds have passed since the
/// last one: the time must exceed the whole milliseconds of one period.
pub fn timer_due(elapsed_ms: u128) -> (due: bool)
    ensures
        due == (elapsed_ms > 1000int / TIMER_HZ as int),
{
    elapsed_ms > 1000 / (TIMER_HZ as u128)
}

impl CHIP8 {
    /// One tick: each timer above zero goes down by one, and one at zero
    /// stays there. Nothing else changes.
    pub fn tick_timers(&mut self)
        ensures
            final(self)@ == tick_spec(old(self)@),
            final(self)@.wf(),
    {
        proof {
            use_type_invariant(&*self);
        }
        if self.dt > 0 {
            self.dt -= 1;
        }
        if self.st > 0 {
            self.st -= 1;
        }
    }
}

} // verus!
