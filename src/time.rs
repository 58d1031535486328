use vstd::prelude::*;
use crate::registry::{Hardware, HardwareRegistry};

verus! {

/// Length of one overflow period of the interrupt timer, in nanoseconds: a second
/// divided by 256.
pub const TICK_NANOS: u64 = 3906250;

/// Elapsed time, in nanoseconds, after `ticks` timer overflows.
pub open spec fn elapsed_spec(ticks: nat) -> nat {
    ticks * 3906250
}

/// Converts a count of timer overflows into elapsed nanoseconds.
pub fn elapsed_nanos(ticks: u32) -> (r: u64)
    ensures
        r as nat == elapsed_spec(ticks as nat),
{
    ticks as u64 * TICK_NANOS
}

/// The count of interrupt-timer overflows since start-up.
#[derive(Clone, Copy, PartialEq, Eq, Structural, Debug)]
pub struct InterruptCounter {
    pub count: u32,
}

impl InterruptCounter {
    /// A counter at zero.
    pub fn new() -> (r: Self)
        ensures
            r.count == 0,
    {
        InterruptCounter { count: 0 }
    }

    /// Records one overflow; the count wraps at the top of its range.
    pub fn tick(&mut self)
        ensures
            final(self).count as int == (old(self).count as int + 1) % 0x1_0000_0000,
    {
        self.count = self.count.wrapping_add(1);
    }

    /// Elapsed time, in nanoseconds, at the current count.
    pub fn elapsed_nanos(&self) -> (r: u64)
        ensures
            r as nat == elapsed_spec(self.count as nat),
    {
        elapsed_nanos(self.count)
    }
}

/// Elapsed time never goes back while the counter has not wrapped.
pub proof fn lemma_elapsed_monotonic(a: nat, b: nat)
    requires
        a <= b,
    ensures
        elapsed_spec(a) <= elapsed_spec(b),
{
    assert(a * 3906250 <= b * 3906250) by (nonlinear_arith)
        requires
            a <= b,
    ;
}

/// Clock divider of a hardware timer.
#[derive(Clone, Copy, PartialEq, Eq, Structural, Debug)]
pub enum Divider {
    Divider1,
    Divider64,
    Divider256,
    Divider1024,
}

/// Settings of one hardware timer.
#[derive(Clone, Copy, PartialEq, Eq, Structural, Debug)]
pub struct TimerConfig {
    pub enabled: bool,
    pub divider: Divider,
    pub overflow_amount: u16,
    pub interrupt: bool,
}

/// The settings of the timer that drives the clock: running at full speed, raising
/// an interrupt on each overflow of its whole range.
pub open spec fn clock_timer_spec() -> TimerConfig {
    TimerConfig { enabled: true, divider: Divider::Divider1, overflow_amount: 0xffff, interrupt: true }
}

/// Sets up two hardware timers: one drives the clock, the other runs free.
#[derive(Clone, Copy, PartialEq, Eq, Structural, Debug, Default)]
pub struct AgbTimePlugin;

impl AgbTimePlugin {
    /// Takes the timer handle out of `registry` and returns the settings of the timer
    /// that drives the clock; `None` when the handle was already taken.
    pub fn finish(&self, registry: &mut HardwareRegistry) -> (r: Option<TimerConfig>)
        ensures
            final(registry)@ == old(registry)@.remove(Hardware::Timers),
            r.is_some() == old(registry)@.contains(Hardware::Timers),
            r.is_some() ==> r.unwrap() == clock_timer_spec(),
    {
        if !registry.take(Hardware::Timers) {
            return None;
        }
        Some(TimerConfig { enabled: true, divider: Divider::Divider1, overflow_amount: u16::MAX, interrupt: true })
    }
}

} // verus!
