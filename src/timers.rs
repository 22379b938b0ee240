//! The delay and sound countdown timers.
use vstd::prelude::*;

verus! {

/// The two countdown counters; the view is (delay, sound).
pub struct TimerPair {
    delay: u8,
    sound: u8,
}

impl View for TimerPair {
    type V = (u8, u8);

    closed spec fn view(&self) -> (u8, u8) {
        (self.delay, self.sound)
    }
}

/// One step down, stopping at zero.
pub open spec fn count_down(t: u8) -> u8 {
    if t == 0 {
        0
    } else {
        (t - 1) as u8
    }
}

impl TimerPair {
    /// Both timers at zero.
    pub fn new() -> (t: TimerPair)
        ensures
            t@ == (0u8, 0u8),
    {
        TimerPair { delay: 0, sound: 0 }
    }

    /// The delay timer.
    pub fn delay(&self) -> (r: u8)
        ensures
            r == self@.0,
    {
        self.delay
    }

    /// The sound timer.
    pub fn sound(&self) -> (r: u8)
        ensures
            r == self@.1,
    {
        self.sound
    }

    /// Sets the delay timer.
    pub fn set_delay(&mut self, value: u8)
        ensures
            final(self)@ == (value, old(self)@.1),
    {
        self.delay = value;
    }

    /// Sets the sound timer.
    pub fn set_sound(&mut self, value: u8)
        ensures
            final(self)@ == (old(self)@.0, value),
    {
        self.sound = value;
    }

    /// Counts both timers down by one, stopping at zero.
    pub fn tick(&mut self)
        ensures
            final(self)@ == (count_down(old(self)@.0), count_down(old(self)@.1)),
    {
        if self.delay > 0 {
            self.delay = self.delay - 1;
        }
        if self.sound > 0 {
            self.sound = self.sound - 1;
        }
    }
}

} // verus!
