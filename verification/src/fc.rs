//! CPU frequency controller: compares the emulated cycle rate against the
//! target frequency using the host clock and adjusts a delay count that
//! the host spins between instructions.

use crate::system::Config;
use vstd::prelude::*;

verus! {

pub struct FreqControl {
    last: u64,
    cycles: u64,
    sample: u64,
    delay: u64,
    delay_unit: u64,
    target_freq: u64,
}

impl FreqControl {
    pub closed spec fn delay_spec(&self) -> u64 {
        self.delay
    }

    pub closed spec fn cycles_spec(&self) -> u64 {
        self.cycles
    }

    pub closed spec fn sample_spec(&self) -> u64 {
        self.sample
    }

    pub closed spec fn last_spec(&self) -> u64 {
        self.last
    }

    pub open spec fn wf(&self) -> bool {
        self.sample_spec() <= 0x1_0000_0000
    }

    pub fn new(cfg: &Config) -> (r: FreqControl)
        requires
            cfg.sample <= 0x1_0000_0000,
        ensures
            r.wf(),
            r.delay_spec() == 0,
    {
        FreqControl {
            last: 0,
            cycles: 0,
            sample: cfg.sample,
            delay: 0,
            delay_unit: cfg.delay_unit,
            target_freq: cfg.freq,
        }
    }

    /// Restart rate measurement at the host time `now` (microseconds).
    pub fn reset(&mut self, now: u64)
        requires
            old(self).wf(),
        ensures
            final(self).wf(),
            final(self).last_spec() == now,
            final(self).delay_spec() == old(self).delay_spec(),
    {
        self.last = now;
    }

    /// Account `time` emulated cycles at host time `now` (microseconds).
    /// Once a sampling window completes, compare the achieved frequency
    /// with the target and move the delay count one unit up or down;
    /// the host spins `delay()` iterations after each instruction.
    pub fn adjust(&mut self, time: usize, now: u64)
        requires
            old(self).wf(),
            time <= 256,
        ensures
            final(self).wf(),
    {
        self.cycles = if self.cycles <= u64::MAX - (time as u64) {
            self.cycles + time as u64
        } else {
            self.cycles
        };

        if self.cycles > self.sample {
            self.cycles = self.cycles - self.sample;
            if now <= self.last || now - self.last == 0 {
                // the host clock stalled or went backwards
                self.last = now;
                return ;
            }
            let diff = now - self.last;
            // achieved frequency in cycles per second
            let freq = self.sample * 1000000 / diff;
            self.delay = if freq > self.target_freq {
                if self.delay <= u64::MAX - self.delay_unit {
                    self.delay + self.delay_unit
                } else {
                    u64::MAX
                }
            } else {
                if self.delay >= self.delay_unit {
                    self.delay - self.delay_unit
                } else {
                    0
                }
            };
            self.last = now;
        }
    }

    /// The number of idle iterations the host should spin.
    pub fn delay(&self) -> (r: u64)
        ensures
            r == self.delay_spec(),
    {
        self.delay
    }
}

} // verus!
