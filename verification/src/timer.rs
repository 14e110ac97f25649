//! Timer: DIV always ticks at 16384 Hz; TIMA ticks at the rate TAC selects
//! and reloads from TMA on overflow, raising the timer interrupt.

use crate::ic;
use crate::ic::Irq;
use vstd::prelude::*;

verus! {

pub struct Timer {
    div: u8,
    div_clocks: usize,
    tim: u8,
    tim_clocks: usize,
    tim_load: u8,
    ctrl: u8,
}

/// T-cycles between two TIMA increments for a TAC selection:
/// 4096 Hz, 262144 Hz, 65536 Hz, 16384 Hz.
pub open spec fn tac_period(ctrl: u8) -> usize {
    if ctrl & 0x3 == 0 {
        1024
    } else if ctrl & 0x3 == 1 {
        16
    } else if ctrl & 0x3 == 2 {
        64
    } else {
        256
    }
}

/// T-cycles between two DIV increments (16384 Hz).
pub const DIV_PERIOD: usize = 256;

/// Raising the timer bit in a request mask twice is the same as once.
proof fn lemma_timer_bit_idempotent(q: u8)
    ensures
        (q | 0x04) | 0x04 == q | 0x04,
{
    assert((q | 0x04) | 0x04 == q | 0x04) by (bit_vector);
}

impl Timer {
    /// The TIMA counter.
    pub closed spec fn tim_spec(&self) -> u8 {
        self.tim
    }

    /// T-cycles left until the next TIMA increment.
    pub closed spec fn tim_clocks_spec(&self) -> usize {
        self.tim_clocks
    }

    /// The TMA reload value.
    pub closed spec fn tim_load_spec(&self) -> u8 {
        self.tim_load
    }

    /// The TAC register.
    pub closed spec fn ctrl_spec(&self) -> u8 {
        self.ctrl
    }

    /// The DIV counter.
    pub closed spec fn div_spec(&self) -> u8 {
        self.div
    }

    /// T-cycles left until the next DIV increment.
    pub closed spec fn div_clocks_spec(&self) -> usize {
        self.div_clocks
    }

    pub open spec fn wf(&self) -> bool {
        &&& self.div_clocks_spec() <= DIV_PERIOD
        &&& self.tim_clocks_spec() <= 1024
    }

    pub fn new() -> (r: Timer)
        ensures
            r.wf(),
            r.tim_spec() == 0,
            r.div_spec() == 0,
            r.ctrl_spec() == 0,
    {
        Timer { div: 0, div_clocks: DIV_PERIOD, tim: 0, tim_clocks: 1024, tim_load: 0, ctrl: 0 }
    }

    /// Advance the timer by `time` T-cycles.
    ///
    /// DIV increments when its countdown elapses.  When TAC bit 2 is set,
    /// TIMA increments every `tac_period` cycles; on overflow it reloads
    /// from TMA and raises the timer interrupt.
    pub fn step(&mut self, time: usize, irq: &mut Irq)
        requires
            old(self).wf(),
            1 <= time <= 256,
        ensures
            final(self).wf(),
            final(self).ctrl_spec() == old(self).ctrl_spec(),
            final(self).tim_load_spec() == old(self).tim_load_spec(),
            final(irq).enable == old(irq).enable,
            // DIV counts down and wraps on its own fixed period.
            final(self).div_spec() == if old(self).div_clocks_spec() < time {
                old(self).div_spec().wrapping_add(1)
            } else {
                old(self).div_spec()
            },
            final(self).div_clocks_spec() == if old(self).div_clocks_spec() < time {
                (DIV_PERIOD - (time - old(self).div_clocks_spec())) as usize
            } else {
                (old(self).div_clocks_spec() - time) as usize
            },
            // TIMA is frozen while TAC bit 2 is clear.
            old(self).ctrl_spec() & 0x04 == 0 ==> {
                &&& final(self).tim_spec() == old(self).tim_spec()
                &&& final(self).tim_clocks_spec() == old(self).tim_clocks_spec()
                &&& final(irq).request == old(irq).request
            },
            // No increment is due yet: only the countdown moves.
            old(self).ctrl_spec() & 0x04 != 0 && time <= old(self).tim_clocks_spec() ==> {
                &&& final(self).tim_spec() == old(self).tim_spec()
                &&& final(self).tim_clocks_spec() == old(self).tim_clocks_spec() - time
                &&& final(irq).request == old(irq).request
            },
            // Exactly one increment is due and TIMA does not overflow.
            (old(self).ctrl_spec() & 0x04 != 0 && old(self).tim_clocks_spec() < time
                && time - old(self).tim_clocks_spec() <= tac_period(old(self).ctrl_spec())
                && old(self).tim_spec() < 0xff) ==> {
                &&& final(self).tim_spec() == old(self).tim_spec() + 1
                &&& final(self).tim_clocks_spec() == tac_period(old(self).ctrl_spec())
                    - (time - old(self).tim_clocks_spec())
                &&& final(irq).request == old(irq).request
            },
            // Exactly one increment is due and TIMA overflows: reload from
            // TMA and raise the timer interrupt.
            (old(self).ctrl_spec() & 0x04 != 0 && old(self).tim_clocks_spec() < time
                && time - old(self).tim_clocks_spec() <= tac_period(old(self).ctrl_spec())
                && old(self).tim_spec() == 0xff) ==> {
                &&& final(self).tim_spec() == old(self).tim_load_spec()
                &&& final(irq).request == old(irq).request | ic::INT_TIMER
            },
    {
        if self.div_clocks < time {
            self.div = self.div.wrapping_add(1);
            let rem = time - self.div_clocks;
            self.div_clocks = DIV_PERIOD - rem;
        } else {
            self.div_clocks = self.div_clocks - time;
        }

        if self.ctrl & 0x04 == 0 {
            return;
        }

        if self.tim_clocks < time {
            let mut rem = time - self.tim_clocks;
            let period = self.tac_period_exec();
            let ghost gdiv = self.div;
            let ghost gdivc = self.div_clocks;
            self.bump(irq);
            self.tim_clocks = period;
            if rem <= period {
                self.tim_clocks = period - rem;
            } else {
                proof {
                    lemma_timer_bit_idempotent(old(irq).request);
                }
                while rem > period
                    invariant
                        1 <= rem,
                        16 <= period <= 1024,
                        period == tac_period(self.ctrl_spec()),
                        self.tim_clocks == period,
                        self.div_clocks <= DIV_PERIOD,
                        self.ctrl == old(self).ctrl,
                        self.tim_load == old(self).tim_load,
                        self.div == gdiv,
                        self.div_clocks == gdivc,
                        irq.enable == old(irq).enable,
                        irq.request == old(irq).request || irq.request == (old(irq).request
                            | ic::INT_TIMER),
                    decreases rem,
                {
                    rem = rem - period;
                    self.bump(irq);
                    self.tim_clocks = period;
                    proof {
                        lemma_timer_bit_idempotent(old(irq).request);
                    }
                }
                self.tim_clocks = self.tim_clocks - rem;
            }
        } else {
            self.tim_clocks = self.tim_clocks - time;
        }
    }

    /// One TIMA tick: increment, or reload from TMA and raise the timer
    /// interrupt on overflow.
    fn bump(&mut self, irq: &mut Irq)
        ensures
            final(self).tim == if old(self).tim == 0xff {
                old(self).tim_load
            } else {
                (old(self).tim + 1) as u8
            },
            final(self).div == old(self).div,
            final(self).div_clocks == old(self).div_clocks,
            final(self).tim_clocks == old(self).tim_clocks,
            final(self).tim_load == old(self).tim_load,
            final(self).ctrl == old(self).ctrl,
            final(irq).enable == old(irq).enable,
            final(irq).request == if old(self).tim == 0xff {
                old(irq).request | ic::INT_TIMER
            } else {
                old(irq).request
            },
    {
        let of = self.tim == 0xff;
        self.tim = self.tim.wrapping_add(1);
        if of {
            self.tim = self.tim_load;
            irq.timer(true);
        }
    }

    fn tac_period_exec(&self) -> (r: usize)
        ensures
            r == tac_period(self.ctrl_spec()),
    {
        let sel = self.ctrl & 0x3;
        if sel == 0 {
            1024
        } else if sel == 1 {
            16
        } else if sel == 2 {
            64
        } else {
            256
        }
    }

    /// Read one of the timer registers (0xff04-0xff07).
    pub fn on_read(&self, addr: u16) -> (r: u8)
        requires
            0xff04 <= addr <= 0xff07,
        ensures
            addr == 0xff04 ==> r == self.div_spec(),
            addr == 0xff05 ==> r == self.tim_spec(),
            addr == 0xff06 ==> r == self.tim_load_spec(),
            addr == 0xff07 ==> r == self.ctrl_spec(),
    {
        if addr == 0xff04 {
            self.div
        } else if addr == 0xff05 {
            self.tim
        } else if addr == 0xff06 {
            self.tim_load
        } else {
            self.ctrl
        }
    }

    /// Write one of the timer registers (0xff04-0xff07).  Any write to
    /// DIV clears it; enabling the timer through TAC restarts the TIMA
    /// countdown.
    pub fn on_write(&mut self, addr: u16, value: u8)
        requires
            old(self).wf(),
            0xff04 <= addr <= 0xff07,
        ensures
            final(self).wf(),
            addr == 0xff04 ==> {
                &&& final(self).div_spec() == 0
                &&& final(self).tim_spec() == old(self).tim_spec()
                &&& final(self).tim_load_spec() == old(self).tim_load_spec()
                &&& final(self).ctrl_spec() == old(self).ctrl_spec()
                &&& final(self).tim_clocks_spec() == old(self).tim_clocks_spec()
            },
            addr == 0xff05 ==> {
                &&& final(self).tim_spec() == value
                &&& final(self).div_spec() == old(self).div_spec()
                &&& final(self).tim_load_spec() == old(self).tim_load_spec()
                &&& final(self).ctrl_spec() == old(self).ctrl_spec()
                &&& final(self).tim_clocks_spec() == old(self).tim_clocks_spec()
            },
            addr == 0xff06 ==> {
                &&& final(self).tim_load_spec() == value
                &&& final(self).tim_spec() == old(self).tim_spec()
                &&& final(self).div_spec() == old(self).div_spec()
                &&& final(self).ctrl_spec() == old(self).ctrl_spec()
                &&& final(self).tim_clocks_spec() == old(self).tim_clocks_spec()
            },
            addr == 0xff07 ==> {
                &&& final(self).ctrl_spec() == value
                &&& final(self).tim_spec() == old(self).tim_spec()
                &&& final(self).div_spec() == old(self).div_spec()
                &&& final(self).tim_load_spec() == old(self).tim_load_spec()
                &&& (old(self).ctrl_spec() & 4 == 0 && value & 4 != 0
                    ==> final(self).tim_clocks_spec() == tac_period(value))
            },
    {
        if addr == 0xff04 {
            self.div = 0;
        } else if addr == 0xff05 {
            self.tim = value;
        } else if addr == 0xff06 {
            self.tim_load = value;
        } else {
            let old_ctrl = self.ctrl;
            self.ctrl = value;
            if old_ctrl & 4 == 0 && value & 4 != 0 {
                self.tim_clocks = self.tac_period_exec();
            }
        }
    }
}

} // verus!
