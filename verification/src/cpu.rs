//! Sharp SM83 CPU: register file, flag register, stack, instruction fetch
//! and interrupt dispatch.  The decoder lives in the `inst` module.
//!
//! Every bus access goes through `step`, which advances the peripherals in
//! lockstep and charges the access to the instruction's cycle count.

use crate::mmu::StepData;
use vstd::prelude::*;

verus! {

/// 16-bit address arithmetic modulo the address-space size.
pub open spec fn wadd16(a: u16, k: u16) -> u16 {
    vstd::wrapping::u16_specs::wrapping_add(a, k)
}

/// 16-bit address arithmetic modulo the address-space size.
pub open spec fn wsub16(a: u16, k: u16) -> u16 {
    vstd::wrapping::u16_specs::wrapping_sub(a, k)
}

/// The little-endian 16-bit value stored at `a` in `m`.
pub open spec fn mem16(m: Seq<u8>, a: u16) -> u16 {
    (m[a as int] + m[wadd16(a, 1) as int] * 0x100) as u16
}

/// Memory after a 16-bit little-endian store of `v` at `a`.
pub open spec fn store16(m: Seq<u8>, a: u16, v: u16) -> Seq<u8> {
    m.update(a as int, (v & 0xff) as u8).update(wadd16(a, 1) as int, (v >> 8) as u8)
}

/// Memory and stack pointer after a push of `v`.
pub open spec fn push_mem_spec(m: Seq<u8>, sp: u16, v: u16) -> Seq<u8> {
    store16(m, wsub16(sp, 2), v)
}

/// Interface through which the CPU reaches memory and peripherals.
///
/// `obeys_mem` says whether the implementation behaves as a plain byte
/// array (true of the test memory, not of the full bus, whose reads and
/// writes have side effects); contracts are exact under that assumption
/// and silent otherwise.
pub trait Sys: Sized {
    /// Whether this bus is a plain byte array with no side effects.
    spec fn obeys_mem(&self) -> bool;

    /// The byte-array contents, meaningful when `obeys_mem` holds.
    spec fn mem(&self) -> Seq<u8>;

    /// The bus's internal validity, established by its constructor and
    /// preserved by every operation.
    spec fn inv(&self) -> bool;

    /// The vector of the highest-priority enabled-and-pending interrupt,
    /// if any.
    spec fn pending_vec(&self) -> Option<u8>;

    /// Get the interrupt vector address without clearing the request.
    fn peek_int_vec(&mut self) -> (r: Option<u8>)
        requires
            old(self).inv(),
        ensures
            final(self).inv(),
            *final(self) == *old(self),
            r == old(self).pending_vec(),
    ;

    /// Get the interrupt vector address, clearing the request, if any.
    fn pop_int_vec(&mut self) -> (r: Option<u8>)
        requires
            old(self).inv(),
        ensures
            final(self).inv(),
            r == old(self).pending_vec(),
            r is None ==> *final(self) == *old(self),
            old(self).obeys_mem() ==> *final(self) == *old(self),
    ;

    /// Read one byte from the bus.
    fn get8(&mut self, addr: u16) -> (r: u8)
        requires
            old(self).inv(),
        ensures
            final(self).inv(),
            old(self).obeys_mem() ==> {
                &&& *final(self) == *old(self)
                &&& old(self).mem().len() == 0x10000
                &&& r == old(self).mem()[addr as int]
            },
    ;

    /// Write one byte to the bus.
    fn set8(&mut self, addr: u16, v: u8)
        requires
            old(self).inv(),
        ensures
            final(self).inv(),
            old(self).obeys_mem() ==> {
                &&& final(self).obeys_mem()
                &&& old(self).mem().len() == 0x10000
                &&& final(self).mem() == old(self).mem().update(addr as int, v)
                &&& final(self).pending_vec() == old(self).pending_vec()
            },
    ;

    /// Read a little-endian 16-bit value; the second byte wraps around
    /// the top of the address space.
    fn get16(&mut self, addr: u16) -> (r: u16)
        requires
            old(self).inv(),
        ensures
            final(self).inv(),
            old(self).obeys_mem() ==> {
                &&& *final(self) == *old(self)
                &&& old(self).mem().len() == 0x10000
                &&& r == mem16(old(self).mem(), addr)
            },
    {
        let l = self.get8(addr);
        let h = self.get8(addr.wrapping_add(1));
        proof {
            crate::alu::lemma_hi_lo(h, l);
        }
        (h as u16) << 8 | l as u16
    }

    /// Write a little-endian 16-bit value; the second byte wraps around
    /// the top of the address space.
    fn set16(&mut self, addr: u16, v: u16)
        requires
            old(self).inv(),
        ensures
            final(self).inv(),
            old(self).obeys_mem() ==> {
                &&& final(self).obeys_mem()
                &&& old(self).mem().len() == 0x10000
                &&& final(self).mem() == store16(old(self).mem(), addr, v)
                &&& final(self).pending_vec() == old(self).pending_vec()
            },
    {
        self.set8(addr, v as u8);
        self.set8(addr.wrapping_add(1), (v >> 8) as u8);
        proof {
            assert((v as u8) == (v & 0xff) as u8) by (bit_vector);
        }
    }

    /// Advance the whole machine by the given number of T-cycles.
    fn step(&mut self, cycles: usize) -> (r: StepData)
        requires
            old(self).inv(),
            1 <= cycles <= 256,
        ensures
            final(self).inv(),
            old(self).obeys_mem() ==> *final(self) == *old(self) && r.line_to_draw is None,
    ;
}

/// The architectural CPU state.
pub struct CpuState {
    pub a: u8,
    pub b: u8,
    pub c: u8,
    pub d: u8,
    pub e: u8,
    pub f: u8,
    pub h: u8,
    pub l: u8,
    pub pc: u16,
    pub sp: u16,
    /// Interrupt master enable.
    pub ime: bool,
    /// Countdown until EI takes effect.
    pub ei_delay: usize,
    /// Countdown until DI takes effect.
    pub di_delay: usize,
    pub halt: bool,
    /// Set when HALT ran with interrupts masked but pending: the next
    /// fetch skips one PC increment.
    pub halt_bug: bool,
    /// Set when an illegal opcode or STOP froze the CPU.
    pub fatal: bool,
    /// T-cycles consumed by the instruction in flight.
    pub cycles: usize,
    pub steps_data: StepData,
}

/// The eight 8-bit registers agree.
pub open spec fn same_core_regs(x: CpuState, y: CpuState) -> bool {
    &&& x.a == y.a
    &&& x.b == y.b
    &&& x.c == y.c
    &&& x.d == y.d
    &&& x.e == y.e
    &&& x.f == y.f
    &&& x.h == y.h
    &&& x.l == y.l
}

/// Control state (PC, SP, interrupt and halt latches) agrees.
pub open spec fn same_ctrl(x: CpuState, y: CpuState) -> bool {
    &&& x.pc == y.pc
    &&& x.sp == y.sp
    &&& x.ime == y.ime
    &&& x.ei_delay == y.ei_delay
    &&& x.di_delay == y.di_delay
    &&& x.halt == y.halt
    &&& x.halt_bug == y.halt_bug
    &&& x.fatal == y.fatal
}

impl CpuState {
    /// The power-on CPU state.
    pub fn new() -> (r: CpuState)
        ensures
            r.a == 0 && r.b == 0 && r.c == 0 && r.d == 0 && r.e == 0 && r.f == 0 && r.h == 0
                && r.l == 0,
            r.pc == 0 && r.sp == 0,
            r.ime && r.ei_delay == 0 && r.di_delay == 0,
            !r.halt && !r.halt_bug && !r.fatal,
            r.cycles == 0,
            r.steps_data.line_to_draw is None,
    {
        CpuState {
            a: 0,
            b: 0,
            c: 0,
            d: 0,
            e: 0,
            f: 0,
            h: 0,
            l: 0,
            pc: 0,
            sp: 0,
            ime: true,
            ei_delay: 0,
            di_delay: 0,
            halt: false,
            halt_bug: false,
            fatal: false,
            cycles: 0,
            steps_data: StepData { line_to_draw: None },
        }
    }
}

/// The CPU together with the bus it drives.
pub struct Cpu<T> {
    pub state: CpuState,
    pub sys: T,
}

impl<T: Sys> Cpu<T> {
    /// Step the bus by `cycles` T-cycles, charging them to the current
    /// instruction and collecting any finished scanline.
    pub fn step(&mut self, cycles: usize)
        requires
            old(self).state.cycles + cycles <= usize::MAX,
            old(self).sys.inv(),
            1 <= cycles <= 256,
        ensures
            final(self).sys.inv(),
            final(self).state.cycles == old(self).state.cycles + cycles,
            same_core_regs(final(self).state, old(self).state),
            same_ctrl(final(self).state, old(self).state),
            old(self).sys.obeys_mem() ==> final(self).sys == old(self).sys
                && final(self).state.steps_data == old(self).state.steps_data,
    {
        self.state.cycles = self.state.cycles.wrapping_add(cycles);
        let data = self.sys.step(cycles);
        if let Some(line_to_draw) = data.line_to_draw {
            self.state.steps_data.line_to_draw = Some(line_to_draw);
        }
    }

    /// Gets the value of the `z` flag.
    pub fn get_zf(&self) -> (r: bool)
        ensures
            r == (self.state.f & 0x80 == 0x80),
    {
        self.state.f & 0x80 == 0x80
    }

    /// Gets the value of the `n` flag.
    pub fn get_nf(&self) -> (r: bool)
        ensures
            r == (self.state.f & 0x40 == 0x40),
    {
        self.state.f & 0x40 == 0x40
    }

    /// Gets the value of the `h` flag.
    pub fn get_hf(&self) -> (r: bool)
        ensures
            r == (self.state.f & 0x20 == 0x20),
    {
        self.state.f & 0x20 == 0x20
    }

    /// Gets the value of the `c` flag.
    pub fn get_cf(&self) -> (r: bool)
        ensures
            r == (self.state.f & 0x10 == 0x10),
    {
        self.state.f & 0x10 == 0x10
    }

    /// Updates the value of the `z` flag.
    pub fn set_zf(&mut self, v: bool)
        ensures
            final(self).state == (CpuState {
                f: if v {
                    old(self).state.f | 0x80
                } else {
                    old(self).state.f & 0x7f
                },
                ..old(self).state
            }),
            final(self).sys == old(self).sys,
    {
        if v {
            self.state.f = self.state.f | 0x80;
        } else {
            self.state.f = self.state.f & 0x7f;
        }
    }

    /// Updates the value of the `n` flag.
    pub fn set_nf(&mut self, v: bool)
        ensures
            final(self).state == (CpuState {
                f: if v {
                    old(self).state.f | 0x40
                } else {
                    old(self).state.f & 0xbf
                },
                ..old(self).state
            }),
            final(self).sys == old(self).sys,
    {
        if v {
            self.state.f = self.state.f | 0x40;
        } else {
            self.state.f = self.state.f & 0xbf;
        }
    }

    /// Updates the value of the `h` flag.
    pub fn set_hf(&mut self, v: bool)
        ensures
            final(self).state == (CpuState {
                f: if v {
                    old(self).state.f | 0x20
                } else {
                    old(self).state.f & 0xdf
                },
                ..old(self).state
            }),
            final(self).sys == old(self).sys,
    {
        if v {
            self.state.f = self.state.f | 0x20;
        } else {
            self.state.f = self.state.f & 0xdf;
        }
    }

    /// Updates the value of the `c` flag.
    pub fn set_cf(&mut self, v: bool)
        ensures
            final(self).state == (CpuState {
                f: if v {
                    old(self).state.f | 0x10
                } else {
                    old(self).state.f & 0xef
                },
                ..old(self).state
            }),
            final(self).sys == old(self).sys,
    {
        if v {
            self.state.f = self.state.f | 0x10;
        } else {
            self.state.f = self.state.f & 0xef;
        }
    }

    /// Updates the `a` register.
    pub fn set_a(&mut self, v: u8)
        ensures
            final(self).state == (CpuState { a: v, ..old(self).state }),
            final(self).sys == old(self).sys,
    {
        self.state.a = v;
    }

    /// Updates the `b` register.
    pub fn set_b(&mut self, v: u8)
        ensures
            final(self).state == (CpuState { b: v, ..old(self).state }),
            final(self).sys == old(self).sys,
    {
        self.state.b = v;
    }

    /// Updates the `c` register.
    pub fn set_c(&mut self, v: u8)
        ensures
            final(self).state == (CpuState { c: v, ..old(self).state }),
            final(self).sys == old(self).sys,
    {
        self.state.c = v;
    }

    /// Updates the `d` register.
    pub fn set_d(&mut self, v: u8)
        ensures
            final(self).state == (CpuState { d: v, ..old(self).state }),
            final(self).sys == old(self).sys,
    {
        self.state.d = v;
    }

    /// Updates the `e` register.
    pub fn set_e(&mut self, v: u8)
        ensures
            final(self).state == (CpuState { e: v, ..old(self).state }),
            final(self).sys == old(self).sys,
    {
        self.state.e = v;
    }

    /// Updates the `h` register.
    pub fn set_h(&mut self, v: u8)
        ensures
            final(self).state == (CpuState { h: v, ..old(self).state }),
            final(self).sys == old(self).sys,
    {
        self.state.h = v;
    }

    /// Updates the `l` register.
    pub fn set_l(&mut self, v: u8)
        ensures
            final(self).state == (CpuState { l: v, ..old(self).state }),
            final(self).sys == old(self).sys,
    {
        self.state.l = v;
    }

    /// Updates `a` and `f` as one 16-bit register; the low nibble of `f`
    /// always reads back zero.
    pub fn set_af(&mut self, v: u16)
        ensures
            final(self).state == (CpuState {
                a: (v >> 8) as u8,
                f: (v & 0xf0) as u8,
                ..old(self).state
            }),
            final(self).sys == old(self).sys,
    {
        self.state.a = (v >> 8) as u8;
        self.state.f = (v & 0xf0) as u8;
    }

    /// Updates `b` and `c` as one 16-bit register.
    pub fn set_bc(&mut self, v: u16)
        ensures
            final(self).state == (CpuState { b: (v >> 8) as u8, c: v as u8, ..old(self).state }),
            final(self).sys == old(self).sys,
    {
        self.state.b = (v >> 8) as u8;
        self.state.c = v as u8;
    }

    /// Updates `d` and `e` as one 16-bit register.
    pub fn set_de(&mut self, v: u16)
        ensures
            final(self).state == (CpuState { d: (v >> 8) as u8, e: v as u8, ..old(self).state }),
            final(self).sys == old(self).sys,
    {
        self.state.d = (v >> 8) as u8;
        self.state.e = v as u8;
    }

    /// Updates `h` and `l` as one 16-bit register.
    pub fn set_hl(&mut self, v: u16)
        ensures
            final(self).state == (CpuState { h: (v >> 8) as u8, l: v as u8, ..old(self).state }),
            final(self).sys == old(self).sys,
    {
        self.state.h = (v >> 8) as u8;
        self.state.l = v as u8;
    }

    /// Gets the `a` register.
    pub fn get_a(&self) -> (r: u8)
        ensures
            r == self.state.a,
    {
        self.state.a
    }

    /// Gets the `b` register.
    pub fn get_b(&self) -> (r: u8)
        ensures
            r == self.state.b,
    {
        self.state.b
    }

    /// Gets the `c` register.
    pub fn get_c(&self) -> (r: u8)
        ensures
            r == self.state.c,
    {
        self.state.c
    }

    /// Gets the `d` register.
    pub fn get_d(&self) -> (r: u8)
        ensures
            r == self.state.d,
    {
        self.state.d
    }

    /// Gets the `e` register.
    pub fn get_e(&self) -> (r: u8)
        ensures
            r == self.state.e,
    {
        self.state.e
    }

    /// Gets the `h` register.
    pub fn get_h(&self) -> (r: u8)
        ensures
            r == self.state.h,
    {
        self.state.h
    }

    /// Gets the `l` register.
    pub fn get_l(&self) -> (r: u8)
        ensures
            r == self.state.l,
    {
        self.state.l
    }

    /// Gets `a` and `f` as one 16-bit register.
    pub fn get_af(&self) -> (r: u16)
        ensures
            r == (self.state.a as u16) << 8 | self.state.f as u16,
    {
        (self.state.a as u16) << 8 | self.state.f as u16
    }

    /// Gets `b` and `c` as one 16-bit register.
    pub fn get_bc(&self) -> (r: u16)
        ensures
            r == (self.state.b as u16) << 8 | self.state.c as u16,
    {
        (self.state.b as u16) << 8 | self.state.c as u16
    }

    /// Gets `d` and `e` as one 16-bit register.
    pub fn get_de(&self) -> (r: u16)
        ensures
            r == (self.state.d as u16) << 8 | self.state.e as u16,
    {
        (self.state.d as u16) << 8 | self.state.e as u16
    }

    /// Gets `h` and `l` as one 16-bit register.
    pub fn get_hl(&self) -> (r: u16)
        ensures
            r == (self.state.h as u16) << 8 | self.state.l as u16,
    {
        (self.state.h as u16) << 8 | self.state.l as u16
    }

    /// Gets the program counter.
    pub fn get_pc(&self) -> (r: u16)
        ensures
            r == self.state.pc,
    {
        self.state.pc
    }

    /// Updates the program counter.
    pub fn set_pc(&mut self, v: u16)
        ensures
            final(self).state == (CpuState { pc: v, ..old(self).state }),
            final(self).sys == old(self).sys,
    {
        self.state.pc = v;
    }

    /// Gets the stack pointer.
    pub fn get_sp(&self) -> (r: u16)
        ensures
            r == self.state.sp,
    {
        self.state.sp
    }

    /// Updates the stack pointer.
    pub fn set_sp(&mut self, v: u16)
        ensures
            final(self).state == (CpuState { sp: v, ..old(self).state }),
            final(self).sys == old(self).sys,
    {
        self.state.sp = v;
    }

    /// Jump: set the program counter, spending the internal delay cycle.
    pub fn jump(&mut self, a: u16)
        requires
            old(self).state.cycles + 4 <= usize::MAX,
            old(self).sys.inv(),
        ensures
            final(self).sys.inv(),
            final(self).state.cycles == old(self).state.cycles + 4,
            final(self).state.pc == a,
            same_core_regs(final(self).state, old(self).state),
            final(self).state.sp == old(self).state.sp,
            final(self).state.ime == old(self).state.ime,
            final(self).state.ei_delay == old(self).state.ei_delay,
            final(self).state.di_delay == old(self).state.di_delay,
            final(self).state.halt == old(self).state.halt,
            final(self).state.halt_bug == old(self).state.halt_bug,
            final(self).state.fatal == old(self).state.fatal,
            old(self).sys.obeys_mem() ==> final(self).sys == old(self).sys && final(self).state.steps_data == old(self).state.steps_data,
    {
        self.step(4);
        self.set_pc(a);
    }

    /// Read a byte from memory, spending the access cycles.
    pub fn get8(&mut self, a: u16) -> (r: u8)
        requires
            old(self).state.cycles + 4 <= usize::MAX,
            old(self).sys.inv(),
        ensures
            final(self).sys.inv(),
            final(self).state.cycles == old(self).state.cycles + 4,
            same_core_regs(final(self).state, old(self).state),
            same_ctrl(final(self).state, old(self).state),
            old(self).sys.obeys_mem() ==> {
                &&& final(self).sys == old(self).sys
                &&& old(self).sys.mem().len() == 0x10000
                &&& r == old(self).sys.mem()[a as int]
                &&& final(self).state.steps_data == old(self).state.steps_data
            },
    {
        self.step(4);
        self.sys.get8(a)
    }

    /// Read a 16-bit word from memory, spending the access cycles.
    pub fn get16(&mut self, a: u16) -> (r: u16)
        requires
            old(self).state.cycles + 8 <= usize::MAX,
            old(self).sys.inv(),
        ensures
            final(self).sys.inv(),
            final(self).state.cycles == old(self).state.cycles + 8,
            same_core_regs(final(self).state, old(self).state),
            same_ctrl(final(self).state, old(self).state),
            old(self).sys.obeys_mem() ==> {
                &&& final(self).sys == old(self).sys
                &&& old(self).sys.mem().len() == 0x10000
                &&& r == mem16(old(self).sys.mem(), a)
                &&& final(self).state.steps_data == old(self).state.steps_data
            },
    {
        self.step(8);
        self.sys.get16(a)
    }

    /// Write a byte to memory, spending the access cycles.
    pub fn set8(&mut self, a: u16, v: u8)
        requires
            old(self).state.cycles + 4 <= usize::MAX,
            old(self).sys.inv(),
        ensures
            final(self).sys.inv(),
            final(self).state.cycles == old(self).state.cycles + 4,
            same_core_regs(final(self).state, old(self).state),
            same_ctrl(final(self).state, old(self).state),
            old(self).sys.obeys_mem() ==> {
                &&& final(self).sys.obeys_mem()
                &&& old(self).sys.mem().len() == 0x10000
                &&& final(self).sys.mem() == old(self).sys.mem().update(a as int, v)
                &&& final(self).state.steps_data == old(self).state.steps_data
                &&& final(self).sys.pending_vec() == old(self).sys.pending_vec()
            },
    {
        self.step(4);
        self.sys.set8(a, v);
    }

    /// Write a 16-bit word to memory, spending the access cycles.
    pub fn set16(&mut self, a: u16, v: u16)
        requires
            old(self).state.cycles + 8 <= usize::MAX,
            old(self).sys.inv(),
        ensures
            final(self).sys.inv(),
            final(self).state.cycles == old(self).state.cycles + 8,
            same_core_regs(final(self).state, old(self).state),
            same_ctrl(final(self).state, old(self).state),
            old(self).sys.obeys_mem() ==> {
                &&& final(self).sys.obeys_mem()
                &&& old(self).sys.mem().len() == 0x10000
                &&& final(self).sys.mem() == store16(old(self).sys.mem(), a, v)
                &&& final(self).state.steps_data == old(self).state.steps_data
                &&& final(self).sys.pending_vec() == old(self).sys.pending_vec()
            },
    {
        self.step(8);
        self.sys.set16(a, v)
    }

    /// Push a 16-bit value, moving the stack pointer down.
    pub fn push(&mut self, v: u16)
        requires
            old(self).state.cycles + 8 <= usize::MAX,
            old(self).sys.inv(),
        ensures
            final(self).sys.inv(),
            final(self).state.cycles == old(self).state.cycles + 8,
            final(self).state.sp == wsub16(old(self).state.sp, 2),
            same_core_regs(final(self).state, old(self).state),
            final(self).state.pc == old(self).state.pc,
            final(self).state.ime == old(self).state.ime,
            final(self).state.ei_delay == old(self).state.ei_delay,
            final(self).state.di_delay == old(self).state.di_delay,
            final(self).state.halt == old(self).state.halt,
            final(self).state.halt_bug == old(self).state.halt_bug,
            final(self).state.fatal == old(self).state.fatal,
            old(self).sys.obeys_mem() ==> {
                &&& final(self).sys.obeys_mem()
                &&& old(self).sys.mem().len() == 0x10000
                &&& final(self).sys.mem() == push_mem_spec(
                    old(self).sys.mem(),
                    old(self).state.sp,
                    v,
                )
                &&& final(self).state.steps_data == old(self).state.steps_data
                &&& final(self).sys.pending_vec() == old(self).sys.pending_vec()
            },
    {
        let p = self.get_sp().wrapping_sub(2);
        let p2 = self.get_sp().wrapping_sub(2);
        self.set_sp(p2);
        self.set16(p, v)
    }

    /// Pop a 16-bit value, moving the stack pointer up.
    pub fn pop(&mut self) -> (r: u16)
        requires
            old(self).state.cycles + 8 <= usize::MAX,
            old(self).sys.inv(),
        ensures
            final(self).sys.inv(),
            final(self).state.cycles == old(self).state.cycles + 8,
            final(self).state.sp == wadd16(old(self).state.sp, 2),
            same_core_regs(final(self).state, old(self).state),
            final(self).state.pc == old(self).state.pc,
            final(self).state.ime == old(self).state.ime,
            final(self).state.ei_delay == old(self).state.ei_delay,
            final(self).state.di_delay == old(self).state.di_delay,
            final(self).state.halt == old(self).state.halt,
            final(self).state.halt_bug == old(self).state.halt_bug,
            final(self).state.fatal == old(self).state.fatal,
            old(self).sys.obeys_mem() ==> {
                &&& final(self).sys == old(self).sys
                &&& old(self).sys.mem().len() == 0x10000
                &&& r == mem16(old(self).sys.mem(), old(self).state.sp)
                &&& final(self).state.steps_data == old(self).state.steps_data
            },
    {
        let p = self.get_sp();
        let p2 = self.get_sp().wrapping_add(2);
        self.set_sp(p2);
        self.get16(p)
    }

    /// Add 1 to the program counter, unless the HALT bug swallows it.
    fn inc_pc(&mut self)
        ensures
            final(self).sys == old(self).sys,
            same_core_regs(final(self).state, old(self).state),
            final(self).state.cycles == old(self).state.cycles,
            final(self).state.steps_data == old(self).state.steps_data,
            final(self).state.sp == old(self).state.sp,
            final(self).state.ime == old(self).state.ime,
            final(self).state.ei_delay == old(self).state.ei_delay,
            final(self).state.di_delay == old(self).state.di_delay,
            final(self).state.halt == old(self).state.halt,
            final(self).state.fatal == old(self).state.fatal,
            !final(self).state.halt_bug,
            final(self).state.pc == if old(self).state.halt_bug {
                old(self).state.pc
            } else {
                wadd16(old(self).state.pc, 1)
            },
    {
        if self.state.halt_bug {
            self.state.halt_bug = false;
        } else {
            let pc = self.get_pc().wrapping_add(1);
            self.set_pc(pc);
        }
    }

    /// Fetch the byte at PC and advance it, spending the access cycles.
    pub fn fetch8(&mut self) -> (r: u8)
        requires
            old(self).state.cycles + 4 <= usize::MAX,
            old(self).sys.inv(),
        ensures
            final(self).sys.inv(),
            final(self).state.cycles == old(self).state.cycles + 4,
            same_core_regs(final(self).state, old(self).state),
            final(self).state.sp == old(self).state.sp,
            final(self).state.ime == old(self).state.ime,
            final(self).state.ei_delay == old(self).state.ei_delay,
            final(self).state.di_delay == old(self).state.di_delay,
            final(self).state.halt == old(self).state.halt,
            final(self).state.fatal == old(self).state.fatal,
            !final(self).state.halt_bug,
            final(self).state.pc == if old(self).state.halt_bug {
                old(self).state.pc
            } else {
                wadd16(old(self).state.pc, 1)
            },
            old(self).sys.obeys_mem() ==> {
                &&& final(self).sys == old(self).sys
                &&& old(self).sys.mem().len() == 0x10000
                &&& r == old(self).sys.mem()[old(self).state.pc as int]
                &&& final(self).state.steps_data == old(self).state.steps_data
            },
    {
        let pc = self.get_pc();
        let b = self.get8(pc);
        self.inc_pc();
        b
    }

    /// Fetch a little-endian 16-bit immediate, spending the access cycles.
    pub fn fetch16(&mut self) -> (r: u16)
        requires
            old(self).state.cycles + 8 <= usize::MAX,
            old(self).sys.inv(),
        ensures
            final(self).sys.inv(),
            final(self).state.cycles == old(self).state.cycles + 8,
            same_core_regs(final(self).state, old(self).state),
            final(self).state.sp == old(self).state.sp,
            final(self).state.ime == old(self).state.ime,
            final(self).state.ei_delay == old(self).state.ei_delay,
            final(self).state.di_delay == old(self).state.di_delay,
            final(self).state.halt == old(self).state.halt,
            final(self).state.fatal == old(self).state.fatal,
            !final(self).state.halt_bug,
            old(self).sys.obeys_mem() ==> final(self).sys == old(self).sys && final(self).state.steps_data == old(self).state.steps_data,
            old(self).sys.obeys_mem() && !old(self).state.halt_bug ==> {
                &&& final(self).state.pc == wadd16(old(self).state.pc, 2)
                &&& r == mem16(old(self).sys.mem(), old(self).state.pc)
            },
    {
        let l = self.fetch8();
        let h = self.fetch8();
        proof {
            crate::alu::lemma_hi_lo(h, l);
        }
        (h as u16) << 8 | l as u16
    }

    /// Fetch the next opcode without consuming cycles for the first byte;
    /// a 0xcb prefix fetches its second byte with normal timing.
    pub fn fetch_opcode(&mut self) -> (r: u16)
        requires
            old(self).state.cycles + 4 <= usize::MAX,
            old(self).sys.inv(),
        ensures
            final(self).sys.inv(),
            same_core_regs(final(self).state, old(self).state),
            final(self).state.sp == old(self).state.sp,
            final(self).state.ime == old(self).state.ime,
            final(self).state.ei_delay == old(self).state.ei_delay,
            final(self).state.di_delay == old(self).state.di_delay,
            final(self).state.halt == old(self).state.halt,
            final(self).state.fatal == old(self).state.fatal,
            !final(self).state.halt_bug,
            r <= 0xcbff,
            r > 0xff ==> 0xcb00 <= r,
            final(self).state.cycles == old(self).state.cycles + if r > 0xff {
                4int
            } else {
                0int
            },
            old(self).sys.obeys_mem() ==> final(self).sys == old(self).sys
                && final(self).state.steps_data == old(self).state.steps_data,
            old(self).sys.obeys_mem() && !old(self).state.halt_bug ==> {
                &&& (old(self).sys.mem()[old(self).state.pc as int] == 0xcb ==> r == 0xcb00 + old(
                    self,
                ).sys.mem()[wadd16(old(self).state.pc, 1) as int] && final(self).state.pc == wadd16(
                    old(self).state.pc,
                    2,
                ))
                &&& (old(self).sys.mem()[old(self).state.pc as int] != 0xcb ==> r == old(
                    self,
                ).sys.mem()[old(self).state.pc as int] && final(self).state.pc == wadd16(
                    old(self).state.pc,
                    1,
                ))
            },
            // a pending HALT bug swallows the first increment: PC stays on
            // the opcode byte, and a 0xcb prefix re-reads that same byte
            old(self).sys.obeys_mem() && old(self).state.halt_bug ==> {
                &&& (old(self).sys.mem()[old(self).state.pc as int] == 0xcb ==> r == 0xcbcb
                    && final(self).state.pc == wadd16(old(self).state.pc, 1))
                &&& (old(self).sys.mem()[old(self).state.pc as int] != 0xcb ==> r == old(
                    self,
                ).sys.mem()[old(self).state.pc as int] && final(self).state.pc == old(
                    self,
                ).state.pc)
            },
    {
        let pc = self.get_pc();
        let b = self.sys.get8(pc);
        self.inc_pc();
        if b == 0xcb {
            let low = self.fetch8();
            proof {
                assert(0xcb00 <= (0xcb00u16 | (low as u16)) <= 0xcbff && (0xcb00u16 | (
                low as u16)) == 0xcb00 + low) by (bit_vector);
            }
            0xcb00 | low as u16
        } else {
            b as u16
        }
    }

    /// Handle DI: interrupts disable after the next instruction boundary.
    pub fn di(&mut self)
        ensures
            final(self).state == (CpuState { di_delay: 2, ..old(self).state }),
            final(self).sys == old(self).sys,
    {
        self.state.di_delay = 2;
    }

    /// Handle EI: interrupts enable after the next instruction boundary.
    pub fn ei(&mut self)
        ensures
            final(self).state == (CpuState { ei_delay: 2, ..old(self).state }),
            final(self).sys == old(self).sys,
    {
        self.state.ei_delay = 2;
    }

    /// Disable interrupts immediately.
    pub fn disable_interrupt(&mut self)
        ensures
            final(self).state == (CpuState { ime: false, ..old(self).state }),
            final(self).sys == old(self).sys,
    {
        self.state.ime = false;
    }

    /// Enable interrupts immediately.
    pub fn enable_interrupt(&mut self)
        ensures
            final(self).state == (CpuState { ime: true, ..old(self).state }),
            final(self).sys == old(self).sys,
    {
        self.state.ime = true;
    }

    /// Switch the CPU into the halt state.  Entering HALT with interrupts
    /// masked but pending triggers the HALT bug instead: the next fetch
    /// skips one PC increment.
    pub fn halt(&mut self)
        requires
            old(self).sys.inv(),
        ensures
            final(self).sys.inv(),
            final(self).sys == old(self).sys,
            same_core_regs(final(self).state, old(self).state),
            final(self).state.pc == old(self).state.pc,
            final(self).state.sp == old(self).state.sp,
            final(self).state.ime == old(self).state.ime,
            final(self).state.ei_delay == old(self).state.ei_delay,
            final(self).state.di_delay == old(self).state.di_delay,
            final(self).state.fatal == old(self).state.fatal,
            final(self).state.cycles == old(self).state.cycles,
            final(self).state.steps_data == old(self).state.steps_data,
            if !old(self).state.ime && old(self).sys.pending_vec() is Some {
                &&& final(self).state.halt_bug
                &&& final(self).state.halt == old(self).state.halt
            } else {
                &&& final(self).state.halt
                &&& final(self).state.halt_bug == old(self).state.halt_bug
            },
    {
        let pending = if !self.state.ime {
            self.sys.peek_int_vec().is_some()
        } else {
            false
        };
        if pending {
            self.state.halt_bug = true;
        } else {
            self.state.halt = true;
        }
    }

    /// Freeze the CPU, as the STOP instruction does.  No ROM in scope
    /// resumes from STOP, so the frozen state is permanent.
    pub fn stop(&mut self)
        ensures
            final(self).state == (CpuState { fatal: true, ..old(self).state }),
            final(self).sys == old(self).sys,
    {
        self.state.fatal = true;
    }

    /// Apply a pending EI or DI once its delay runs out.
    pub fn update_ime(&mut self)
        ensures
            final(self).sys == old(self).sys,
            same_core_regs(final(self).state, old(self).state),
            final(self).state.pc == old(self).state.pc,
            final(self).state.sp == old(self).state.sp,
            final(self).state.cycles == old(self).state.cycles,
            final(self).state.halt == old(self).state.halt,
            final(self).state.halt_bug == old(self).state.halt_bug,
            final(self).state.fatal == old(self).state.fatal,
            final(self).state.steps_data == old(self).state.steps_data,
            final(self).state.ime == if old(self).state.ei_delay == 1 {
                true
            } else if old(self).state.di_delay == 1 {
                false
            } else {
                old(self).state.ime
            },
            final(self).state.di_delay == if old(self).state.di_delay > 0 {
                (old(self).state.di_delay - 1) as usize
            } else {
                0usize
            },
            final(self).state.ei_delay == if old(self).state.ei_delay > 0 {
                (old(self).state.ei_delay - 1) as usize
            } else {
                0usize
            },
    {
        if self.state.di_delay > 0 {
            if self.state.di_delay == 1 {
                self.state.ime = false;
            }
            self.state.di_delay = self.state.di_delay - 1;
        }
        if self.state.ei_delay > 0 {
            if self.state.ei_delay == 1 {
                self.state.ime = true;
            }
            self.state.ei_delay = self.state.ei_delay - 1;
        }
    }

    /// Service a pending interrupt: leave halt, mask interrupts, spend the
    /// internal wait, push PC and jump to the vector.
    fn interrupted(&mut self, vector_addr: u8)
        requires
            old(self).state.cycles <= usize::MAX - 64,
            old(self).sys.inv(),
        ensures
            final(self).sys.inv(),
            same_core_regs(final(self).state, old(self).state),
            !final(self).state.ime,
            !final(self).state.halt,
            final(self).state.pc == vector_addr as u16,
            final(self).state.sp == wsub16(old(self).state.sp, 2),
            final(self).state.cycles == old(self).state.cycles + (if old(self).state.halt {
                16int
            } else {
                12int
            }) + 8,
            old(self).sys.obeys_mem() ==> {
                &&& final(self).sys.obeys_mem()
                &&& final(self).sys.mem() == push_mem_spec(
                    old(self).sys.mem(),
                    old(self).state.sp,
                    old(self).state.pc,
                )
            },
    {
        if self.state.halt {
            self.state.halt = false;
            self.step(4);
        }
        self.disable_interrupt();
        self.step(8);
        let pc = self.get_pc();
        self.push(pc);
        self.jump(vector_addr as u16);
    }

    /// Check for pending interrupts at the end of an instruction.  With
    /// interrupts enabled and one pending, service it: clear halt, mask
    /// interrupts, push PC and jump to its vector.  With interrupts
    /// masked, a pending interrupt only wakes a halted CPU.
    pub fn check_interrupt(&mut self)
        requires
            old(self).state.cycles <= usize::MAX - 64,
            old(self).sys.inv(),
        ensures
            final(self).sys.inv(),
            old(self).state.cycles <= final(self).state.cycles <= old(self).state.cycles + 24,
            same_core_regs(final(self).state, old(self).state),
            // masked: at most the halt latch falls
            !old(self).state.ime ==> {
                &&& final(self).state.pc == old(self).state.pc
                &&& final(self).state.sp == old(self).state.sp
                &&& final(self).state.ime == old(self).state.ime
                &&& (if old(self).state.halt && old(self).sys.pending_vec() is Some {
                    !final(self).state.halt && final(self).state.cycles == old(self).state.cycles
                        + 4
                } else {
                    *final(self) == *old(self)
                })
            },
            // enabled and none pending: nothing happens
            old(self).state.ime && old(self).sys.pending_vec() is None ==> *final(self) == *old(
                self,
            ),
            // enabled and pending: full dispatch to the vector
            old(self).state.ime ==> (old(self).sys.pending_vec() matches Some(v) ==> {
                &&& !final(self).state.ime
                &&& !final(self).state.halt
                &&& final(self).state.pc == v as u16
                &&& final(self).state.sp == wsub16(old(self).state.sp, 2)
                &&& final(self).state.cycles == old(self).state.cycles + (if old(
                    self,
                ).state.halt {
                    16int
                } else {
                    12int
                }) + 8
            }),
    {
        if !self.state.ime {
            let wake = if self.state.halt {
                self.sys.peek_int_vec().is_some()
            } else {
                false
            };
            if wake {
                // HALT with interrupts masked: the interrupt wakes the CPU
                // without being consumed.
                self.step(4);
                self.state.halt = false;
            }
            return ;
        }
        let value = match self.sys.pop_int_vec() {
            Some(value) => value,
            None => { return ; },
        };
        self.interrupted(value);
    }

    /// Execute a single instruction: fetch, decode, run it, then apply the
    /// EI/DI delays and service interrupts.  Returns the T-cycles consumed.
    /// A halted or frozen CPU only burns the idle cycles.
    ///
    /// Over a plain-memory bus with no interrupt pending, the cycle count
    /// equals the decode table's entry for the fetched opcode, and an
    /// LD r,r with equal registers changes nothing but the program counter.
    pub fn execute(&mut self) -> (r: usize)
        requires
            old(self).sys.inv(),
        ensures
            final(self).sys.inv(),
            r == final(self).state.cycles,
            // idle: a halted or frozen CPU burns 4 cycles
            (old(self).sys.obeys_mem() && (old(self).state.halt || old(self).state.fatal) && old(
                self,
            ).sys.pending_vec() is None) ==> {
                &&& r == 4
                &&& same_core_regs(final(self).state, old(self).state)
                &&& final(self).state.pc == old(self).state.pc
                &&& final(self).state.sp == old(self).state.sp
                &&& final(self).sys == old(self).sys
            },
            // the cycles consumed equal the decode table's count for the
            // instruction fetched at PC
            (old(self).sys.obeys_mem() && !old(self).state.halt && !old(self).state.fatal && !old(
                self,
            ).state.halt_bug && old(self).sys.pending_vec() is None) ==> r
                == crate::inst::decode_cycles(
                crate::inst::fetched_opcode(old(self).sys.mem(), old(self).state.pc),
                crate::inst::cond_taken(
                    crate::inst::fetched_opcode(old(self).sys.mem(), old(self).state.pc),
                    old(self).state.f,
                ),
            ),
            // an LD r,r with equal source and destination leaves the state
            // unchanged except for the advanced PC
            (old(self).sys.obeys_mem() && !old(self).state.halt && !old(self).state.fatal && !old(
                self,
            ).state.halt_bug && old(self).sys.pending_vec() is None && old(self).state.ei_delay == 0
                && old(self).state.di_delay == 0 && crate::inst::is_ld_r_r_same(
                crate::inst::fetched_opcode(old(self).sys.mem(), old(self).state.pc),
            )) ==> {
                &&& same_core_regs(final(self).state, old(self).state)
                &&& final(self).state.pc == wadd16(old(self).state.pc, 1)
                &&& final(self).state.sp == old(self).state.sp
                &&& final(self).state.ime == old(self).state.ime
                &&& !final(self).state.halt
                &&& !final(self).state.fatal
                &&& final(self).sys == old(self).sys
            },
    {
        self.state.cycles = 0;
        self.state.steps_data.line_to_draw = None;
        if self.state.halt || self.state.fatal {
            self.step(4);
        } else {
            let code = self.fetch_opcode();
            let time = self.decode(code);
            proof {
                // The cycles the instruction consumed equal the decode
                // table's declared count.
                assert(self.state.cycles == time);
            }
        }
        self.update_ime();
        self.check_interrupt();
        self.state.cycles
    }
}

/// Pushing a 16-bit value and popping it back returns the same value and
/// restores the stack pointer.
pub proof fn lemma_push_pop_round_trip(mem: Seq<u8>, sp: u16, v: u16)
    requires
        mem.len() == 0x10000,
    ensures
        mem16(push_mem_spec(mem, sp, v), wsub16(sp, 2)) == v,
        wadd16(wsub16(sp, 2), 2) == sp,
{
    let p = wsub16(sp, 2);
    assert(wadd16(p, 1) == wsub16(sp, 1));
    let m2 = push_mem_spec(mem, sp, v);
    assert(m2[p as int] == (v & 0xff) as u8);
    assert(m2[wadd16(p, 1) as int] == (v >> 8) as u8);
    assert((v & 0xff) + ((v >> 8) * 0x100) == v && v & 0xff <= 0xff && v >> 8 <= 0xff)
        by (bit_vector);
}

} // verus!
