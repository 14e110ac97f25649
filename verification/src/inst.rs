//! SM83 instruction decoder.  `decode` dispatches on the opcode (with the
//! 0xcb-prefixed page encoded as 0xcb00 | op) and returns the T-cycles the
//! instruction takes according to the decode table; its contract proves
//! that the cycles actually spent on the bus equal that count.

use crate::alu;
use crate::cpu::{same_core_regs, Cpu, CpuState, Sys};
use vstd::prelude::*;

verus! {

/// The opcodes with no assigned instruction; executing one freezes the CPU.
pub open spec fn is_illegal(op: u8) -> bool {
    ||| op == 0xd3
    ||| op == 0xdb
    ||| op == 0xdd
    ||| op == 0xe3
    ||| op == 0xe4
    ||| op == 0xeb
    ||| op == 0xec
    ||| op == 0xed
    ||| op == 0xf4
    ||| op == 0xfc
    ||| op == 0xfd
}

fn is_illegal_exec(op: u8) -> (r: bool)
    ensures
        r == is_illegal(op),
{
    op == 0xd3 || op == 0xdb || op == 0xdd || op == 0xe3 || op == 0xe4 || op == 0xeb || op == 0xec
        || op == 0xed || op == 0xf4 || op == 0xfc || op == 0xfd
}

/// Whether a conditional jump, call or return takes its branch, given the
/// flag register: the condition field selects NZ, Z, NC or C.
pub open spec fn cond_taken(code: u16, f: u8) -> bool {
    let k = (code >> 3) & 3;
    if k == 0 {
        f & 0x80 == 0
    } else if k == 1 {
        f & 0x80 != 0
    } else if k == 2 {
        f & 0x10 == 0
    } else {
        f & 0x10 != 0
    }
}

/// The opcode a fetch at `pc` yields from memory `m`, with the
/// 0xcb-prefixed page encoded as 0xcb00 | op.
pub open spec fn fetched_opcode(m: Seq<u8>, pc: u16) -> u16 {
    if m[pc as int] == 0xcb {
        (0xcb00 + m[crate::cpu::wadd16(pc, 1) as int]) as u16
    } else {
        m[pc as int] as u16
    }
}

/// The declared T-cycle cost of one instruction, branch taken or not.
/// Illegal opcodes cost nothing: they freeze the CPU.
pub open spec fn decode_cycles(code: u16, taken: bool) -> usize {
    if code > 0xff {
        if 0xcb00 <= code <= 0xcbff {
            cb_cycles((code - 0xcb00) as u8)
        } else {
            0
        }
    } else {
        main_cycles(code as u8, taken)
    }
}

/// The cycle cost of a 0xcb-prefixed operation, prefix fetch included:
/// 8 on a register, 12 for BIT on (HL), 16 otherwise on (HL).
pub open spec fn cb_cycles(op: u8) -> usize {
    let i = op & 7;
    let k = op >> 3;
    if k < 8 {
        if i == 6 {
            16
        } else {
            8
        }
    } else if k < 16 {
        if i == 6 {
            12
        } else {
            8
        }
    } else {
        if i == 6 {
            16
        } else {
            8
        }
    }
}

/// The cycle cost of a main-page operation.
pub open spec fn main_cycles(op: u8, taken: bool) -> usize {
    if is_illegal(op) {
        0
    } else if op < 0x40 {
        q0_cycles(op, taken)
    } else if op < 0x80 {
        if op == 0x76 {
            4
        } else if op & 7 == 6 || (op >> 3) & 7 == 6 {
            8
        } else {
            4
        }
    } else if op < 0xc0 {
        if op & 7 == 6 {
            8
        } else {
            4
        }
    } else {
        q3_cycles(op, taken)
    }
}

/// Cycle costs of the 0x00-0x3f block.
pub open spec fn q0_cycles(op: u8, taken: bool) -> usize {
    if op == 0x00 {
        4
    } else if op & 0xcf == 0x01 {
        12
    } else if op == 0x02 || op == 0x12 || op == 0x22 || op == 0x32 {
        8
    } else if op & 0xcf == 0x03 {
        8
    } else if op & 0xc7 == 0x04 || op & 0xc7 == 0x05 {
        if (op >> 3) & 7 == 6 {
            12
        } else {
            4
        }
    } else if op & 0xc7 == 0x06 {
        if (op >> 3) & 7 == 6 {
            12
        } else {
            8
        }
    } else if op == 0x07 || op == 0x0f || op == 0x17 || op == 0x1f {
        4
    } else if op == 0x08 {
        20
    } else if op & 0xcf == 0x09 {
        8
    } else if op == 0x0a || op == 0x1a || op == 0x2a || op == 0x3a {
        8
    } else if op & 0xcf == 0x0b {
        8
    } else if op == 0x10 {
        4
    } else if op == 0x18 {
        12
    } else if op == 0x20 || op == 0x28 || op == 0x30 || op == 0x38 {
        if taken {
            12
        } else {
            8
        }
    } else {
        4
    }
}

/// Cycle costs of the 0xc0-0xff block, illegal opcodes excluded.
pub open spec fn q3_cycles(op: u8, taken: bool) -> usize {
    if op & 0xe7 == 0xc0 {
        if taken {
            20
        } else {
            8
        }
    } else if op & 0xcf == 0xc1 {
        12
    } else if op & 0xe7 == 0xc2 {
        if taken {
            16
        } else {
            12
        }
    } else if op == 0xc3 {
        16
    } else if op & 0xe7 == 0xc4 {
        if taken {
            24
        } else {
            12
        }
    } else if op & 0xcf == 0xc5 {
        16
    } else if op & 0xc7 == 0xc6 {
        8
    } else if op & 0xc7 == 0xc7 {
        16
    } else if op == 0xc9 || op == 0xd9 {
        16
    } else if op == 0xcd {
        24
    } else if op == 0xe0 || op == 0xf0 {
        12
    } else if op == 0xe2 || op == 0xf2 {
        8
    } else if op == 0xe8 {
        16
    } else if op == 0xf8 {
        12
    } else if op == 0xe9 {
        4
    } else if op == 0xf9 {
        8
    } else if op == 0xea || op == 0xfa {
        16
    } else {
        4
    }
}

/// The LD r,r instructions whose source and destination are the same
/// register: they change nothing but the program counter.
pub open spec fn is_ld_r_r_same(code: u16) -> bool {
    ||| code == 0x40
    ||| code == 0x49
    ||| code == 0x52
    ||| code == 0x5b
    ||| code == 0x64
    ||| code == 0x6d
    ||| code == 0x7f
}

/// The value of 8-bit register `i` in the order B,C,D,E,H,L,_,A that
/// opcode fields use (index 6 addresses memory through HL instead).
pub open spec fn reg8_spec(s: CpuState, i: u8) -> u8 {
    if i == 0 {
        s.b
    } else if i == 1 {
        s.c
    } else if i == 2 {
        s.d
    } else if i == 3 {
        s.e
    } else if i == 4 {
        s.h
    } else if i == 5 {
        s.l
    } else {
        s.a
    }
}

/// The CPU state after storing `v` into 8-bit register `i`.
pub open spec fn reg8_store(s: CpuState, i: u8, v: u8) -> CpuState {
    if i == 0 {
        CpuState { b: v, ..s }
    } else if i == 1 {
        CpuState { c: v, ..s }
    } else if i == 2 {
        CpuState { d: v, ..s }
    } else if i == 3 {
        CpuState { e: v, ..s }
    } else if i == 4 {
        CpuState { h: v, ..s }
    } else if i == 5 {
        CpuState { l: v, ..s }
    } else {
        CpuState { a: v, ..s }
    }
}

/// The CPU state after storing `v` into register pair `j` (BC, DE or HL).
pub open spec fn rr16_store(s: CpuState, j: u8, v: u16) -> CpuState {
    if j == 0 {
        CpuState { b: (v >> 8) as u8, c: v as u8, ..s }
    } else if j == 1 {
        CpuState { d: (v >> 8) as u8, e: v as u8, ..s }
    } else {
        CpuState { h: (v >> 8) as u8, l: v as u8, ..s }
    }
}

/// The value of 16-bit register pair `j` in the order BC,DE,HL,SP.
pub open spec fn rr16_spec(s: CpuState, j: u8) -> u16 {
    if j == 0 {
        ((s.b as u16) << 8 | s.c as u16) as u16
    } else if j == 1 {
        ((s.d as u16) << 8 | s.e as u16) as u16
    } else if j == 2 {
        ((s.h as u16) << 8 | s.l as u16) as u16
    } else {
        s.sp
    }
}

impl<T: Sys> Cpu<T> {
    /// Overwrite the flag register.
    fn set_f(&mut self, v: u8)
        ensures
            final(self).state == (CpuState { f: v, ..old(self).state }),
            final(self).sys == old(self).sys,
    {
        self.state.f = v;
    }

    /// Read operand register `i`; index 6 reads memory at HL and spends
    /// the access cycles.
    fn reg8_get(&mut self, i: u8) -> (r: u8)
        requires
            i < 8,
            old(self).state.cycles <= usize::MAX - 8,
            old(self).sys.inv(),
        ensures
            final(self).sys.inv(),
            final(self).state.cycles == old(self).state.cycles + if i == 6 {
                4int
            } else {
                0int
            },
            same_core_regs(final(self).state, old(self).state),
            final(self).state.pc == old(self).state.pc,
            final(self).state.sp == old(self).state.sp,
            final(self).state.ime == old(self).state.ime,
            final(self).state.ei_delay == old(self).state.ei_delay,
            final(self).state.di_delay == old(self).state.di_delay,
            final(self).state.halt == old(self).state.halt,
            final(self).state.halt_bug == old(self).state.halt_bug,
            final(self).state.fatal == old(self).state.fatal,
            i != 6 ==> r == reg8_spec(old(self).state, i) && *final(self) == *old(self),
            old(self).sys.obeys_mem() ==> final(self).sys == old(self).sys,
    {
        if i == 0 {
            self.get_b()
        } else if i == 1 {
            self.get_c()
        } else if i == 2 {
            self.get_d()
        } else if i == 3 {
            self.get_e()
        } else if i == 4 {
            self.get_h()
        } else if i == 5 {
            self.get_l()
        } else if i == 6 {
            let hl = self.get_hl();
            self.get8(hl)
        } else {
            self.get_a()
        }
    }

    /// Write operand register `i`; index 6 writes memory at HL and spends
    /// the access cycles.
    fn reg8_set(&mut self, i: u8, v: u8)
        requires
            i < 8,
            old(self).state.cycles <= usize::MAX - 8,
            old(self).sys.inv(),
        ensures
            final(self).sys.inv(),
            final(self).state.cycles == old(self).state.cycles + if i == 6 {
                4int
            } else {
                0int
            },
            final(self).state.pc == old(self).state.pc,
            final(self).state.sp == old(self).state.sp,
            final(self).state.ime == old(self).state.ime,
            final(self).state.ei_delay == old(self).state.ei_delay,
            final(self).state.di_delay == old(self).state.di_delay,
            final(self).state.halt == old(self).state.halt,
            final(self).state.halt_bug == old(self).state.halt_bug,
            final(self).state.fatal == old(self).state.fatal,
            i != 6 ==> final(self).state == (CpuState {
                cycles: old(self).state.cycles,
                ..reg8_store(old(self).state, i, v)
            }) && final(self).sys == old(self).sys,
            i == 6 ==> same_core_regs(final(self).state, old(self).state),
            old(self).sys.obeys_mem() ==> final(self).sys.obeys_mem() && final(self).sys.pending_vec() == old(self).sys.pending_vec(),
    {
        if i == 0 {
            self.set_b(v);
        } else if i == 1 {
            self.set_c(v);
        } else if i == 2 {
            self.set_d(v);
        } else if i == 3 {
            self.set_e(v);
        } else if i == 4 {
            self.set_h(v);
        } else if i == 5 {
            self.set_l(v);
        } else if i == 6 {
            let hl = self.get_hl();
            self.set8(hl, v);
        } else {
            self.set_a(v);
        }
    }

    /// Read 16-bit register pair `j` (BC, DE, HL or SP).
    fn rr16_get(&self, j: u8) -> (r: u16)
        requires
            j < 4,
        ensures
            r == rr16_spec(self.state, j),
    {
        if j == 0 {
            self.get_bc()
        } else if j == 1 {
            self.get_de()
        } else if j == 2 {
            self.get_hl()
        } else {
            self.get_sp()
        }
    }

    /// Write 16-bit register pair `j` (BC, DE, HL or SP).
    fn rr16_set(&mut self, j: u8, v: u16)
        requires
            j < 4,
        ensures
            final(self).sys == old(self).sys,
            j < 3 ==> final(self).state == rr16_store(old(self).state, j, v),
            j == 3 ==> final(self).state == (CpuState { sp: v, ..old(self).state }),
    {
        if j == 0 {
            self.set_bc(v);
        } else if j == 1 {
            self.set_de(v);
        } else if j == 2 {
            self.set_hl(v);
        } else {
            self.set_sp(v);
        }
    }

    /// Evaluate the condition field of a conditional instruction.
    fn cond(&self, op: u8) -> (r: bool)
        ensures
            r == cond_taken(op as u16, self.state.f),
    {
        let k = (op >> 3) & 3;
        if k == 0 {
            self.state.f & 0x80 == 0
        } else if k == 1 {
            self.state.f & 0x80 != 0
        } else if k == 2 {
            self.state.f & 0x10 == 0
        } else {
            self.state.f & 0x10 != 0
        }
    }

    /// Apply accumulator operation `k` (ADD, ADC, SUB, SBC, AND, XOR,
    /// OR, CP) with operand `v`.
    fn alu_acc(&mut self, k: u8, v: u8)
        requires
            k < 8,
        ensures
            final(self).sys == old(self).sys,
            final(self).state == (CpuState {
                a: alu::alu8_spec(k, old(self).state.a, old(self).state.f, v).0,
                f: alu::alu8_spec(k, old(self).state.a, old(self).state.f, v).1,
                ..old(self).state
            }),
    {
        let (a, f) = alu::alu8(k, self.state.a, self.state.f, v);
        self.state.a = a;
        self.state.f = f;
    }

    /// Decode and run one instruction, returning its declared T-cycle
    /// count.  The cycles actually spent on the bus (by memory accesses
    /// and internal delays) always equal that count; an LD r,r with equal
    /// source and destination changes nothing but the already-fetched PC.
    /// Illegal opcodes freeze the CPU and report no cycles.
    pub fn decode(&mut self, code: u16) -> (r: usize)
        requires
            old(self).state.cycles <= usize::MAX - 64,
            code <= 0xff || (0xcb00 <= code && code <= 0xcbff),
            old(self).sys.inv(),
        ensures
            final(self).sys.inv(),
            old(self).sys.obeys_mem() ==> final(self).sys.obeys_mem() && final(self).sys.pending_vec() == old(self).sys.pending_vec(),
            r == decode_cycles(code, cond_taken(code, old(self).state.f)),
            r <= 24,
            final(self).state.cycles + (if code > 0xff {
                4int
            } else {
                0int
            }) == old(self).state.cycles + r,
            is_ld_r_r_same(code) ==> {
                &&& same_core_regs(final(self).state, old(self).state)
                &&& final(self).state.pc == old(self).state.pc
                &&& final(self).state.sp == old(self).state.sp
                &&& final(self).state.ime == old(self).state.ime
                &&& final(self).state.ei_delay == old(self).state.ei_delay
                &&& final(self).state.di_delay == old(self).state.di_delay
                &&& final(self).state.halt == old(self).state.halt
                &&& final(self).state.halt_bug == old(self).state.halt_bug
                &&& final(self).state.fatal == old(self).state.fatal
                &&& (old(self).sys.obeys_mem() ==> final(self).sys == old(self).sys)
            },
            // register-to-register loads move exactly the named register
            (0x40 <= code < 0x80 && code != 0x76 && code & 7 != 6 && (code >> 3) & 7 != 6) ==> {
                &&& final(self).state == (CpuState {
                    cycles: final(self).state.cycles,
                    steps_data: final(self).state.steps_data,
                    ..reg8_store(
                        old(self).state,
                        ((code >> 3) & 7) as u8,
                        reg8_spec(old(self).state, (code & 7) as u8),
                    )
                })
                &&& (old(self).sys.obeys_mem() ==> final(self).sys == old(self).sys)
            },
            // accumulator arithmetic on a register operand is exact
            (0x80 <= code < 0xc0 && code & 7 != 6) ==> {
                &&& final(self).state.a == alu::alu8_spec(
                    ((code >> 3) & 7) as u8,
                    old(self).state.a,
                    old(self).state.f,
                    reg8_spec(old(self).state, (code & 7) as u8),
                ).0
                &&& final(self).state.f == alu::alu8_spec(
                    ((code >> 3) & 7) as u8,
                    old(self).state.a,
                    old(self).state.f,
                    reg8_spec(old(self).state, (code & 7) as u8),
                ).1
                &&& (old(self).sys.obeys_mem() ==> final(self).sys == old(self).sys)
            },
            // PUSH leaves the registers alone and stores the pair below SP
            (code <= 0xff && code & 0xcf == 0xc5) ==> {
                &&& same_core_regs(final(self).state, old(self).state)
                &&& final(self).state.sp == crate::cpu::wsub16(old(self).state.sp, 2)
                &&& (old(self).sys.obeys_mem() ==> final(self).sys.mem()
                    == crate::cpu::push_mem_spec(
                    old(self).sys.mem(),
                    old(self).state.sp,
                    if code == 0xf5 {
                        (((old(self).state.a as u16) << 8) | old(self).state.f as u16) as u16
                    } else {
                        rr16_spec(old(self).state, ((code >> 4) & 3) as u8)
                    },
                ))
            },
            // POP loads the pair from the stack and moves SP up
            (code <= 0xff && code & 0xcf == 0xc1 && code != 0xf1 && old(self).sys.obeys_mem())
                ==> final(self).state == (CpuState {
                cycles: final(self).state.cycles,
                steps_data: final(self).state.steps_data,
                sp: crate::cpu::wadd16(old(self).state.sp, 2),
                ..rr16_store(
                    old(self).state,
                    ((code >> 4) & 3) as u8,
                    crate::cpu::mem16(old(self).sys.mem(), old(self).state.sp),
                )
            }),
    {
        if code > 0xff {
            if 0xcb00 <= code && code <= 0xcbff {
                self.step(4);
                self.dec_cb((code - 0xcb00) as u8)
            } else {
                self.state.fatal = true;
                0
            }
        } else {
            let op = code as u8;
            proof {
                let c = code;
                assert(c <= 0xff ==> ((c as u8) & 7) as u16 == (c & 7) && (((c as u8) >> 3)
                    & 7) as u16 == ((c >> 3) & 7) && (((c as u8) >> 4) & 3) as u16 == ((c >> 4)
                    & 3) && (((c as u8) & 0xcf) as u16 == (c & 0xcf)) && ((c as u8) as u16 == c)
                    && ((c as u8) < 0x40) == (c < 0x40) && ((c as u8) < 0x80) == (c < 0x80) && ((
                c as u8) < 0xc0) == (c < 0xc0) && (((c as u8) == 0xd3 || (c as u8) == 0xdb || (
                c as u8) == 0xdd || (c as u8) == 0xe3 || (c as u8) == 0xe4 || (c as u8) == 0xeb
                    || (c as u8) == 0xec || (c as u8) == 0xed || (c as u8) == 0xf4 || (c as u8)
                    == 0xfc || (c as u8) == 0xfd) ==> (c as u8) & 0xcf != 0xc5 && (c as u8) & 0xcf
                    != 0xc1) && (((c as u8) & 0xcf == 0xc5 || (c as u8) & 0xcf == 0xc1) ==> !((
                c as u8) < 0xc0))) by (bit_vector);
            }
            if is_illegal_exec(op) {
                self.state.fatal = true;
                0
            } else {
                self.step(4);
                if op < 0x40 {
                    self.dec_q0(op)
                } else if op < 0x80 {
                    self.dec_ld(op)
                } else if op < 0xc0 {
                    self.dec_alu(op)
                } else {
                    self.dec_q3(op)
                }
            }
        }
    }

    /// Loads, 16-bit arithmetic, rotates and control codes 0x00-0x3f.
    fn dec_q0(&mut self, op: u8) -> (r: usize)
        requires
            op < 0x40,
            old(self).state.cycles <= usize::MAX - 60,
            old(self).state.cycles >= 4,
            old(self).sys.inv(),
        ensures
            final(self).sys.inv(),
            old(self).sys.obeys_mem() ==> final(self).sys.obeys_mem() && final(self).sys.pending_vec() == old(self).sys.pending_vec(),
            r == main_cycles(op, cond_taken(op as u16, old(self).state.f)),
            final(self).state.cycles == old(self).state.cycles + r - 4,
    {
        proof {
            assert(op & 7 < 8 && (op >> 3) & 7 < 8 && (op >> 4) & 3 < 4 && (op < 0x40 ==> op >> 4
                < 4 && op >> 3 < 8)) by (bit_vector);
        }
        if op == 0x00 {
            // NOP
            4
        } else if op & 0xcf == 0x01 {
            // LD rr,d16
            let v = self.fetch16();
            self.rr16_set(op >> 4, v);
            12
        } else if op == 0x02 || op == 0x12 || op == 0x22 || op == 0x32 {
            // LD (BC/DE/HL+/HL-),A
            let a = if op == 0x02 {
                self.get_bc()
            } else if op == 0x12 {
                self.get_de()
            } else {
                self.get_hl()
            };
            let v = self.get_a();
            self.set8(a, v);
            if op == 0x22 {
                self.set_hl(a.wrapping_add(1));
            } else if op == 0x32 {
                self.set_hl(a.wrapping_sub(1));
            }
            8
        } else if op & 0xcf == 0x03 {
            // INC rr
            let j = op >> 4;
            let v = self.rr16_get(j);
            self.rr16_set(j, v.wrapping_add(1));
            self.step(4);
            8
        } else if op & 0xc7 == 0x04 || op & 0xc7 == 0x05 {
            // INC r / DEC r
            let i = (op >> 3) & 7;
            let v = self.reg8_get(i);
            let (nv, f) = if op & 0xc7 == 0x04 {
                alu::inc8(v, self.state.f)
            } else {
                alu::dec8(v, self.state.f)
            };
            self.set_f(f);
            self.reg8_set(i, nv);
            if i == 6 {
                12
            } else {
                4
            }
        } else if op & 0xc7 == 0x06 {
            // LD r,d8
            let i = (op >> 3) & 7;
            let v = self.fetch8();
            self.reg8_set(i, v);
            if i == 6 {
                12
            } else {
                8
            }
        } else if op == 0x07 || op == 0x0f || op == 0x17 || op == 0x1f {
            // RLCA / RRCA / RLA / RRA: like the CB rotates but Z is clear
            let k = op >> 3;
            let cf = self.get_cf();
            let (nv, c) = alu::rot(k, self.get_a(), cf);
            self.set_a(nv);
            let f = alu::flags_exec(false, false, false, c);
            self.set_f(f);
            4
        } else if op == 0x08 {
            // LD (a16),SP
            let a = self.fetch16();
            let sp = self.get_sp();
            self.set16(a, sp);
            20
        } else if op & 0xcf == 0x09 {
            // ADD HL,rr
            let v = self.rr16_get(op >> 4);
            let hl = self.get_hl();
            let (nv, f) = alu::add16(hl, v, self.state.f);
            self.set_hl(nv);
            self.set_f(f);
            self.step(4);
            8
        } else if op == 0x0a || op == 0x1a || op == 0x2a || op == 0x3a {
            // LD A,(BC/DE/HL+/HL-)
            let a = if op == 0x0a {
                self.get_bc()
            } else if op == 0x1a {
                self.get_de()
            } else {
                self.get_hl()
            };
            let v = self.get8(a);
            self.set_a(v);
            if op == 0x2a {
                self.set_hl(a.wrapping_add(1));
            } else if op == 0x3a {
                self.set_hl(a.wrapping_sub(1));
            }
            8
        } else if op & 0xcf == 0x0b {
            // DEC rr
            let j = op >> 4;
            let v = self.rr16_get(j);
            self.rr16_set(j, v.wrapping_sub(1));
            self.step(4);
            8
        } else if op == 0x10 {
            // STOP: freeze the CPU; no ROM in scope resumes from it
            self.stop();
            4
        } else if op == 0x18 {
            // JR d
            let d = self.fetch8();
            let pc = self.get_pc();
            self.jump(pc.wrapping_add(alu::signext8_16_exec(d)));
            12
        } else if op == 0x20 || op == 0x28 || op == 0x30 || op == 0x38 {
            // JR cc,d
            let d = self.fetch8();
            if self.cond(op) {
                let pc = self.get_pc();
                self.jump(pc.wrapping_add(alu::signext8_16_exec(d)));
                12
            } else {
                8
            }
        } else if op == 0x27 {
            // DAA
            let (a, f) = alu::daa(self.state.a, self.state.f);
            self.set_a(a);
            self.set_f(f);
            4
        } else if op == 0x2f {
            // CPL
            let a = self.get_a();
            self.set_a(!a);
            let f = self.state.f | 0x60;
            self.set_f(f);
            4
        } else if op == 0x37 {
            // SCF
            let f = (self.state.f & 0x80) | 0x10;
            self.set_f(f);
            4
        } else {
            // CCF
            let f = (self.state.f & 0x90) ^ 0x10;
            self.set_f(f);
            4
        }
    }

    /// The LD r,r block, 0x40-0x7f, with HALT at 0x76.
    fn dec_ld(&mut self, op: u8) -> (r: usize)
        requires
            0x40 <= op < 0x80,
            old(self).state.cycles <= usize::MAX - 60,
            old(self).state.cycles >= 4,
            old(self).sys.inv(),
        ensures
            final(self).sys.inv(),
            old(self).sys.obeys_mem() ==> final(self).sys.obeys_mem() && final(self).sys.pending_vec() == old(self).sys.pending_vec(),
            r == main_cycles(op, cond_taken(op as u16, old(self).state.f)),
            final(self).state.cycles == old(self).state.cycles + r - 4,
            is_ld_r_r_same(op as u16) ==> {
                &&& same_core_regs(final(self).state, old(self).state)
                &&& final(self).state.pc == old(self).state.pc
                &&& final(self).state.sp == old(self).state.sp
                &&& final(self).state.ime == old(self).state.ime
                &&& final(self).state.ei_delay == old(self).state.ei_delay
                &&& final(self).state.di_delay == old(self).state.di_delay
                &&& final(self).state.halt == old(self).state.halt
                &&& final(self).state.halt_bug == old(self).state.halt_bug
                &&& final(self).state.fatal == old(self).state.fatal
                &&& final(self).sys == old(self).sys
            },
            (op != 0x76 && op & 7 != 6 && (op >> 3) & 7 != 6) ==> final(self).state == (CpuState {
                cycles: old(self).state.cycles,
                ..reg8_store(old(self).state, (op >> 3) & 7, reg8_spec(old(self).state, op & 7))
            }) && final(self).sys == old(self).sys,
    {
        proof {
            assert(op & 7 < 8 && (op >> 3) & 7 < 8) by (bit_vector);
            assert(0x40 <= op && op < 0x80 && op & 7 == 6 && (op >> 3) & 7 == 6 ==> op == 0x76)
                by (bit_vector);
        }
        if op == 0x76 {
            self.halt();
            4
        } else {
            let s = op & 7;
            let d = (op >> 3) & 7;
            let v = self.reg8_get(s);
            self.reg8_set(d, v);
            proof {
                assert((op == 0x40 || op == 0x49 || op == 0x52 || op == 0x5b || op == 0x64 || op
                    == 0x6d || op == 0x7f) ==> (op & 7) == (op >> 3) & 7 && op & 7 != 6)
                    by (bit_vector);
                if is_ld_r_r_same(op as u16) {
                    assert(s == d && s != 6);
                    assert(v == reg8_spec(old(self).state, d));
                    assert(same_core_regs(self.state, old(self).state));
                    assert(self.state.pc == old(self).state.pc);
                    assert(self.sys == old(self).sys);
                }
            }
            if s == 6 || d == 6 {
                8
            } else {
                4
            }
        }
    }

    /// The accumulator arithmetic block, 0x80-0xbf.
    fn dec_alu(&mut self, op: u8) -> (r: usize)
        requires
            0x80 <= op < 0xc0,
            old(self).state.cycles <= usize::MAX - 60,
            old(self).state.cycles >= 4,
            old(self).sys.inv(),
        ensures
            final(self).sys.inv(),
            old(self).sys.obeys_mem() ==> final(self).sys.obeys_mem() && final(self).sys.pending_vec() == old(self).sys.pending_vec(),
            r == main_cycles(op, cond_taken(op as u16, old(self).state.f)),
            final(self).state.cycles == old(self).state.cycles + r - 4,
            op & 7 != 6 ==> {
                &&& final(self).state.a == alu::alu8_spec(
                    (op >> 3) & 7,
                    old(self).state.a,
                    old(self).state.f,
                    reg8_spec(old(self).state, op & 7),
                ).0
                &&& final(self).state.f == alu::alu8_spec(
                    (op >> 3) & 7,
                    old(self).state.a,
                    old(self).state.f,
                    reg8_spec(old(self).state, op & 7),
                ).1
                &&& final(self).sys == old(self).sys
            },
    {
        proof {
            assert(op & 7 < 8 && (op >> 3) & 7 < 8) by (bit_vector);
        }
        let s = op & 7;
        let k = (op >> 3) & 7;
        let v = self.reg8_get(s);
        self.alu_acc(k, v);
        if s == 6 {
            8
        } else {
            4
        }
    }

    /// Control flow, stack and immediate codes 0xc0-0xff.
    fn dec_q3(&mut self, op: u8) -> (r: usize)
        requires
            0xc0 <= op,
            !is_illegal(op),
            old(self).state.cycles <= usize::MAX - 60,
            old(self).state.cycles >= 4,
            old(self).sys.inv(),
        ensures
            final(self).sys.inv(),
            old(self).sys.obeys_mem() ==> final(self).sys.obeys_mem() && final(self).sys.pending_vec() == old(self).sys.pending_vec(),
            r == main_cycles(op, cond_taken(op as u16, old(self).state.f)),
            final(self).state.cycles == old(self).state.cycles + r - 4,
            // PUSH leaves the registers alone and stores the pair below SP
            op & 0xcf == 0xc5 ==> {
                &&& same_core_regs(final(self).state, old(self).state)
                &&& final(self).state.pc == old(self).state.pc
                &&& final(self).state.sp == crate::cpu::wsub16(old(self).state.sp, 2)
                &&& (old(self).sys.obeys_mem() ==> final(self).sys.mem()
                    == crate::cpu::push_mem_spec(
                    old(self).sys.mem(),
                    old(self).state.sp,
                    if op == 0xf5 {
                        (((old(self).state.a as u16) << 8) | old(self).state.f as u16) as u16
                    } else {
                        rr16_spec(old(self).state, (op >> 4) & 3)
                    },
                ))
            },
            // POP loads the pair from the stack and moves SP up
            (op & 0xcf == 0xc1 && op != 0xf1 && old(self).sys.obeys_mem()) ==> {
                &&& final(self).sys == old(self).sys
                &&& final(self).state == (CpuState {
                    cycles: final(self).state.cycles,
                    steps_data: final(self).state.steps_data,
                    sp: crate::cpu::wadd16(old(self).state.sp, 2),
                    ..rr16_store(
                        old(self).state,
                        (op >> 4) & 3,
                        crate::cpu::mem16(old(self).sys.mem(), old(self).state.sp),
                    )
                })
            },
            // POP AF keeps the flag register's low nibble zero
            (op == 0xf1 && old(self).sys.obeys_mem()) ==> {
                &&& final(self).sys == old(self).sys
                &&& final(self).state.a == crate::cpu::mem16(
                    old(self).sys.mem(),
                    old(self).state.sp,
                ) >> 8
                &&& final(self).state.f == crate::cpu::mem16(
                    old(self).sys.mem(),
                    old(self).state.sp,
                ) & 0xf0
                &&& final(self).state.sp == crate::cpu::wadd16(old(self).state.sp, 2)
            },
    {
        proof {
            assert((op >> 3) & 7 < 8 && (op >> 4) & 3 < 4 && (op & 0xcf == 0xc5 ==> !(op & 0xe7
                == 0xc0) && !(op & 0xcf == 0xc1) && !(op & 0xe7 == 0xc2) && op != 0xc3 && !(op
                & 0xe7 == 0xc4)) && (op & 0xcf == 0xc1 ==> !(op & 0xe7 == 0xc0)) && (op == 0xf1
                ==> !(op & 0xe7 == 0xc0) && op & 0xcf == 0xc1) && (op & 0xcf == 0xc5 && op != 0xf5
                ==> (op >> 4) & 3 < 3) && (op & 0xcf == 0xc1 && op != 0xf1 ==> (op >> 4) & 3 < 3))
                by (bit_vector);
        }
        if op & 0xe7 == 0xc0 {
            // RET cc
            let taken = self.cond(op);
            self.step(4);
            if taken {
                let a = self.pop();
                self.jump(a);
                20
            } else {
                8
            }
        } else if op & 0xcf == 0xc1 {
            // POP rr / POP AF (the flag register keeps its low nibble zero)
            let v = self.pop();
            proof {
                let vv = v;
                assert(vv >> 8 <= 0xff && vv & 0xf0 <= 0xff) by (bit_vector);
            }
            if op == 0xf1 {
                self.set_af(v);
            } else {
                self.rr16_set((op >> 4) & 3, v);
            }
            12
        } else if op & 0xe7 == 0xc2 {
            // JP cc,a16
            let a = self.fetch16();
            if self.cond(op) {
                self.jump(a);
                16
            } else {
                12
            }
        } else if op == 0xc3 {
            // JP a16
            let a = self.fetch16();
            self.jump(a);
            16
        } else if op & 0xe7 == 0xc4 {
            // CALL cc,a16
            let a = self.fetch16();
            if self.cond(op) {
                let pc = self.get_pc();
                self.push(pc);
                self.jump(a);
                24
            } else {
                12
            }
        } else if op & 0xcf == 0xc5 {
            // PUSH rr / PUSH AF
            self.step(4);
            let v = if op == 0xf5 {
                self.get_af()
            } else {
                self.rr16_get((op >> 4) & 3)
            };
            self.push(v);
            16
        } else if op & 0xc7 == 0xc6 {
            // ALU d8
            let v = self.fetch8();
            self.alu_acc((op >> 3) & 7, v);
            8
        } else if op & 0xc7 == 0xc7 {
            // RST n
            self.step(4);
            let pc = self.get_pc();
            self.push(pc);
            self.set_pc((op & 0x38) as u16);
            16
        } else if op == 0xc9 || op == 0xd9 {
            // RET / RETI
            let a = self.pop();
            self.jump(a);
            if op == 0xd9 {
                self.enable_interrupt();
            }
            16
        } else if op == 0xcd {
            // CALL a16
            let a = self.fetch16();
            let pc = self.get_pc();
            self.push(pc);
            self.jump(a);
            24
        } else if op == 0xe0 || op == 0xf0 {
            // LDH (a8),A / LDH A,(a8)
            let n = self.fetch8();
            if op == 0xe0 {
                let v = self.get_a();
                self.set8(0xff00 | n as u16, v);
            } else {
                let v = self.get8(0xff00 | n as u16);
                self.set_a(v);
            }
            12
        } else if op == 0xe2 || op == 0xf2 {
            // LD (C),A / LD A,(C)
            let c = self.get_c();
            if op == 0xe2 {
                let v = self.get_a();
                self.set8(0xff00 | c as u16, v);
            } else {
                let v = self.get8(0xff00 | c as u16);
                self.set_a(v);
            }
            8
        } else if op == 0xe8 {
            // ADD SP,d
            let d = self.fetch8();
            let (nv, f) = alu::addsp(self.get_sp(), d);
            self.set_sp(nv);
            self.set_f(f);
            self.step(8);
            16
        } else if op == 0xf8 {
            // LD HL,SP+d
            let d = self.fetch8();
            let (nv, f) = alu::addsp(self.get_sp(), d);
            self.set_hl(nv);
            self.set_f(f);
            self.step(4);
            12
        } else if op == 0xe9 {
            // JP HL: no internal delay
            let hl = self.get_hl();
            self.set_pc(hl);
            4
        } else if op == 0xf9 {
            // LD SP,HL
            let hl = self.get_hl();
            self.set_sp(hl);
            self.step(4);
            8
        } else if op == 0xea || op == 0xfa {
            // LD (a16),A / LD A,(a16)
            let a = self.fetch16();
            if op == 0xea {
                let v = self.get_a();
                self.set8(a, v);
            } else {
                let v = self.get8(a);
                self.set_a(v);
            }
            16
        } else if op == 0xf3 {
            // DI
            self.di();
            4
        } else {
            // EI (0xfb)
            self.ei();
            4
        }
    }

    /// The 0xcb-prefixed page: rotates and shifts, BIT, RES and SET.
    fn dec_cb(&mut self, op: u8) -> (r: usize)
        requires
            old(self).state.cycles <= usize::MAX - 60,
            old(self).sys.inv(),
        ensures
            final(self).sys.inv(),
            old(self).sys.obeys_mem() ==> final(self).sys.obeys_mem() && final(self).sys.pending_vec() == old(self).sys.pending_vec(),
            r == cb_cycles(op),
            final(self).state.cycles == old(self).state.cycles + r - 8,
    {
        proof {
            assert(op & 7 < 8 && op >> 3 < 32) by (bit_vector);
        }
        let i = op & 7;
        let k = op >> 3;
        if k < 8 {
            // RLC/RRC/RL/RR/SLA/SRA/SWAP/SRL
            let v = self.reg8_get(i);
            let cf = self.get_cf();
            let (nv, c) = alu::rot(k, v, cf);
            let f = alu::flags_exec(nv == 0, false, false, c);
            self.set_f(f);
            self.reg8_set(i, nv);
            if i == 6 {
                16
            } else {
                8
            }
        } else if k < 16 {
            // BIT n: Z from the tested bit, H set, C preserved
            let n = k - 8;
            let v = self.reg8_get(i);
            let z = v & (1u8 << n) == 0;
            let f = alu::flags_exec(z, false, true, self.get_cf());
            self.set_f(f);
            if i == 6 {
                12
            } else {
                8
            }
        } else if k < 24 {
            // RES n
            let n = k - 16;
            let v = self.reg8_get(i);
            self.reg8_set(i, v & !(1u8 << n));
            if i == 6 {
                16
            } else {
                8
            }
        } else {
            // SET n
            let n = k - 24;
            let v = self.reg8_get(i);
            self.reg8_set(i, v | (1u8 << n));
            if i == 6 {
                16
            } else {
                8
            }
        }
    }
}

} // verus!
