//! Pure SM83 arithmetic-logic helpers: 8- and 16-bit arithmetic with the
//! exact Z/N/H/C flag semantics, the rotate/shift family and DAA.
//!
//! Flag register layout: Z is bit 7, N bit 6, H bit 5, C bit 4; the low
//! nibble is always zero.

use vstd::prelude::*;

verus! {

/// 8-bit arithmetic modulo 256.
pub open spec fn wadd8(a: u8, b: u8) -> u8 {
    vstd::wrapping::u8_specs::wrapping_add(a, b)
}

/// 8-bit arithmetic modulo 256.
pub open spec fn wsub8(a: u8, b: u8) -> u8 {
    vstd::wrapping::u8_specs::wrapping_sub(a, b)
}

/// The low nibble of a byte is at most 0xf.
proof fn lemma_low_nibble(a: u8, b: u8)
    ensures
        a & 0xf <= 0xf,
        b & 0xf <= 0xf,
{
    assert(a & 0xf <= 0xf && b & 0xf <= 0xf) by (bit_vector);
}

/// Build a flag register value from the four flags.
pub open spec fn flags(z: bool, n: bool, h: bool, c: bool) -> u8 {
    (if z {
        0x80u8
    } else {
        0u8
    }) | (if n {
        0x40u8
    } else {
        0u8
    }) | (if h {
        0x20u8
    } else {
        0u8
    }) | (if c {
        0x10u8
    } else {
        0u8
    })
}

pub fn flags_exec(z: bool, n: bool, h: bool, c: bool) -> (r: u8)
    ensures
        r == flags(z, n, h, c),
{
    (if z {
        0x80u8
    } else {
        0u8
    }) | (if n {
        0x40u8
    } else {
        0u8
    }) | (if h {
        0x20u8
    } else {
        0u8
    }) | (if c {
        0x10u8
    } else {
        0u8
    })
}

/// Result and flags of an 8-bit add with optional carry in:
/// Z as computed, N clear, H on carry out of bit 3, C out of bit 7.
pub open spec fn add8_spec(a: u8, b: u8, cin: bool) -> (u8, u8) {
    let ci: u8 = if cin {
        1
    } else {
        0
    };
    let r = wadd8(wadd8(a, b), ci);
    (r, flags(r == 0, false, (a & 0xf) + (b & 0xf) + ci > 0xf, a + b + ci > 0xff))
}

/// Result and flags of an 8-bit subtract with optional borrow in:
/// Z as computed, N set, H on borrow from bit 4, C on full borrow.
pub open spec fn sub8_spec(a: u8, b: u8, cin: bool) -> (u8, u8) {
    let ci: u8 = if cin {
        1
    } else {
        0
    };
    let r = wsub8(wsub8(a, b), ci);
    (r, flags(r == 0, true, (a & 0xf) < (b & 0xf) + ci, (a as int) < b + ci))
}

pub fn add8(a: u8, b: u8, cin: bool) -> (r: (u8, u8))
    ensures
        r == add8_spec(a, b, cin),
{
    let ci: u8 = if cin {
        1
    } else {
        0
    };
    proof {
        lemma_low_nibble(a, b);
    }
    let res = a.wrapping_add(b).wrapping_add(ci);
    let h = (a & 0xf) + (b & 0xf) + ci > 0xf;
    let c = (a as u16) + (b as u16) + (ci as u16) > 0xff;
    (res, flags_exec(res == 0, false, h, c))
}

pub fn sub8(a: u8, b: u8, cin: bool) -> (r: (u8, u8))
    ensures
        r == sub8_spec(a, b, cin),
{
    let ci: u8 = if cin {
        1
    } else {
        0
    };
    proof {
        lemma_low_nibble(a, b);
    }
    let res = a.wrapping_sub(b).wrapping_sub(ci);
    let h = (a & 0xf) < (b & 0xf) + ci;
    let c = (a as u16) < (b as u16) + (ci as u16);
    (res, flags_exec(res == 0, true, h, c))
}

/// Result and flags of the three bitwise operations: N and C clear,
/// H set only for AND.
pub open spec fn and8_spec(a: u8, b: u8) -> (u8, u8) {
    let r = a & b;
    (r, flags(r == 0, false, true, false))
}

pub open spec fn xor8_spec(a: u8, b: u8) -> (u8, u8) {
    let r = a ^ b;
    (r, flags(r == 0, false, false, false))
}

pub open spec fn or8_spec(a: u8, b: u8) -> (u8, u8) {
    let r = a | b;
    (r, flags(r == 0, false, false, false))
}

/// Result and flags of INC r: C is preserved from the old flags.
pub open spec fn inc8_spec(v: u8, f: u8) -> (u8, u8) {
    let r = wadd8(v, 1);
    (r, (flags(r == 0, false, v & 0xf == 0xf, false) | (f & 0x10)) as u8)
}

/// Result and flags of DEC r: C is preserved from the old flags.
pub open spec fn dec8_spec(v: u8, f: u8) -> (u8, u8) {
    let r = wsub8(v, 1);
    (r, (flags(r == 0, true, v & 0xf == 0, false) | (f & 0x10)) as u8)
}

pub fn inc8(v: u8, f: u8) -> (r: (u8, u8))
    ensures
        r == inc8_spec(v, f),
{
    let res = v.wrapping_add(1);
    (res, flags_exec(res == 0, false, v & 0xf == 0xf, false) | (f & 0x10))
}

pub fn dec8(v: u8, f: u8) -> (r: (u8, u8))
    ensures
        r == dec8_spec(v, f),
{
    let res = v.wrapping_sub(1);
    (res, flags_exec(res == 0, true, v & 0xf == 0, false) | (f & 0x10))
}

/// Which accumulator operation the three bits of an opcode select.
/// The result is the new accumulator and flag values; CP leaves the
/// accumulator unchanged.
pub open spec fn alu8_spec(k: u8, a: u8, f: u8, v: u8) -> (u8, u8) {
    if k == 0 {
        add8_spec(a, v, false)
    } else if k == 1 {
        add8_spec(a, v, f & 0x10 != 0)
    } else if k == 2 {
        sub8_spec(a, v, false)
    } else if k == 3 {
        sub8_spec(a, v, f & 0x10 != 0)
    } else if k == 4 {
        and8_spec(a, v)
    } else if k == 5 {
        xor8_spec(a, v)
    } else if k == 6 {
        or8_spec(a, v)
    } else {
        (a, sub8_spec(a, v, false).1)
    }
}

pub fn alu8(k: u8, a: u8, f: u8, v: u8) -> (r: (u8, u8))
    requires
        k < 8,
    ensures
        r == alu8_spec(k, a, f, v),
{
    if k == 0 {
        add8(a, v, false)
    } else if k == 1 {
        add8(a, v, f & 0x10 != 0)
    } else if k == 2 {
        sub8(a, v, false)
    } else if k == 3 {
        sub8(a, v, f & 0x10 != 0)
    } else if k == 4 {
        let r = a & v;
        (r, flags_exec(r == 0, false, true, false))
    } else if k == 5 {
        let r = a ^ v;
        (r, flags_exec(r == 0, false, false, false))
    } else if k == 6 {
        let r = a | v;
        (r, flags_exec(r == 0, false, false, false))
    } else {
        let (_, nf) = sub8(a, v, false);
        (a, nf)
    }
}

/// Result and carry of the rotate/shift family the CB prefix selects:
/// RLC, RRC, RL, RR, SLA, SRA, SWAP, SRL in that order.
pub open spec fn rot_spec(k: u8, v: u8, cf: bool) -> (u8, bool) {
    let ci: u8 = if cf {
        1
    } else {
        0
    };
    if k == 0 {
        ((v << 1 | v >> 7) as u8, v & 0x80 != 0)
    } else if k == 1 {
        ((v >> 1 | v << 7) as u8, v & 1 != 0)
    } else if k == 2 {
        ((v << 1 | ci) as u8, v & 0x80 != 0)
    } else if k == 3 {
        ((v >> 1 | ci << 7) as u8, v & 1 != 0)
    } else if k == 4 {
        ((v << 1) as u8, v & 0x80 != 0)
    } else if k == 5 {
        ((v >> 1 | (v & 0x80)) as u8, v & 1 != 0)
    } else if k == 6 {
        ((v >> 4 | v << 4) as u8, false)
    } else {
        ((v >> 1) as u8, v & 1 != 0)
    }
}

pub fn rot(k: u8, v: u8, cf: bool) -> (r: (u8, bool))
    requires
        k < 8,
    ensures
        r == rot_spec(k, v, cf),
{
    let ci: u8 = if cf {
        1
    } else {
        0
    };
    if k == 0 {
        (v << 1 | v >> 7, v & 0x80 != 0)
    } else if k == 1 {
        (v >> 1 | v << 7, v & 1 != 0)
    } else if k == 2 {
        (v << 1 | ci, v & 0x80 != 0)
    } else if k == 3 {
        (v >> 1 | ci << 7, v & 1 != 0)
    } else if k == 4 {
        (v << 1, v & 0x80 != 0)
    } else if k == 5 {
        (v >> 1 | (v & 0x80), v & 1 != 0)
    } else if k == 6 {
        (v >> 4 | v << 4, false)
    } else {
        (v >> 1, v & 1 != 0)
    }
}

/// Result and flags of ADD HL,rr: Z preserved, N clear, H on carry out
/// of bit 11, C out of bit 15.
pub open spec fn add16_spec(hl: u16, v: u16, f: u8) -> (u16, u8) {
    let r = vstd::wrapping::u16_specs::wrapping_add(hl, v);
    (
        r,
        (flags(false, false, (hl & 0xfff) + (v & 0xfff) > 0xfff, hl + v > 0xffff) | (f
            & 0x80)) as u8,
    )
}

pub fn add16(hl: u16, v: u16, f: u8) -> (r: (u16, u8))
    ensures
        r == add16_spec(hl, v, f),
{
    proof {
        assert(hl & 0xfff <= 0xfff && v & 0xfff <= 0xfff) by (bit_vector);
    }
    let res = hl.wrapping_add(v);
    let h = (hl & 0xfff) + (v & 0xfff) > 0xfff;
    let c = (hl as u32) + (v as u32) > 0xffff;
    (res, flags_exec(false, false, h, c) | (f & 0x80))
}

/// The 8-bit immediate of JR, ADD SP and LD HL,SP+d, sign-extended.
pub open spec fn signext8_16(d: u8) -> u16 {
    if d < 0x80 {
        d as u16
    } else {
        (d + 0xff00) as u16
    }
}

pub fn signext8_16_exec(d: u8) -> (r: u16)
    ensures
        r == signext8_16(d),
{
    if d < 0x80 {
        d as u16
    } else {
        proof {
            assert(d >= 0x80 ==> ((d as u16) | 0xff00) == d + 0xff00) by (bit_vector);
        }
        (d as u16) | 0xff00
    }
}

/// Result and flags of ADD SP,d and LD HL,SP+d: Z and N clear, H and C
/// from the unsigned low-byte addition.
pub open spec fn addsp_spec(sp: u16, d: u8) -> (u16, u8) {
    let r = vstd::wrapping::u16_specs::wrapping_add(sp, signext8_16(d));
    (r, flags(false, false, (sp & 0xf) + (d & 0xf) > 0xf, (sp & 0xff) + d > 0xff))
}

pub fn addsp(sp: u16, d: u8) -> (r: (u16, u8))
    ensures
        r == addsp_spec(sp, d),
{
    proof {
        assert(sp & 0xf <= 0xf && d & 0xf <= 0xf && sp & 0xff <= 0xff) by (bit_vector);
    }
    let res = sp.wrapping_add(signext8_16_exec(d));
    let h = (sp & 0xf) as u16 + (d & 0xf) as u16 > 0xf;
    let c = (sp & 0xff) + (d as u16) > 0xff;
    (res, flags_exec(false, false, h, c))
}

/// Result and flags of DAA: adjust the accumulator after BCD arithmetic
/// using the N, H and C flags, per the canonical SM83 table.
pub open spec fn daa_spec(a: u8, f: u8) -> (u8, u8) {
    let n = f & 0x40 != 0;
    let h = f & 0x20 != 0;
    let c = f & 0x10 != 0;
    if !n {
        let c1 = c || a > 0x99;
        let a1 = if c1 {
            wadd8(a, 0x60)
        } else {
            a
        };
        let a2 = if h || a1 & 0xf > 9 {
            wadd8(a1, 0x06)
        } else {
            a1
        };
        (a2, flags(a2 == 0, false, false, c1))
    } else {
        let a1 = if c {
            wsub8(a, 0x60)
        } else {
            a
        };
        let a2 = if h {
            wsub8(a1, 0x06)
        } else {
            a1
        };
        (a2, flags(a2 == 0, true, false, c))
    }
}

pub fn daa(a: u8, f: u8) -> (r: (u8, u8))
    ensures
        r == daa_spec(a, f),
{
    let n = f & 0x40 != 0;
    let h = f & 0x20 != 0;
    let c = f & 0x10 != 0;
    if !n {
        let c1 = c || a > 0x99;
        let a1 = if c1 {
            a.wrapping_add(0x60)
        } else {
            a
        };
        let a2 = if h || a1 & 0xf > 9 {
            a1.wrapping_add(0x06)
        } else {
            a1
        };
        (a2, flags_exec(a2 == 0, false, false, c1))
    } else {
        let a1 = if c {
            a.wrapping_sub(0x60)
        } else {
            a
        };
        let a2 = if h {
            a1.wrapping_sub(0x06)
        } else {
            a1
        };
        (a2, flags_exec(a2 == 0, true, false, c))
    }
}

/// How a 16-bit value composed from a high and a low byte relates to its
/// parts: shifting recovers the high byte, masking the low one.
pub proof fn lemma_hi_lo(h: u8, l: u8)
    ensures
        ((h as u16) << 8 | l as u16) >> 8 == h,
        ((h as u16) << 8 | l as u16) & 0xff == l,
        ((h as u16) << 8 | l as u16) == h * 0x100 + l,
        ((h as u16) << 8 | l as u16) == (l as u16 | ((h as u16) << 8)),
{
    assert((((h as u16) << 8 | l as u16) >> 8 == h) && (((h as u16) << 8 | l as u16) & 0xff == l)
        && (((h as u16) << 8 | l as u16) == (h as u16) * 0x100 + (l as u16)) && (((h as u16) << 8
        | l as u16) == (l as u16 | ((h as u16) << 8)))) by (bit_vector);
}

} // verus!
