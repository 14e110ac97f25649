//! Interrupt controller: the 5-bit IE (interrupt enable) and IF (interrupt
//! request) masks, and the priority rule that picks the vector to service.

use vstd::prelude::*;

verus! {

/// Bit positions of the five interrupt sources inside IE and IF.
/// Priority is ascending bit order: the lowest set-and-enabled bit wins.
pub const INT_VBLANK: u8 = 0x01;

pub const INT_LCD: u8 = 0x02;

pub const INT_TIMER: u8 = 0x04;

pub const INT_SERIAL: u8 = 0x08;

pub const INT_JOYPAD: u8 = 0x10;

/// Shared handle that peripherals use to request or cancel interrupts.
/// `enable` mirrors IE (0xffff), `request` mirrors IF (0xff0f).
pub struct Irq {
    pub enable: u8,
    pub request: u8,
}

impl Irq {
    pub fn new() -> (r: Irq)
        ensures
            r.enable == 0,
            r.request == 0,
    {
        Irq { enable: 0, request: 0 }
    }

    /// Request or cancel the V-blank interrupt.
    pub fn vblank(&mut self, v: bool)
        ensures
            final(self).enable == old(self).enable,
            final(self).request == set_bit(old(self).request, INT_VBLANK, v),
    {
        self.request = set_bit_exec(self.request, INT_VBLANK, v);
    }

    /// Request or cancel the LCD status interrupt.
    pub fn lcd(&mut self, v: bool)
        ensures
            final(self).enable == old(self).enable,
            final(self).request == set_bit(old(self).request, INT_LCD, v),
    {
        self.request = set_bit_exec(self.request, INT_LCD, v);
    }

    /// Request or cancel the timer interrupt.
    pub fn timer(&mut self, v: bool)
        ensures
            final(self).enable == old(self).enable,
            final(self).request == set_bit(old(self).request, INT_TIMER, v),
    {
        self.request = set_bit_exec(self.request, INT_TIMER, v);
    }

    /// Request or cancel the serial interrupt.
    pub fn serial(&mut self, v: bool)
        ensures
            final(self).enable == old(self).enable,
            final(self).request == set_bit(old(self).request, INT_SERIAL, v),
    {
        self.request = set_bit_exec(self.request, INT_SERIAL, v);
    }

    /// Request or cancel the joypad interrupt.
    pub fn joypad(&mut self, v: bool)
        ensures
            final(self).enable == old(self).enable,
            final(self).request == set_bit(old(self).request, INT_JOYPAD, v),
    {
        self.request = set_bit_exec(self.request, INT_JOYPAD, v);
    }
}

/// `mask` with bit `bit` set when `v` is true, cleared when it is false.
pub open spec fn set_bit(mask: u8, bit: u8, v: bool) -> u8 {
    if v {
        mask | bit
    } else {
        mask & !bit
    }
}

fn set_bit_exec(mask: u8, bit: u8, v: bool) -> (r: u8)
    ensures
        r == set_bit(mask, bit, v),
{
    if v {
        mask | bit
    } else {
        mask & !bit
    }
}

/// The vector that the pending interrupt in `bit` jumps to.
pub open spec fn vector_of(bit: u8) -> u8 {
    if bit == INT_VBLANK {
        0x40
    } else if bit == INT_LCD {
        0x48
    } else if bit == INT_TIMER {
        0x50
    } else if bit == INT_SERIAL {
        0x58
    } else {
        0x60
    }
}

/// The vector of the winning pending interrupt, if any.
pub open spec fn pending_vector(irq: Irq) -> Option<u8> {
    match pending_bit(irq) {
        Some(b) => Some(vector_of(b)),
        None => None,
    }
}

/// The lowest-numbered bit that is both enabled and requested, if any.
pub open spec fn pending_bit(irq: Irq) -> Option<u8> {
    let p = irq.enable & irq.request;
    if p & INT_VBLANK != 0 {
        Some(INT_VBLANK)
    } else if p & INT_LCD != 0 {
        Some(INT_LCD)
    } else if p & INT_TIMER != 0 {
        Some(INT_TIMER)
    } else if p & INT_SERIAL != 0 {
        Some(INT_SERIAL)
    } else if p & INT_JOYPAD != 0 {
        Some(INT_JOYPAD)
    } else {
        None
    }
}

/// Get the interrupt vector address without clearing the request bit.
pub fn peek(irq: &mut Irq) -> (r: Option<u8>)
    ensures
        *final(irq) == *old(irq),
        r == pending_vector(*old(irq)),
{
    check(false, irq)
}

/// Get the interrupt vector address, clearing the request bit that won.
pub fn pop(irq: &mut Irq) -> (r: Option<u8>)
    ensures
        final(irq).enable == old(irq).enable,
        r == pending_vector(*old(irq)),
        match pending_bit(*old(irq)) {
            Some(b) => final(irq).request == set_bit(old(irq).request, b, false),
            None => final(irq).request == old(irq).request,
        },
{
    check(true, irq)
}

fn check(consume: bool, irq: &mut Irq) -> (r: Option<u8>)
    ensures
        final(irq).enable == old(irq).enable,
        r == pending_vector(*old(irq)),
        match pending_bit(*old(irq)) {
            Some(b) => final(irq).request == if consume {
                set_bit(old(irq).request, b, false)
            } else {
                old(irq).request
            },
            None => final(irq).request == old(irq).request,
        },
{
    let p = irq.enable & irq.request;
    let bit: u8 = if p & INT_VBLANK != 0 {
        INT_VBLANK
    } else if p & INT_LCD != 0 {
        INT_LCD
    } else if p & INT_TIMER != 0 {
        INT_TIMER
    } else if p & INT_SERIAL != 0 {
        INT_SERIAL
    } else if p & INT_JOYPAD != 0 {
        INT_JOYPAD
    } else {
        return None;
    };
    if consume {
        irq.request = irq.request & !bit;
    }
    Some(vector_of_exec(bit))
}

fn vector_of_exec(bit: u8) -> (r: u8)
    ensures
        r == vector_of(bit),
{
    if bit == INT_VBLANK {
        0x40
    } else if bit == INT_LCD {
        0x48
    } else if bit == INT_TIMER {
        0x50
    } else if bit == INT_SERIAL {
        0x58
    } else {
        0x60
    }
}

/// Read the IE register (0xffff).
pub fn read_enabled(irq: &Irq) -> (r: u8)
    ensures
        r == irq.enable,
{
    irq.enable
}

/// Read the IF register (0xff0f); the unused high bits read back as 1.
pub fn read_flags(irq: &Irq) -> (r: u8)
    ensures
        r == irq.request | 0xe0,
{
    irq.request | 0xe0
}

/// Write the IE register (0xffff).
pub fn write_enabled(value: u8, irq: &mut Irq)
    ensures
        final(irq).enable == value,
        final(irq).request == old(irq).request,
{
    irq.enable = value;
}

/// Write the IF register (0xff0f).
pub fn write_flags(value: u8, irq: &mut Irq)
    ensures
        final(irq).enable == old(irq).enable,
        final(irq).request == value,
{
    irq.request = value;
}

} // verus!
