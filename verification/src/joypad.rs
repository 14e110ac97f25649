//! Joypad: bits 4/5 of register 0xff00 select the direction or action row,
//! bits 3..0 read back 0 for a pressed key in the selected row.  A newly
//! visible press (a 1 to 0 edge) raises the joypad interrupt.

use crate::hardware::JoypadInput;
use crate::ic::Irq;
use vstd::prelude::*;

verus! {

pub struct Joypad {
    /// Row-select bits as written to 0xff00 (only bits 4 and 5 kept).
    flags: u8,
    /// The register value the last poll produced.
    pressed: u8,
}

/// What the joypad register reads back for the given row selection and
/// input snapshot: selected row's keys in bits 3..0 (0 = pressed),
/// 0xff when no row is selected.
pub open spec fn joypad_check(flags: u8, input: JoypadInput) -> u8 {
    if flags & 0x10 == 0 {
        flags | ((!input.bits) >> 4)
    } else if flags & 0x20 == 0 {
        flags | ((!input.bits) & 0x0f)
    } else {
        0xff
    }
}

impl Joypad {
    pub closed spec fn flags_spec(&self) -> u8 {
        self.flags
    }

    pub closed spec fn pressed_spec(&self) -> u8 {
        self.pressed
    }

    pub fn new() -> (r: Joypad)
        ensures
            r.flags_spec() == 0x30,
            r.pressed_spec() == 0x0f,
    {
        Joypad { flags: 0x30, pressed: 0x0f }
    }

    /// Sample the host's input snapshot; raise the joypad interrupt when a
    /// key in the selected row became newly pressed (a bit fell 1 to 0).
    pub fn poll(&mut self, irq: &mut Irq, joypad_input: JoypadInput)
        ensures
            final(self).flags_spec() == old(self).flags_spec(),
            final(self).pressed_spec() == joypad_check(old(self).flags_spec(), joypad_input),
            final(irq).enable == old(irq).enable,
            final(irq).request == if old(self).pressed_spec() & joypad_check(
                old(self).flags_spec(),
                joypad_input,
            ) < old(self).pressed_spec() {
                old(irq).request | crate::ic::INT_JOYPAD
            } else {
                old(irq).request
            },
    {
        let pressed = self.check(joypad_input);
        if self.pressed & pressed < self.pressed {
            irq.joypad(true);
        }
        self.pressed = pressed;
    }

    fn check(&self, joypad_input: JoypadInput) -> (r: u8)
        ensures
            r == joypad_check(self.flags_spec(), joypad_input),
    {
        if self.flags & 0x10 == 0 {
            self.flags | ((!joypad_input.bits) >> 4)
        } else if self.flags & 0x20 == 0 {
            self.flags | ((!joypad_input.bits) & 0x0f)
        } else {
            0xff
        }
    }

    /// Read the joypad register (0xff00).
    pub fn read(&self, joypad_input: JoypadInput) -> (r: u8)
        ensures
            r == joypad_check(self.flags_spec(), joypad_input),
    {
        self.check(joypad_input)
    }

    /// Write the joypad register (0xff00); only the row-select bits stick.
    pub fn write(&mut self, value: u8)
        ensures
            final(self).flags_spec() == value & 0x30,
            final(self).pressed_spec() == old(self).pressed_spec(),
    {
        self.flags = value & 0x30;
    }
}

} // verus!
