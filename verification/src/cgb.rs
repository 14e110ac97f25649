//! CGB speed switch: the KEY1 register (0xff4d) arms a switch between
//! normal and double speed, and a STOP instruction performs it.

use vstd::prelude::*;

verus! {

pub struct Cgb {
    double_speed: bool,
    speed_switch: bool,
}

impl Cgb {
    pub closed spec fn double_speed_spec(&self) -> bool {
        self.double_speed
    }

    pub closed spec fn speed_switch_spec(&self) -> bool {
        self.speed_switch
    }

    pub fn new() -> (r: Cgb)
        ensures
            !r.double_speed_spec(),
            !r.speed_switch_spec(),
    {
        Cgb { double_speed: false, speed_switch: false }
    }

    /// Perform the armed speed switch, if any.
    pub fn try_switch_speed(&mut self)
        ensures
            final(self).double_speed_spec() == if old(self).speed_switch_spec() {
                !old(self).double_speed_spec()
            } else {
                old(self).double_speed_spec()
            },
            !final(self).speed_switch_spec(),
    {
        if self.speed_switch {
            self.double_speed = !self.double_speed;
        }
        self.speed_switch = false;
    }

    /// Whether the CPU runs at double speed.
    pub fn double_speed(&self) -> (r: bool)
        ensures
            r == self.double_speed_spec(),
    {
        self.double_speed
    }

    /// Read the KEY1 register (0xff4d): bit 7 is the current speed,
    /// bit 0 the armed switch.
    pub fn read_speed_switch(&self) -> (r: u8)
        ensures
            r == (if self.double_speed_spec() {
                0x80u8
            } else {
                0x00u8
            }) | (if self.speed_switch_spec() {
                0x01u8
            } else {
                0x00u8
            }),
    {
        (if self.double_speed {
            0x80u8
        } else {
            0x00u8
        }) | (if self.speed_switch {
            0x01u8
        } else {
            0x00u8
        })
    }

    /// Write the KEY1 register (0xff4d): bit 0 arms a speed switch.
    pub fn write_speed_switch(&mut self, value: u8)
        ensures
            final(self).double_speed_spec() == old(self).double_speed_spec(),
            final(self).speed_switch_spec() == (value & 0x01 != 0),
    {
        self.speed_switch = value & 0x01 != 0;
    }
}

} // verus!
