//! High RAM: 127 bytes at 0xff80-0xfffe, ordinary storage that stays
//! reachable even while OAM DMA runs.

use vstd::prelude::*;

verus! {

pub const HRAM_START: u16 = 0xff80;

pub const HRAM_END: u16 = 0xfffe;

pub struct HighRam {
    ram: [u8; 0x7f],
}

impl HighRam {
    /// The stored bytes, indexed from 0xff80.
    pub closed spec fn view_spec(&self) -> Seq<u8> {
        self.ram@
    }

    pub fn new() -> (r: HighRam)
        ensures
            r.view_spec() == Seq::new(0x7f, |i: int| 0u8),
    {
        let r = HighRam { ram: [0u8; 0x7f] };
        proof {
            assert(r.view_spec() =~= Seq::new(0x7f, |i: int| 0u8));
        }
        r
    }

    /// Read one byte of high RAM.
    pub fn get8(&self, addr: u16) -> (r: u8)
        requires
            HRAM_START <= addr <= HRAM_END,
        ensures
            r == self.view_spec()[addr - HRAM_START],
    {
        self.ram[(addr - HRAM_START) as usize]
    }

    /// Write one byte of high RAM.
    pub fn set8(&mut self, addr: u16, value: u8)
        requires
            HRAM_START <= addr <= HRAM_END,
        ensures
            final(self).view_spec() == old(self).view_spec().update(addr - HRAM_START, value),
    {
        self.ram[(addr - HRAM_START) as usize] = value;
    }
}

} // verus!
