//! Cartridge memory-bank controllers: MBC1, MBC2, MBC3 (with the
//! real-time clock), MBC5 and plain ROM, selected by the cartridge-type
//! byte of the header.  Banked reads are reduced modulo the ROM and RAM
//! sizes, so every access is total.

use crate::hardware::Hardware;
use vstd::prelude::*;

verus! {

/// Why a cartridge cannot be constructed: its type byte names a mapper
/// this core does not implement.
#[derive(Clone, Copy, Debug, PartialEq, Eq, Structural)]
pub enum CartridgeError {
    UnsupportedType(u8),
}

/// The MBC1 quirk: bank 0 selects bank 1, and banks 0x20, 0x40 and 0x60
/// are remapped one up.
pub open spec fn mbc1_eff_bank(b: usize) -> usize {
    let b1: usize = if b == 0 {
        1
    } else {
        b
    };
    if b1 == 0x20 || b1 == 0x40 || b1 == 0x60 {
        (b1 + 1) as usize
    } else {
        b1
    }
}

fn mbc1_eff_bank_exec(b: usize) -> (r: usize)
    requires
        b < 0x100,
    ensures
        r == mbc1_eff_bank(b),
{
    let b1: usize = if b == 0 {
        1
    } else {
        b
    };
    if b1 == 0x20 || b1 == 0x40 || b1 == 0x60 {
        b1 + 1
    } else {
        b1
    }
}

/// What a banked ROM read returns: the byte at the bank's base plus the
/// offset, reduced modulo the ROM size.
pub open spec fn banked_rom_byte(rom: Seq<u8>, bank: int, off: int) -> u8 {
    if rom.len() == 0 {
        0xff
    } else {
        rom[(bank * 0x4000 + off) % (rom.len() as int)]
    }
}

fn read_banked_rom(rom: &Vec<u8>, bank: usize, off: u16) -> (r: u8)
    requires
        bank <= 0x1ff,
        off < 0x4000,
    ensures
        r == banked_rom_byte(rom@, bank as int, off as int),
{
    if rom.len() == 0 {
        0xff
    } else {
        rom[(bank * 0x4000 + off as usize) % rom.len()]
    }
}

/// What a banked cartridge-RAM read returns.
pub open spec fn banked_ram_byte(ram: Seq<u8>, bank: int, off: int) -> u8 {
    if ram.len() == 0 {
        0xff
    } else {
        ram[(bank * 0x2000 + off) % (ram.len() as int)]
    }
}

/// What an MBC1 read returns at each address.
pub open spec fn mbc1_read_spec(c: Mbc1, rom: Seq<u8>, addr: u16) -> u8 {
    if addr <= 0x3fff {
        banked_rom_byte(rom, 0, addr as int)
    } else if addr <= 0x7fff {
        banked_rom_byte(rom, mbc1_eff_bank(c.rom_bank_spec()) as int, addr - 0x4000)
    } else if c.ram_enable_spec() {
        banked_ram_byte(c.ram_spec(), c.ram_bank_spec() as int, addr - 0xa000)
    } else {
        0
    }
}

/// What an MBC2 read returns: ROM banks and the 512 half-byte RAM.
pub open spec fn mbc2_read_spec(c: Mbc2, rom: Seq<u8>, addr: u16) -> u8 {
    if addr <= 0x3fff {
        banked_rom_byte(rom, 0, addr as int)
    } else if addr <= 0x7fff {
        banked_rom_byte(rom, c.rom_bank_spec() as int, addr - 0x4000)
    } else if 0xa000 <= addr <= 0xa1ff {
        if c.ram_enable_spec() {
            (c.ram_spec()[addr - 0xa000] & 0xf) as u8
        } else {
            0
        }
    } else {
        0xff
    }
}

/// What an MBC3 read returns: ROM banks, RAM banks 0..=3, or the latched
/// RTC registers; 0 anywhere in 0xa000-0xbfff while the enable latch is
/// off, 0xff on an unmapped selector.
pub open spec fn mbc3_read_spec(c: Mbc3, rom: Seq<u8>, addr: u16) -> u8 {
    if addr <= 0x3fff {
        banked_rom_byte(rom, 0, addr as int)
    } else if addr <= 0x7fff {
        banked_rom_byte(
            rom,
            if c.rom_bank_spec() == 0 {
                1int
            } else {
                c.rom_bank_spec() as int
            },
            addr - 0x4000,
        )
    } else if !c.enable_spec() {
        0
    } else if c.select_spec() <= 3 {
        banked_ram_byte(c.ram_spec(), c.select_spec() as int, addr - 0xa000)
    } else if c.select_spec() == 0x08 {
        c.rtc_spec().0
    } else if c.select_spec() == 0x09 {
        c.rtc_spec().1
    } else if c.select_spec() == 0x0a {
        c.rtc_spec().2
    } else if c.select_spec() == 0x0b {
        c.rtc_spec().3
    } else if c.select_spec() == 0x0c {
        c.rtc_spec().4
    } else {
        0xff
    }
}

/// What an MBC5 read returns.
pub open spec fn mbc5_read_spec(c: Mbc5, rom: Seq<u8>, addr: u16) -> u8 {
    if addr <= 0x3fff {
        banked_rom_byte(rom, 0, addr as int)
    } else if addr <= 0x7fff {
        banked_rom_byte(rom, c.rom_bank_spec() as int, addr - 0x4000)
    } else if c.ram_enable_spec() {
        banked_ram_byte(c.ram_spec(), c.ram_bank_spec() as int, addr - 0xa000)
    } else {
        0
    }
}

/// What a controller-less read returns: flat ROM and flat RAM.
pub open spec fn mbc_none_read_spec(c: MbcNone, rom: Seq<u8>, addr: u16) -> u8 {
    if addr <= 0x7fff {
        banked_rom_byte(rom, 0, addr as int)
    } else {
        c.ram_spec()[addr - 0xa000]
    }
}

/// Switching the MBC1 ROM bank to the five low bits of `n` and reading
/// the switchable window at its base returns the ROM byte at the start
/// of the bank that `n` selects, with the 0x20/0x40/0x60 remap quirk.
pub proof fn lemma_mbc1_rom_bank_switch(old_bank: usize, n: u8, rom: Seq<u8>)
    requires
        old_bank < 0x100,
        rom.len() > 0,
        mbc1_eff_bank((old_bank & !0x1f) | (n as usize & 0x1f)) * 0x4000 < rom.len(),
    ensures
        banked_rom_byte(rom, mbc1_eff_bank((old_bank & !0x1f) | (n as usize & 0x1f)) as int, 0)
            == rom[mbc1_eff_bank((old_bank & !0x1f) | (n as usize & 0x1f)) * 0x4000],
{
    let b = mbc1_eff_bank((old_bank & !0x1f) | (n as usize & 0x1f));
    assert((b * 0x4000 + 0) % (rom.len() as int) == b * 0x4000) by {
        vstd::arithmetic::div_mod::lemma_small_mod((b * 0x4000) as nat, rom.len() as nat);
    };
}

/// MBC1: 5 + 2 bank bits, a RAM/ROM banking mode switch, and a RAM
/// enable latch whose falling edge saves the RAM through the host.
pub struct Mbc1 {
    ram: Vec<u8>,
    rom_bank: usize,
    ram_bank: usize,
    ram_enable: bool,
    ram_select: bool,
}

impl Mbc1 {
    pub closed spec fn wf(&self) -> bool {
        &&& self.ram@.len() == 0x8000
        &&& self.rom_bank < 0x100
        &&& self.ram_bank < 4
    }

    pub closed spec fn rom_bank_spec(&self) -> usize {
        self.rom_bank
    }

    pub closed spec fn ram_bank_spec(&self) -> usize {
        self.ram_bank
    }

    pub closed spec fn ram_enable_spec(&self) -> bool {
        self.ram_enable
    }

    pub closed spec fn ram_select_spec(&self) -> bool {
        self.ram_select
    }

    pub closed spec fn ram_spec(&self) -> Seq<u8> {
        self.ram@
    }

    pub fn new(mut cartridge_ram: Vec<u8>) -> (r: Mbc1)
        ensures
            r.wf(),
            r.rom_bank_spec() == 0,
            !r.ram_enable_spec(),
    {
        cartridge_ram.resize(0x8000, 0);
        Mbc1 { ram: cartridge_ram, rom_bank: 0, ram_bank: 0, ram_enable: false, ram_select: false }
    }

    /// Read through the controller: fixed bank, switchable bank, or
    /// external RAM (0 when the RAM is disabled).
    pub fn on_read(&self, addr: u16, rom: &Vec<u8>) -> (r: u8)
        requires
            self.wf(),
            addr <= 0x7fff || (0xa000 <= addr <= 0xbfff),
        ensures
            r == mbc1_read_spec(*self, rom@, addr),
    {
        if addr <= 0x3fff {
            read_banked_rom(rom, 0, addr)
        } else if addr <= 0x7fff {
            let bank = mbc1_eff_bank_exec(self.rom_bank);
            read_banked_rom(rom, bank, addr - 0x4000)
        } else {
            if self.ram_enable {
                self.ram[(self.ram_bank * 0x2000 + (addr - 0xa000) as usize) % self.ram.len()]
            } else {
                0
            }
        }
    }

    /// Write through the controller: the four control regions and the
    /// external RAM.  Disabling the RAM saves it through the host.
    pub fn on_write<H: Hardware>(&mut self, addr: u16, value: u8, hw: &mut H)
        requires
            old(self).wf(),
            addr <= 0x7fff || (0xa000 <= addr <= 0xbfff),
        ensures
            final(self).wf(),
            addr <= 0x1fff ==> final(self).ram_enable_spec() == (value & 0xf == 0x0a)
                && final(self).rom_bank_spec() == old(self).rom_bank_spec(),
            0x2000 <= addr <= 0x3fff ==> final(self).rom_bank_spec() == ((old(self).rom_bank_spec() & !0x1f) | (value as usize & 0x1f)) && final(self).ram_spec() == old(self).ram_spec(),
            (0x4000 <= addr <= 0x5fff && old(self).ram_select_spec()) ==> final(self).ram_bank_spec() == value as usize & 0x3,
            (0x4000 <= addr <= 0x5fff && !old(self).ram_select_spec()) ==> final(self).rom_bank_spec() == ((old(self).rom_bank_spec() & !0x60) | ((value as usize & 0x3)
                << 5)),
            0x6000 <= addr <= 0x7fff ==> final(self).ram_select_spec() == (value & 1 == 1),
            (0xa000 <= addr <= 0xbfff && old(self).ram_enable_spec()) ==> final(self).ram_spec()
                == old(self).ram_spec().update(
                (old(self).ram_bank_spec() * 0x2000 + (addr - 0xa000)) % 0x8000,
                value,
            ),
    {
        if addr <= 0x1fff {
            if value & 0xf == 0x0a {
                self.ram_enable = true;
            } else {
                self.ram_enable = false;
                hw.save_ram(self.ram.as_slice());
            }
        } else if addr <= 0x3fff {
            proof {
                let b = old(self).rom_bank;
                let v = value as usize;
                assert((b & !0x1f) | (v & 0x1f) < 0x100) by (bit_vector)
                    requires
                        b < 0x100,
                        v < 0x100,
                ;
            }
            self.rom_bank = (self.rom_bank & !0x1f) | (value as usize & 0x1f);
        } else if addr <= 0x5fff {
            if self.ram_select {
                proof {
                    let v = value as usize;
                    assert(v & 0x3 < 4) by (bit_vector)
                        requires
                            v < 0x100,
                    ;
                }
                self.ram_bank = value as usize & 0x3;
            } else {
                proof {
                    let b = old(self).rom_bank;
                    let v = value as usize;
                    assert((b & !0x60) | ((v & 0x3) << 5) < 0x100) by (bit_vector)
                        requires
                            b < 0x100,
                            v < 0x100,
                    ;
                }
                self.rom_bank = (self.rom_bank & !0x60) | ((value as usize & 0x3) << 5);
            }
        } else if addr <= 0x7fff {
            // mode select; any value with bit 0 set selects RAM banking
            self.ram_select = value & 1 == 1;
        } else {
            if self.ram_enable {
                let i = (self.ram_bank * 0x2000 + (addr - 0xa000) as usize) % self.ram.len();
                self.ram[i] = value;
            }
        }
    }
}

/// MBC2: 4-bit ROM bank selection and 512 half-bytes of internal RAM.
pub struct Mbc2 {
    ram: Vec<u8>,
    rom_bank: usize,
    ram_enable: bool,
}

impl Mbc2 {
    pub closed spec fn wf(&self) -> bool {
        &&& self.ram@.len() == 0x200
        &&& 1 <= self.rom_bank < 0x10
    }

    pub closed spec fn rom_bank_spec(&self) -> usize {
        self.rom_bank
    }

    pub closed spec fn ram_spec(&self) -> Seq<u8> {
        self.ram@
    }

    pub closed spec fn ram_enable_spec(&self) -> bool {
        self.ram_enable
    }

    pub fn new(mut cartridge_ram: Vec<u8>) -> (r: Mbc2)
        ensures
            r.wf(),
    {
        cartridge_ram.resize(0x200, 0);
        Mbc2 { ram: cartridge_ram, rom_bank: 1, ram_enable: false }
    }

    /// Read through the controller; the internal RAM holds only the low
    /// nibble of each byte and spans 0xa000-0xa1ff.
    pub fn on_read(&self, addr: u16, rom: &Vec<u8>) -> (r: u8)
        requires
            self.wf(),
            addr <= 0x7fff || (0xa000 <= addr <= 0xbfff),
        ensures
            r == mbc2_read_spec(*self, rom@, addr),
    {
        if addr <= 0x3fff {
            read_banked_rom(rom, 0, addr)
        } else if addr <= 0x7fff {
            read_banked_rom(rom, self.rom_bank, addr - 0x4000)
        } else if 0xa000 <= addr && addr <= 0xa1ff {
            if self.ram_enable {
                self.ram[(addr - 0xa000) as usize] & 0xf
            } else {
                0
            }
        } else {
            0xff
        }
    }

    /// Write through the controller: bit 8 of the address selects whether
    /// a low-range write toggles the RAM enable or sets the ROM bank.
    pub fn on_write<H: Hardware>(&mut self, addr: u16, value: u8, hw: &mut H)
        requires
            old(self).wf(),
        ensures
            final(self).wf(),
            (addr <= 0x1fff && addr & 0x100 == 0) ==> final(self).ram_enable_spec() == (value & 0x0f
                == 0x0a),
            (0x2000 <= addr <= 0x3fff && addr & 0x100 != 0) ==> final(self).rom_bank_spec() == if value
                as usize & 0xf == 0 {
                1int
            } else {
                (value as usize & 0xf) as int
            },
            (0xa000 <= addr <= 0xa1ff && old(self).ram_enable_spec()) ==> final(self).ram_spec()
                == old(self).ram_spec().update(addr - 0xa000, value & 0xf),
    {
        if addr <= 0x1fff {
            if addr & 0x100 == 0 {
                self.ram_enable = (value & 0x0f) == 0x0a;
                if !self.ram_enable {
                    hw.save_ram(self.ram.as_slice());
                }
            }
        } else if 0x2000 <= addr && addr <= 0x3fff {
            if addr & 0x100 != 0 {
                proof {
                    let v = value as usize;
                    assert(v & 0xf < 0x10) by (bit_vector)
                        requires
                            v < 0x100,
                    ;
                }
                let b = value as usize & 0xf;
                self.rom_bank = if b == 0 {
                    1
                } else {
                    b
                };
            }
        } else if 0xa000 <= addr && addr <= 0xa1ff {
            if self.ram_enable {
                self.ram[(addr - 0xa000) as usize] = value & 0xf;
            }
        }
    }
}

/// MBC3: 7-bit ROM banking, 2-bit RAM banking, and a latchable
/// real-time clock driven by the host's microsecond counter.
pub struct Mbc3 {
    ram: Vec<u8>,
    rom_bank: usize,
    enable: bool,
    select: u8,
    rtc_secs: u8,
    rtc_mins: u8,
    rtc_hours: u8,
    rtc_day_low: u8,
    rtc_day_high: u8,
    epoch: u64,
    prelatch: bool,
}

impl Mbc3 {
    pub closed spec fn wf(&self) -> bool {
        &&& self.ram@.len() == 0x8000
        &&& self.rom_bank < 0x80
    }

    pub closed spec fn rom_bank_spec(&self) -> usize {
        self.rom_bank
    }

    pub closed spec fn ram_spec(&self) -> Seq<u8> {
        self.ram@
    }

    pub closed spec fn select_spec(&self) -> u8 {
        self.select
    }

    /// The RAM/RTC enable latch.
    pub closed spec fn enable_spec(&self) -> bool {
        self.enable
    }

    pub closed spec fn rtc_spec(&self) -> (u8, u8, u8, u8, u8) {
        (self.rtc_secs, self.rtc_mins, self.rtc_hours, self.rtc_day_low, self.rtc_day_high)
    }

    pub fn new<H: Hardware>(mut cartridge_ram: Vec<u8>, hw: &mut H) -> (r: Mbc3)
        ensures
            r.wf(),
    {
        cartridge_ram.resize(0x8000, 0);
        let now = hw.clock();
        Mbc3 {
            ram: cartridge_ram,
            rom_bank: 0,
            enable: false,
            select: 0,
            rtc_secs: 0,
            rtc_mins: 0,
            rtc_hours: 0,
            rtc_day_low: 0,
            rtc_day_high: 0,
            epoch: now / 1000000,
            prelatch: false,
        }
    }

    /// Read through the controller: ROM banks, RAM banks 0..=3, or the
    /// latched RTC registers selected by 0x08..=0x0c.  While the enable
    /// latch is off the whole external window reads 0.
    pub fn on_read(&self, addr: u16, rom: &Vec<u8>) -> (r: u8)
        requires
            self.wf(),
            addr <= 0x7fff || (0xa000 <= addr <= 0xbfff),
        ensures
            r == mbc3_read_spec(*self, rom@, addr),
    {
        if addr <= 0x3fff {
            read_banked_rom(rom, 0, addr)
        } else if addr <= 0x7fff {
            let bank = if self.rom_bank == 0 {
                1
            } else {
                self.rom_bank
            };
            read_banked_rom(rom, bank, addr - 0x4000)
        } else if !self.enable {
            0
        } else if self.select <= 3 {
            self.ram[((self.select as usize) * 0x2000 + (addr - 0xa000) as usize) % self.ram.len()]
        } else if self.select == 0x08 {
            self.rtc_secs
        } else if self.select == 0x09 {
            self.rtc_mins
        } else if self.select == 0x0a {
            self.rtc_hours
        } else if self.select == 0x0b {
            self.rtc_day_low
        } else if self.select == 0x0c {
            self.rtc_day_high
        } else {
            0xff
        }
    }

    /// Write through the controller: banking, the latch sequence
    /// (a 0 write followed by a 1 write), RAM or the RTC registers.
    pub fn on_write<H: Hardware>(&mut self, addr: u16, value: u8, hw: &mut H)
        requires
            old(self).wf(),
        ensures
            final(self).wf(),
            0x2000 <= addr <= 0x3fff ==> final(self).rom_bank_spec() == value as usize & 0x7f,
            0x4000 <= addr <= 0x5fff ==> final(self).select_spec() == value,
            (0xa000 <= addr <= 0xbfff && old(self).enable_spec() && old(self).select_spec() <= 3)
                ==> final(self).ram_spec() == old(self).ram_spec().update(
                ((old(self).select_spec() as int) * 0x2000 + (addr - 0xa000)) % 0x8000,
                value,
            ),
            (0xa000 <= addr <= 0xbfff && !old(self).enable_spec()) ==> *final(self) == *old(self),
    {
        if addr <= 0x1fff {
            if value == 0x00 {
                self.enable = false;
            } else if value == 0x0a {
                self.enable = true;
            }
        } else if addr <= 0x3fff {
            proof {
                let v = value as usize;
                assert(v & 0x7f < 0x80) by (bit_vector)
                    requires
                        v < 0x100,
                ;
            }
            self.rom_bank = value as usize & 0x7f;
        } else if addr <= 0x5fff {
            self.select = value;
            hw.save_ram(self.ram.as_slice());
        } else if addr <= 0x7fff {
            if self.prelatch {
                if value == 0x01 {
                    self.latch(hw);
                }
                self.prelatch = false;
            } else if value == 0x00 {
                self.prelatch = true;
            }
        } else if 0xa000 <= addr && addr <= 0xbfff {
            if !self.enable {
                // disabled external window: the write is dropped
            } else if self.select <= 3 {
                let i = ((self.select as usize) * 0x2000 + (addr - 0xa000) as usize)
                    % self.ram.len();
                self.ram[i] = value;
            } else if self.select == 0x08 {
                self.rtc_secs = value;
                self.update_epoch(hw);
            } else if self.select == 0x09 {
                self.rtc_mins = value;
                self.update_epoch(hw);
            } else if self.select == 0x0a {
                self.rtc_hours = value;
                self.update_epoch(hw);
            } else if self.select == 0x0b {
                self.rtc_day_low = value;
                self.update_epoch(hw);
            } else if self.select == 0x0c {
                self.rtc_day_high = value;
                self.update_epoch(hw);
            }
        }
    }

    fn update_epoch<H: Hardware>(&mut self, hw: &mut H)
        ensures
            final(self).ram@ == old(self).ram@,
            final(self).rom_bank == old(self).rom_bank,
            final(self).select == old(self).select,
            final(self).rtc_secs == old(self).rtc_secs,
            final(self).rtc_mins == old(self).rtc_mins,
            final(self).rtc_hours == old(self).rtc_hours,
            final(self).rtc_day_low == old(self).rtc_day_low,
            final(self).rtc_day_high == old(self).rtc_day_high,
    {
        self.epoch = hw.clock() / 1000000;
    }

    /// The 9-bit day counter.
    fn day(&self) -> (r: u16)
        ensures
            r == ((self.rtc_day_high as u16 & 1) << 8 | self.rtc_day_low as u16),
            r < 0x200,
    {
        proof {
            let h = self.rtc_day_high as u16;
            let l = self.rtc_day_low as u16;
            assert(l < 0x100 ==> ((h & 1) << 8 | l) < 0x200) by (bit_vector);
        }
        (self.rtc_day_high as u16 & 1) << 8 | self.rtc_day_low as u16
    }

    /// Latch the current time into the RTC registers: add the seconds
    /// elapsed since the last latch (zero when the halt bit is set or the
    /// host clock moved backwards), and set the carry bit on day overflow.
    /// Whatever the host clock returned, the latched fields are in range
    /// and the halt bit is preserved.
    fn latch<H: Hardware>(&mut self, hw: &mut H)
        requires
            old(self).wf(),
        ensures
            final(self).wf(),
            final(self).rtc_spec().0 < 60,
            final(self).rtc_spec().1 < 60,
            final(self).rtc_spec().2 < 24,
            final(self).rtc_spec().4 & 0x40 == old(self).rtc_spec().4 & 0x40,
            final(self).ram_spec() == old(self).ram_spec(),
            final(self).rom_bank_spec() == old(self).rom_bank_spec(),
            final(self).select_spec() == old(self).select_spec(),
    {
        let now = hw.clock() / 1000000;
        let new_epoch: u64 = if self.rtc_day_high & 0x40 == 0 {
            now
        } else {
            // halted: time does not advance
            self.epoch
        };
        let elapsed: u64 = if new_epoch >= self.epoch {
            new_epoch - self.epoch
        } else {
            0
        };

        let last_day = self.day();
        let d = last_day as u64;
        let s = self.rtc_secs as u64;
        let m = self.rtc_mins as u64;
        let h = self.rtc_hours as u64;
        let last_secs = (d * 24 + h) * 3600 + m * 60 + s;
        proof {
            vstd::arithmetic::mul::lemma_mul_upper_bound(d as int, 0x1ff, 24, 24);
            vstd::arithmetic::mul::lemma_mul_upper_bound((d * 24 + h) as int, 0x3100, 3600, 3600);
        }
        let total = if last_secs <= u64::MAX - elapsed {
            last_secs + elapsed
        } else {
            last_secs
        };

        self.rtc_secs = (total % 60) as u8;
        self.rtc_mins = ((total / 60) % 60) as u8;
        self.rtc_hours = ((total / 3600) % 24) as u8;
        let days = total / 86400;
        self.rtc_day_low = (days % 256) as u8;
        proof {
            let d = self.rtc_day_high;
            let b = ((days / 256) % 2) as u8;
            assert(b <= 1 ==> ((d & 0xfe | b) & 0x40 == d & 0x40 && ((d & 0xfe | b) | 0x80) & 0x40
                == d & 0x40)) by (bit_vector);
        }
        self.rtc_day_high = (self.rtc_day_high & 0xfe) | ((days / 256) % 2) as u8;

        let new_day = self.day();
        if new_day < last_day {
            self.rtc_day_high = self.rtc_day_high | 0x80;
        }
        self.epoch = new_epoch;
    }
}

/// MBC5: a 9-bit ROM bank split over two registers and a 4-bit RAM bank.
pub struct Mbc5 {
    ram: Vec<u8>,
    rom_bank: usize,
    ram_bank: usize,
    ram_enable: bool,
}

impl Mbc5 {
    pub closed spec fn wf(&self) -> bool {
        &&& self.ram@.len() == 0x20000
        &&& self.rom_bank < 0x200
        &&& self.ram_bank < 0x10
    }

    pub closed spec fn rom_bank_spec(&self) -> usize {
        self.rom_bank
    }

    pub closed spec fn ram_bank_spec(&self) -> usize {
        self.ram_bank
    }

    pub closed spec fn ram_spec(&self) -> Seq<u8> {
        self.ram@
    }

    pub closed spec fn ram_enable_spec(&self) -> bool {
        self.ram_enable
    }

    pub fn new(mut cartridge_ram: Vec<u8>) -> (r: Mbc5)
        ensures
            r.wf(),
            r.rom_bank_spec() == 0,
    {
        cartridge_ram.resize(0x20000, 0);
        Mbc5 { ram: cartridge_ram, rom_bank: 0, ram_bank: 0, ram_enable: false }
    }

    /// Read through the controller.
    pub fn on_read(&self, addr: u16, rom: &Vec<u8>) -> (r: u8)
        requires
            self.wf(),
            addr <= 0x7fff || (0xa000 <= addr <= 0xbfff),
        ensures
            r == mbc5_read_spec(*self, rom@, addr),
    {
        if addr <= 0x3fff {
            read_banked_rom(rom, 0, addr)
        } else if addr <= 0x7fff {
            read_banked_rom(rom, self.rom_bank, addr - 0x4000)
        } else {
            if self.ram_enable {
                self.ram[(self.ram_bank * 0x2000 + (addr - 0xa000) as usize) % self.ram.len()]
            } else {
                0
            }
        }
    }

    /// Write through the controller.
    pub fn on_write<H: Hardware>(&mut self, addr: u16, value: u8, hw: &mut H)
        requires
            old(self).wf(),
        ensures
            final(self).wf(),
            addr <= 0x1fff ==> final(self).ram_enable_spec() == (value & 0xf == 0x0a),
            0x2000 <= addr <= 0x2fff ==> final(self).rom_bank_spec() == ((old(self).rom_bank_spec() & 0x100) | value as usize),
            0x3000 <= addr <= 0x3fff ==> final(self).rom_bank_spec() == ((old(self).rom_bank_spec() & 0xff) | ((value as usize & 1) << 8)),
            0x4000 <= addr <= 0x5fff ==> final(self).ram_bank_spec() == value as usize & 0xf,
            (0xa000 <= addr <= 0xbfff && old(self).ram_enable_spec()) ==> final(self).ram_spec()
                == old(self).ram_spec().update(
                (old(self).ram_bank_spec() * 0x2000 + (addr - 0xa000)) % 0x20000,
                value,
            ),
    {
        if addr <= 0x1fff {
            if value & 0xf == 0x0a {
                self.ram_enable = true;
            } else {
                self.ram_enable = false;
                hw.save_ram(self.ram.as_slice());
            }
        } else if addr <= 0x2fff {
            proof {
                let b = old(self).rom_bank;
                let v = value as usize;
                assert((b & 0x100) | v < 0x200) by (bit_vector)
                    requires
                        b < 0x200,
                        v < 0x100,
                ;
            }
            self.rom_bank = (self.rom_bank & 0x100) | value as usize;
        } else if addr <= 0x3fff {
            proof {
                let b = old(self).rom_bank;
                let v = value as usize;
                assert((b & 0xff) | ((v & 1) << 8) < 0x200) by (bit_vector)
                    requires
                        b < 0x200,
                        v < 0x100,
                ;
            }
            self.rom_bank = (self.rom_bank & 0xff) | ((value as usize & 1) << 8);
        } else if addr <= 0x5fff {
            proof {
                let v = value as usize;
                assert(v & 0xf < 0x10) by (bit_vector)
                    requires
                        v < 0x100,
                ;
            }
            self.ram_bank = value as usize & 0xf;
        } else if 0xa000 <= addr && addr <= 0xbfff {
            if self.ram_enable {
                let i = (self.ram_bank * 0x2000 + (addr - 0xa000) as usize) % self.ram.len();
                self.ram[i] = value;
            }
        }
    }
}

/// No controller: a flat 32 KiB ROM and 8 KiB of RAM.  ROM writes are
/// ignored.
pub struct MbcNone {
    ram: Vec<u8>,
}

impl MbcNone {
    pub closed spec fn wf(&self) -> bool {
        self.ram@.len() == 0x2000
    }

    pub closed spec fn ram_spec(&self) -> Seq<u8> {
        self.ram@
    }

    pub fn new(mut cartridge_ram: Vec<u8>) -> (r: MbcNone)
        ensures
            r.wf(),
    {
        cartridge_ram.resize(0x2000, 0);
        MbcNone { ram: cartridge_ram }
    }

    pub fn on_read(&self, addr: u16, rom: &Vec<u8>) -> (r: u8)
        requires
            self.wf(),
            addr <= 0x7fff || (0xa000 <= addr <= 0xbfff),
        ensures
            r == mbc_none_read_spec(*self, rom@, addr),
    {
        if addr <= 0x7fff {
            if rom.len() == 0 {
                0xff
            } else {
                rom[(addr as usize) % rom.len()]
            }
        } else {
            self.ram[(addr - 0xa000) as usize]
        }
    }

    pub fn on_write(&mut self, addr: u16, value: u8)
        requires
            old(self).wf(),
        ensures
            final(self).wf(),
            0xa000 <= addr <= 0xbfff ==> final(self).ram_spec() == old(self).ram_spec().update(
                addr - 0xa000,
                value,
            ),
            !(0xa000 <= addr <= 0xbfff) ==> final(self).ram_spec() == old(self).ram_spec(),
    {
        if 0xa000 <= addr && addr <= 0xbfff {
            self.ram[(addr - 0xa000) as usize] = value;
        }
    }
}

/// The mapper variants this core implements.
pub enum MbcTypeInner {
    NoMbc(MbcNone),
    Mbc1(Mbc1),
    Mbc2(Mbc2),
    Mbc3(Mbc3),
    Mbc5(Mbc5),
}

/// The selected mapper together with the cartridge ROM.
pub struct MbcType {
    mbc_type: MbcTypeInner,
    rom: Vec<u8>,
}

impl MbcType {
    pub closed spec fn wf(&self) -> bool {
        match self.mbc_type {
            MbcTypeInner::NoMbc(c) => c.wf(),
            MbcTypeInner::Mbc1(c) => c.wf(),
            MbcTypeInner::Mbc2(c) => c.wf(),
            MbcTypeInner::Mbc3(c) => c.wf(),
            MbcTypeInner::Mbc5(c) => c.wf(),
        }
    }

    pub closed spec fn rom_spec(&self) -> Seq<u8> {
        self.rom@
    }

    pub closed spec fn inner_spec(&self) -> MbcTypeInner {
        self.mbc_type
    }

    /// What a read through the selected mapper returns.
    pub open spec fn read_spec(&self, addr: u16) -> u8 {
        match self.inner_spec() {
            MbcTypeInner::NoMbc(c) => mbc_none_read_spec(c, self.rom_spec(), addr),
            MbcTypeInner::Mbc1(c) => mbc1_read_spec(c, self.rom_spec(), addr),
            MbcTypeInner::Mbc2(c) => mbc2_read_spec(c, self.rom_spec(), addr),
            MbcTypeInner::Mbc3(c) => mbc3_read_spec(c, self.rom_spec(), addr),
            MbcTypeInner::Mbc5(c) => mbc5_read_spec(c, self.rom_spec(), addr),
        }
    }

    /// Select the mapper from the cartridge-type byte 0x147.  Types this
    /// core does not implement are refused.
    pub fn new<H: Hardware>(hw: &mut H, code: u8, rom: Vec<u8>, cartridge_ram: Vec<u8>) -> (r:
        Result<MbcType, CartridgeError>)
        ensures
            r matches Ok(m) ==> m.wf() && m.rom_spec() == rom@,
            r is Err <==> !(code == 0x00 || (0x01 <= code <= 0x03) || code == 0x05 || code == 0x06
                || (0x0f <= code <= 0x13) || (0x19 <= code <= 0x1e)),
    {
        let mbc_type = if code == 0x00 {
            MbcTypeInner::NoMbc(MbcNone::new(cartridge_ram))
        } else if 0x01 <= code && code <= 0x03 {
            MbcTypeInner::Mbc1(Mbc1::new(cartridge_ram))
        } else if code == 0x05 || code == 0x06 {
            MbcTypeInner::Mbc2(Mbc2::new(cartridge_ram))
        } else if 0x0f <= code && code <= 0x13 {
            MbcTypeInner::Mbc3(Mbc3::new(cartridge_ram, hw))
        } else if 0x19 <= code && code <= 0x1e {
            MbcTypeInner::Mbc5(Mbc5::new(cartridge_ram))
        } else {
            return Err(CartridgeError::UnsupportedType(code));
        };
        Ok(MbcType { mbc_type, rom })
    }

    /// Read through whichever mapper the cartridge selected.
    pub fn on_read(&self, addr: u16) -> (r: u8)
        requires
            self.wf(),
            addr <= 0x7fff || (0xa000 <= addr <= 0xbfff),
        ensures
            r == self.read_spec(addr),
    {
        match &self.mbc_type {
            MbcTypeInner::NoMbc(c) => c.on_read(addr, &self.rom),
            MbcTypeInner::Mbc1(c) => c.on_read(addr, &self.rom),
            MbcTypeInner::Mbc2(c) => c.on_read(addr, &self.rom),
            MbcTypeInner::Mbc3(c) => c.on_read(addr, &self.rom),
            MbcTypeInner::Mbc5(c) => c.on_read(addr, &self.rom),
        }
    }

    /// Write through whichever mapper the cartridge selected.
    pub fn on_write<H: Hardware>(&mut self, addr: u16, value: u8, hw: &mut H)
        requires
            old(self).wf(),
            addr <= 0x7fff || (0xa000 <= addr <= 0xbfff),
        ensures
            final(self).wf(),
            final(self).rom_spec() == old(self).rom_spec(),
            old(self).inner_spec() matches MbcTypeInner::Mbc1(c) ==> (0x2000 <= addr <= 0x3fff
                ==> (final(self).inner_spec() matches MbcTypeInner::Mbc1(c2)
                && c2.rom_bank_spec() == ((c.rom_bank_spec() & !0x1f) | (value as usize
                & 0x1f)))),
    {
        match &mut self.mbc_type {
            MbcTypeInner::NoMbc(c) => c.on_write(addr, value),
            MbcTypeInner::Mbc1(c) => c.on_write(addr, value, hw),
            MbcTypeInner::Mbc2(c) => c.on_write(addr, value, hw),
            MbcTypeInner::Mbc3(c) => c.on_write(addr, value, hw),
            MbcTypeInner::Mbc5(c) => c.on_write(addr, value, hw),
        }
    }
}

/// The 8-bit header checksum over bytes 0x134-0x14c: starting from 0,
/// each byte and an extra 1 are subtracted, wrapping at 8 bits.
pub open spec fn header_checksum_spec(rom: Seq<u8>, n: int) -> u8
    decreases n,
{
    if n <= 0x134 {
        0
    } else {
        crate::alu::wsub8(crate::alu::wsub8(header_checksum_spec(rom, n - 1), rom[n - 1]), 1)
    }
}

/// Check the header checksum: the computed value over 0x134-0x14c must
/// equal the byte stored at 0x14d.  A mismatch does not refuse the
/// cartridge.
pub fn verify(rom: &Vec<u8>) -> (r: bool)
    requires
        rom@.len() >= 0x150,
    ensures
        r == (header_checksum_spec(rom@, 0x14d) == rom@[0x14d]),
{
    let mut chk: u8 = 0;
    let mut i: usize = 0x134;
    while i < 0x14d
        invariant
            0x134 <= i <= 0x14d,
            rom@.len() >= 0x150,
            chk == header_checksum_spec(rom@, i as int),
        decreases 0x14d - i,
    {
        chk = chk.wrapping_sub(rom[i]).wrapping_sub(1);
        i = i + 1;
    }
    chk == rom[0x14d]
}

/// The cartridge: header fields and the selected mapper.
pub struct Cartridge {
    cgb: bool,
    cgb_only: bool,
    sgb: bool,
    mbc: MbcType,
    rom_size: u8,
    ram_size: u8,
    dstcode: u8,
}

impl Cartridge {
    pub closed spec fn wf(&self) -> bool {
        self.mbc.wf()
    }

    pub closed spec fn mbc_spec(&self) -> MbcType {
        self.mbc
    }

    /// Parse the cartridge header, checking the global checksum, and
    /// build the mapper named by the type byte.
    pub fn new<H: Hardware>(hw: &mut H, rom: Vec<u8>, cartridge_ram: Vec<u8>) -> (r: Result<
        Cartridge,
        CartridgeError,
    >)
        requires
            rom@.len() >= 0x150,
        ensures
            r matches Ok(c) ==> c.wf(),
    {
        let _checksum_ok = verify(&rom);

        let cgb = rom[0x143] & 0x80 != 0;
        let cgb_only = rom[0x143] == 0xc0;
        let sgb = rom[0x146] == 0x03;
        let code = rom[0x147];
        let rom_size = rom[0x148];
        let ram_size = rom[0x149];
        let dstcode = rom[0x14a];
        let mbc = match MbcType::new(hw, code, rom, cartridge_ram) {
            Ok(m) => m,
            Err(e) => {
                return Err(e);
            },
        };
        Ok(Cartridge { cgb, cgb_only, sgb, mbc, rom_size, ram_size, dstcode })
    }

    /// A human-readable description of the header fields.
    pub fn show_info(&self) -> (r: String) {
        let mut out = String::new();
        out.append("Destination: ");
        out.append(
            if self.dstcode == 0x00 {
                "Japanese"
            } else if self.dstcode == 0x01 {
                "Non-Japanese"
            } else {
                "Unknown"
            },
        );
        out.append("; Color: ");
        out.append(
            if self.cgb {
                "yes"
            } else {
                "no"
            },
        );
        out.append("; Super: ");
        out.append(
            if self.sgb {
                "yes"
            } else {
                "no"
            },
        );
        out.append("; ROM size code: ");
        out.append(size_label(self.rom_size));
        out.append("; RAM size code: ");
        out.append(ram_label(self.ram_size));
        out
    }

    pub fn on_read(&self, addr: u16) -> (r: u8)
        requires
            self.wf(),
            addr <= 0x7fff || (0xa000 <= addr <= 0xbfff),
        ensures
            r == self.mbc_spec().read_spec(addr),
    {
        self.mbc.on_read(addr)
    }

    pub fn on_write<H: Hardware>(&mut self, addr: u16, value: u8, hw: &mut H)
        requires
            old(self).wf(),
            addr <= 0x7fff || (0xa000 <= addr <= 0xbfff),
        ensures
            final(self).wf(),
    {
        self.mbc.on_write(addr, value, hw);
    }
}

fn size_label(code: u8) -> (r: &'static str) {
    if code == 0x00 {
        "32KByte"
    } else if code == 0x01 {
        "64KByte"
    } else if code == 0x02 {
        "128KByte"
    } else if code == 0x03 {
        "256KByte"
    } else if code == 0x04 {
        "512KByte"
    } else if code == 0x05 {
        "1MByte"
    } else if code == 0x06 {
        "2MByte"
    } else if code == 0x07 {
        "4MByte"
    } else {
        "Unknown"
    }
}

fn ram_label(code: u8) -> (r: &'static str) {
    if code == 0x00 {
        "None"
    } else if code == 0x01 {
        "2KBytes"
    } else if code == 0x02 {
        "8KBytes"
    } else if code == 0x03 {
        "32KBytes"
    } else {
        "Unknown"
    }
}

/// The cartridge slot: the parsed cartridge, with the boot ROM overlay
/// in front of it until a write to 0xff50 disables the overlay.
pub struct Mbc {
    color: bool,
    cartridge: Cartridge,
    boot_rom: Vec<u8>,
    use_boot_rom: bool,
}

impl Mbc {
    pub closed spec fn wf(&self) -> bool {
        self.cartridge.wf()
    }

    pub closed spec fn use_boot_rom_spec(&self) -> bool {
        self.use_boot_rom
    }

    pub closed spec fn boot_rom_spec(&self) -> Seq<u8> {
        self.boot_rom@
    }

    pub closed spec fn cartridge_spec(&self) -> Cartridge {
        self.cartridge
    }

    /// Build the cartridge slot.  `boot_rom` holds the boot ROM contents
    /// supplied by the host (256 bytes on DMG, 2304 on CGB); an empty
    /// vector runs without the overlay.
    pub fn new<H: Hardware>(hw: &mut H, rom: Vec<u8>, color: bool, cartridge_ram: Vec<u8>, boot_rom: Vec<u8>) -> (r:
        Result<Mbc, CartridgeError>)
        requires
            rom@.len() >= 0x150,
        ensures
            r matches Ok(m) ==> m.wf(),
    {
        let cartridge = match Cartridge::new(hw, rom, cartridge_ram) {
            Ok(c) => c,
            Err(e) => {
                return Err(e);
            },
        };
        let use_boot_rom = boot_rom.len() > 0;
        Ok(Mbc { color, cartridge, boot_rom, use_boot_rom })
    }

    /// Whether the boot ROM overlay covers this address: the first 256
    /// bytes, plus 0x200-0x8ff on CGB.
    fn in_boot_rom(&self, addr: u16) -> (r: bool)
        ensures
            r == (addr < 0x100 || (self.color_spec() && 0x200 <= addr < 0x900)),
    {
        if self.color {
            addr < 0x100 || (0x200 <= addr && addr < 0x900)
        } else {
            addr < 0x100
        }
    }

    pub closed spec fn color_spec(&self) -> bool {
        self.color
    }

    /// Whether the boot ROM overlay serves this address: the overlay is
    /// still enabled, holds the address, and the address is in the boot
    /// region (the first 256 bytes, plus 0x200-0x8ff on CGB).
    pub open spec fn boot_overlay_spec(&self, addr: u16) -> bool {
        &&& self.use_boot_rom_spec()
        &&& (addr as int) < self.boot_rom_spec().len()
        &&& (addr < 0x100 || (self.color_spec() && 0x200 <= addr < 0x900))
    }

    /// Read cartridge space: the boot ROM while its overlay is active,
    /// the mapper otherwise.
    pub fn on_read(&self, addr: u16) -> (r: u8)
        requires
            self.wf(),
            addr <= 0x7fff || (0xa000 <= addr <= 0xbfff),
        ensures
            self.boot_overlay_spec(addr) ==> r == self.boot_rom_spec()[addr as int],
            !self.boot_overlay_spec(addr) ==> r == self.cartridge_spec().mbc_spec().read_spec(
                addr,
            ),
    {
        if self.use_boot_rom && (addr as usize) < self.boot_rom.len() && self.in_boot_rom(addr) {
            self.boot_rom[addr as usize]
        } else {
            self.cartridge.on_read(addr)
        }
    }

    /// Write 0xff50: disable the boot ROM overlay permanently.
    pub fn disable_boot_rom(&mut self, _v: u8)
        requires
            old(self).wf(),
        ensures
            final(self).wf(),
            !final(self).use_boot_rom_spec(),
    {
        self.use_boot_rom = false;
    }

    /// Write cartridge space through the mapper.
    pub fn on_write<H: Hardware>(&mut self, addr: u16, value: u8, hw: &mut H)
        requires
            old(self).wf(),
            addr <= 0x7fff || (0xa000 <= addr <= 0xbfff),
        ensures
            final(self).wf(),
    {
        self.cartridge.on_write(addr, value, hw);
    }
}

} // verus!
