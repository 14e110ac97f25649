//! Memory management unit: routes every CPU bus access to the peripheral
//! that owns the address, and advances all peripherals in lockstep.

use crate::cpu::Sys;
use crate::gpu;
use crate::hardware::VRAM_WIDTH;
use vstd::prelude::*;

verus! {

/// A scanline handed back to the host: its line number and its pixels.
pub type LineToDraw = (u8, [gpu::Color; 160]);

/// What one bus step produced: at most one finished scanline.
pub struct StepData {
    pub line_to_draw: Option<LineToDraw>,
}

/// A plain 64 KiB byte array behind the `Sys` interface, for unit-testing
/// the CPU without peripherals.
pub struct Ram {
    ram: Vec<u8>,
}

impl Ram {
    pub fn new() -> (r: Ram)
        ensures
            r.obeys_mem(),
            r.mem() == Seq::new(0x10000, |i: int| 0u8),
    {
        let mut ram: Vec<u8> = Vec::new();
        ram.resize(0x10000, 0u8);
        proof {
            assert(ram@ =~= Seq::new(0x10000, |i: int| 0u8));
        }
        Ram { ram }
    }

    /// Write a byte slice at the beginning of the memory.
    pub fn write(&mut self, m: &[u8])
        requires
            old(self).obeys_mem(),
            m@.len() <= 0x10000,
        ensures
            final(self).obeys_mem(),
            final(self).mem() == Seq::new(
                0x10000,
                |i: int| if i < m@.len() {
                    m@[i]
                } else {
                    old(self).mem()[i]
                },
            ),
    {
        let mut i: usize = 0;
        while i < m.len()
            invariant
                i <= m@.len() <= 0x10000,
                self.obeys_mem(),
                forall|j: int| 0 <= j < i ==> self.mem()[j] == m@[j],
                forall|j: int| i <= j < 0x10000 ==> self.mem()[j] == old(self).mem()[j],
            decreases m@.len() - i,
        {
            let v = m[i];
            self.ram[i] = v;
            i = i + 1;
        }
        proof {
            assert(self.mem() =~= Seq::new(
                0x10000,
                |i: int| if i < m@.len() {
                    m@[i]
                } else {
                    old(self).mem()[i]
                },
            ));
        }
    }
}

impl Sys for Ram {
    closed spec fn obeys_mem(&self) -> bool {
        self.ram@.len() == 0x10000
    }

    closed spec fn mem(&self) -> Seq<u8> {
        self.ram@
    }

    open spec fn inv(&self) -> bool {
        true
    }

    open spec fn pending_vec(&self) -> Option<u8> {
        None
    }

    fn peek_int_vec(&mut self) -> (r: Option<u8>) {
        None
    }

    fn pop_int_vec(&mut self) -> (r: Option<u8>) {
        None
    }

    fn get8(&mut self, addr: u16) -> (r: u8) {
        if (addr as usize) < self.ram.len() {
            self.ram[addr as usize]
        } else {
            0
        }
    }

    fn set8(&mut self, addr: u16, v: u8) {
        if (addr as usize) < self.ram.len() {
            self.ram[addr as usize] = v;
        }
    }

    fn step(&mut self, _cycles: usize) -> (r: StepData) {
        StepData { line_to_draw: None }
    }
}


/// The DMG machine selector.
pub struct DmgMode;

/// The CGB machine selector.
pub struct CgbMode;

/// Selects the concrete work-RAM and PPU extensions of a machine.
pub trait GameboyMode {
    type Wram: crate::wram::CgbExt;

    type Gpu: crate::gpu::CgbExt;
}

impl GameboyMode for DmgMode {
    type Wram = ();

    type Gpu = crate::gpu::Dmg;
}

impl GameboyMode for CgbMode {
    type Wram = crate::wram::WramCgbExtension;

    type Gpu = crate::gpu::GpuCgbExtension;
}

/// Every peripheral on the bus, plus the host interface.
pub struct Peripherals<H, GB: GameboyMode> {
    pub wram: crate::wram::Wram<GB::Wram>,
    pub hram: crate::high_ram::HighRam,
    pub gpu: crate::gpu::Gpu<GB::Gpu>,
    pub mbc: crate::mbc::Mbc,
    pub timer: crate::timer::Timer,
    pub serial: crate::serial::Serial,
    pub joypad: crate::joypad::Joypad,
    pub apu: crate::sound::Sound,
    pub dma: crate::dma::Dma,
    pub cgb: crate::cgb::Cgb,
    pub irq: crate::ic::Irq,
    pub hw: H,
}

impl<H: crate::hardware::Hardware, GB: GameboyMode> Peripherals<H, GB> {
    pub open spec fn wf(&self) -> bool {
        &&& self.wram.wf()
        &&& self.gpu.wf()
        &&& self.mbc.wf()
        &&& self.timer.wf()
        &&& self.apu.wf()
    }

    /// Assemble the machine around a cartridge; fails only when the
    /// cartridge names a mapper this core does not implement.
    pub fn new(hw: H, rom: Vec<u8>, color: bool, cartridge_ram: Vec<u8>, boot_rom: Vec<u8>) -> (r:
        Result<Self, crate::mbc::CartridgeError>)
        requires
            rom@.len() >= 0x150,
        ensures
            r matches Ok(p) ==> p.wf(),
    {
        let mut hw = hw;
        let mbc = match crate::mbc::Mbc::new(&mut hw, rom, color, cartridge_ram, boot_rom) {
            Ok(m) => m,
            Err(e) => {
                return Err(e);
            },
        };
        Ok(
            Peripherals {
                wram: crate::wram::Wram::new(),
                hram: crate::high_ram::HighRam::new(),
                gpu: crate::gpu::Gpu::new(),
                mbc,
                timer: crate::timer::Timer::new(),
                serial: crate::serial::Serial::new(),
                joypad: crate::joypad::Joypad::new(),
                apu: crate::sound::Sound::new(),
                dma: crate::dma::Dma::new(),
                cgb: crate::cgb::Cgb::new(),
                irq: crate::ic::Irq::new(),
                hw,
            },
        )
    }
}

/// The memory management unit: routes every CPU bus access to the
/// peripheral that owns the address and steps all peripherals in lockstep
/// with the bus.  It also carries the per-poll host values: the mixer the
/// register writes reconfigure, the joypad snapshot and the serial input
/// slot.
pub struct Mmu<H, GB: GameboyMode> {
    pub peripherals: Peripherals<H, GB>,
    pub mixer_stream: crate::sound::MixerStream,
    pub joypad_input: crate::hardware::JoypadInput,
    pub serial_input: Option<u8>,
}

impl<H: crate::hardware::Hardware, GB: GameboyMode> Mmu<H, GB> {
    /// Read an I/O register (0xff00-0xff7f).  Registers this model does
    /// not implement read back as 0xff.
    pub fn io_read(&self, addr: u16) -> (r: u8)
        requires
            self.peripherals.wf(),
            0xff00 <= addr <= 0xff7f,
        ensures
            addr == 0xff00 ==> r == crate::joypad::joypad_check(
                self.peripherals.joypad.flags_spec(),
                self.joypad_input,
            ),
            addr == 0xff01 ==> r == self.peripherals.serial.data_spec(),
            addr == 0xff02 ==> r == self.peripherals.serial.ctrl_spec(),
            addr == 0xff04 ==> r == self.peripherals.timer.div_spec(),
            addr == 0xff05 ==> r == self.peripherals.timer.tim_spec(),
            addr == 0xff06 ==> r == self.peripherals.timer.tim_load_spec(),
            addr == 0xff07 ==> r == self.peripherals.timer.ctrl_spec(),
            addr == 0xff0f ==> r == self.peripherals.irq.request | 0xe0,
            addr == 0xff25 ==> r == self.peripherals.apu.so_mask_reg_spec(),
            0xff30 <= addr <= 0xff3f ==> r == self.peripherals.apu.wavebuf_spec()[addr - 0xff30],
            addr == 0xff40 ==> r == self.peripherals.gpu.ctrl_spec(),
            addr == 0xff41 ==> r == self.peripherals.gpu.status_spec() | crate::gpu::mode_bits(
                self.peripherals.gpu.mode_spec(),
            ),
            addr == 0xff44 ==> r == self.peripherals.gpu.ly_spec(),
            addr == 0xff45 ==> r == self.peripherals.gpu.lyc_spec(),
            addr == 0xff46 ==> r == self.peripherals.dma.src,
    {
        if addr == 0xff00 {
            self.peripherals.joypad.read(self.joypad_input)
        } else if addr == 0xff01 {
            self.peripherals.serial.get_data()
        } else if addr == 0xff02 {
            self.peripherals.serial.get_ctrl()
        } else if 0xff04 <= addr && addr <= 0xff07 {
            self.peripherals.timer.on_read(addr)
        } else if addr == 0xff0f {
            crate::ic::read_flags(&self.peripherals.irq)
        } else if 0xff10 <= addr && addr <= 0xff3f {
            self.peripherals.apu.on_read(addr, &self.mixer_stream)
        } else if addr == 0xff40 {
            self.peripherals.gpu.read_ctrl()
        } else if addr == 0xff41 {
            self.peripherals.gpu.read_status()
        } else if addr == 0xff42 {
            self.peripherals.gpu.read_scy()
        } else if addr == 0xff43 {
            self.peripherals.gpu.read_scx()
        } else if addr == 0xff44 {
            self.peripherals.gpu.read_ly()
        } else if addr == 0xff45 {
            self.peripherals.gpu.read_lyc()
        } else if addr == 0xff46 {
            self.peripherals.dma.read()
        } else if addr == 0xff47 {
            self.peripherals.gpu.read_bg_palette()
        } else if addr == 0xff48 {
            self.peripherals.gpu.read_obj_palette0()
        } else if addr == 0xff49 {
            self.peripherals.gpu.read_obj_palette1()
        } else if addr == 0xff4a {
            self.peripherals.gpu.read_wy()
        } else if addr == 0xff4b {
            self.peripherals.gpu.read_wx()
        } else if addr == 0xff4d {
            self.peripherals.cgb.read_speed_switch()
        } else if addr == 0xff4f {
            self.peripherals.gpu.read_vram_bank_select()
        } else if addr == 0xff51 {
            self.peripherals.gpu.read_hdma_src_high()
        } else if addr == 0xff52 {
            self.peripherals.gpu.read_hdma_src_low()
        } else if addr == 0xff53 {
            self.peripherals.gpu.read_hdma_dst_high()
        } else if addr == 0xff54 {
            self.peripherals.gpu.read_hdma_dst_low()
        } else if addr == 0xff55 {
            self.peripherals.gpu.read_hdma_start()
        } else if addr == 0xff69 {
            self.peripherals.gpu.read_bg_color_palette()
        } else if addr == 0xff6b {
            self.peripherals.gpu.read_obj_color_palette()
        } else if addr == 0xff70 {
            self.peripherals.wram.get_bank()
        } else {
            // unknown or unimplemented I/O register
            0xff
        }
    }

    /// Write an I/O register (0xff00-0xff7f).  Writes to registers this
    /// model does not implement are dropped.
    pub fn io_write(&mut self, addr: u16, v: u8)
        requires
            old(self).peripherals.wf(),
            old(self).mixer_stream.wf(),
            0xff00 <= addr <= 0xff7f,
        ensures
            final(self).peripherals.wf(),
            final(self).mixer_stream.wf(),
            final(self).peripherals.irq.enable == old(self).peripherals.irq.enable,
            final(self).joypad_input == old(self).joypad_input,
            addr == 0xff01 ==> final(self).peripherals.serial.data_spec() == v,
            addr == 0xff05 ==> final(self).peripherals.timer.tim_spec() == v,
            addr == 0xff06 ==> final(self).peripherals.timer.tim_load_spec() == v,
            addr == 0xff0f ==> final(self).peripherals.irq.request == v,
            0xff30 <= addr <= 0xff3f ==> final(self).peripherals.apu.wavebuf_spec() == old(
                self,
            ).peripherals.apu.wavebuf_spec().update(addr - 0xff30, v),
            addr == 0xff45 ==> final(self).peripherals.gpu.lyc_spec() == v,
            addr == 0xff46 ==> final(self).peripherals.dma.on && final(self).peripherals.dma.src
                == v,
            // dropping the APU master enable silences the mixer
            addr == 0xff26 && v & 0x80 == 0 ==> final(self).mixer_stream.all_off(),
    {
        if addr == 0xff00 {
            self.peripherals.joypad.write(v);
        } else if addr == 0xff01 {
            self.peripherals.serial.set_data(v);
        } else if addr == 0xff02 {
            self.peripherals.serial.set_ctrl(v, &mut self.serial_input);
        } else if 0xff04 <= addr && addr <= 0xff07 {
            self.peripherals.timer.on_write(addr, v);
        } else if addr == 0xff0f {
            crate::ic::write_flags(v, &mut self.peripherals.irq);
        } else if 0xff10 <= addr && addr <= 0xff3f {
            self.peripherals.apu.on_write(addr, v, &mut self.mixer_stream);
        } else if addr == 0xff40 {
            self.peripherals.gpu.write_ctrl(v, &mut self.peripherals.irq);
        } else if addr == 0xff41 {
            self.peripherals.gpu.write_status(v);
        } else if addr == 0xff42 {
            self.peripherals.gpu.write_scy(v);
        } else if addr == 0xff43 {
            self.peripherals.gpu.write_scx(v);
        } else if addr == 0xff44 {
            self.peripherals.gpu.clear_ly();
        } else if addr == 0xff45 {
            self.peripherals.gpu.write_lyc(v);
        } else if addr == 0xff46 {
            self.peripherals.dma.start(v);
        } else if addr == 0xff47 {
            self.peripherals.gpu.write_bg_palette(v);
        } else if addr == 0xff48 {
            self.peripherals.gpu.write_obj_palette0(v);
        } else if addr == 0xff49 {
            self.peripherals.gpu.write_obj_palette1(v);
        } else if addr == 0xff4a {
            self.peripherals.gpu.write_wy(v);
        } else if addr == 0xff4b {
            self.peripherals.gpu.write_wx(v);
        } else if addr == 0xff4d {
            self.peripherals.cgb.write_speed_switch(v);
        } else if addr == 0xff4f {
            self.peripherals.gpu.select_vram_bank(v);
        } else if addr == 0xff50 {
            self.peripherals.mbc.disable_boot_rom(v);
        } else if addr == 0xff51 {
            self.peripherals.gpu.write_hdma_src_high(v);
        } else if addr == 0xff52 {
            self.peripherals.gpu.write_hdma_src_low(v);
        } else if addr == 0xff53 {
            self.peripherals.gpu.write_hdma_dst_high(v);
        } else if addr == 0xff54 {
            self.peripherals.gpu.write_hdma_dst_low(v);
        } else if addr == 0xff55 {
            self.peripherals.gpu.write_hdma_start(v);
        } else if addr == 0xff68 {
            self.peripherals.gpu.select_bg_color_palette(v);
        } else if addr == 0xff69 {
            self.peripherals.gpu.write_bg_color_palette(v);
        } else if addr == 0xff6a {
            self.peripherals.gpu.select_obj_color_palette(v);
        } else if addr == 0xff6b {
            self.peripherals.gpu.write_obj_color_palette(v);
        } else if addr == 0xff70 {
            self.peripherals.wram.select_bank(v);
        }
    }

    /// Read one byte anywhere in the address space.
    pub fn bus_get8(&self, addr: u16) -> (r: u8)
        requires
            self.peripherals.wf(),
        ensures
            0xc000 <= addr <= 0xfdff ==> r == crate::wram::wram_read_spec(
                self.peripherals.wram,
                addr,
            ),
            0xfe00 <= addr <= 0xfe9f ==> r == self.peripherals.gpu.oam_spec()[addr - 0xfe00],
            0xfea0 <= addr <= 0xfeff ==> r == 0,
            0xff80 <= addr <= 0xfffe ==> r == self.peripherals.hram.view_spec()[addr - 0xff80],
            addr == 0xffff ==> r == self.peripherals.irq.enable,
    {
        if addr <= 0x7fff {
            self.peripherals.mbc.on_read(addr)
        } else if addr <= 0x9fff {
            self.peripherals.gpu.read_vram(addr)
        } else if addr <= 0xbfff {
            self.peripherals.mbc.on_read(addr)
        } else if addr <= 0xfdff {
            self.peripherals.wram.get8(addr)
        } else if addr <= 0xfe9f {
            self.peripherals.gpu.read_oam(addr)
        } else if addr <= 0xfeff {
            // prohibited range
            0
        } else if addr <= 0xff7f {
            self.io_read(addr)
        } else if addr <= 0xfffe {
            self.peripherals.hram.get8(addr)
        } else {
            crate::ic::read_enabled(&self.peripherals.irq)
        }
    }

    /// Write one byte anywhere in the address space.
    pub fn bus_set8(&mut self, addr: u16, v: u8)
        requires
            old(self).peripherals.wf(),
            old(self).mixer_stream.wf(),
        ensures
            final(self).peripherals.wf(),
            final(self).mixer_stream.wf(),
            0xfe00 <= addr <= 0xfe9f ==> {
                &&& final(self).peripherals.gpu.oam_spec() == old(
                    self,
                ).peripherals.gpu.oam_spec().update(addr - 0xfe00, v)
                &&& final(self).peripherals.wram == old(self).peripherals.wram
                &&& final(self).peripherals.gpu.hdma_on_spec() == old(
                    self,
                ).peripherals.gpu.hdma_on_spec()
            },
            // work RAM and its echo: the write lands at the effective
            // address and is visible through both windows
            0xc000 <= addr <= 0xfdff ==> forall|a: u16|
                0xc000 <= a <= 0xfdff ==> crate::wram::wram_read_spec(final(self).peripherals.wram, a)
                    == if crate::wram::effective_addr(a) == crate::wram::effective_addr(addr) {
                    v
                } else {
                    crate::wram::wram_read_spec(old(self).peripherals.wram, a)
                },
            0xff80 <= addr <= 0xfffe ==> final(self).peripherals.hram.view_spec() == old(
                self,
            ).peripherals.hram.view_spec().update(addr - 0xff80, v),
            addr == 0xffff ==> final(self).peripherals.irq.enable == v,
    {
        if addr <= 0x7fff {
            self.peripherals.mbc.on_write(addr, v, &mut self.peripherals.hw);
        } else if addr <= 0x9fff {
            self.peripherals.gpu.write_vram(addr, v);
        } else if addr <= 0xbfff {
            self.peripherals.mbc.on_write(addr, v, &mut self.peripherals.hw);
        } else if addr <= 0xfdff {
            self.peripherals.wram.set8(addr, v);
        } else if addr <= 0xfe9f {
            self.peripherals.gpu.write_oam(addr, v);
        } else if addr <= 0xfeff {
            // prohibited range: writes are discarded
        } else if addr <= 0xff7f {
            self.io_write(addr, v);
        } else if addr <= 0xfffe {
            self.peripherals.hram.set8(addr, v);
        } else {
            crate::ic::write_enabled(v, &mut self.peripherals.irq);
        }
    }

    /// Run a block copy over the bus.  An OAM DMA from work RAM lands the
    /// mirrored bytes in OAM exactly.
    fn run_dma(&mut self, req: crate::dma::DmaRequest)
        requires
            old(self).peripherals.wf(),
            old(self).mixer_stream.wf(),
        ensures
            final(self).peripherals.wf(),
            final(self).mixer_stream.wf(),
            (req.dst_spec() == 0xfe00 && req.len_spec() == 0xa0 && 0xc000 <= req.src_spec()
                && req.src_spec() + 0xa0 <= 0xfdff) ==> {
                &&& forall|i: int|
                    0 <= i < 0xa0 ==> final(self).peripherals.gpu.oam_spec()[i]
                        == crate::wram::wram_read_spec(
                        old(self).peripherals.wram,
                        (req.src_spec() + i) as u16,
                    )
                &&& final(self).peripherals.gpu.hdma_on_spec() == old(
                    self,
                ).peripherals.gpu.hdma_on_spec()
            },
    {
        let ghost qualifies = req.dst_spec() == 0xfe00 && req.len_spec() == 0xa0 && 0xc000
            <= req.src_spec() && req.src_spec() + 0xa0 <= 0xfdff;
        proof {
            self.peripherals.gpu.lemma_oam_len();
        }
        let src = req.src();
        let dst = req.dst();
        let len = req.len();
        let mut i: u16 = 0;
        while i < len
            invariant
                i <= len,
                self.peripherals.wf(),
                self.mixer_stream.wf(),
                src == req.src_spec(),
                dst == req.dst_spec(),
                len == req.len_spec(),
                qualifies == (req.dst_spec() == 0xfe00 && req.len_spec() == 0xa0 && 0xc000
                    <= req.src_spec() && req.src_spec() + 0xa0 <= 0xfdff),
                qualifies ==> self.peripherals.wram == old(self).peripherals.wram,
                qualifies ==> forall|j: int|
                    0 <= j < i ==> self.peripherals.gpu.oam_spec()[j]
                        == crate::wram::wram_read_spec(
                        old(self).peripherals.wram,
                        (req.src_spec() + j) as u16,
                    ),
                qualifies ==> forall|j: int|
                    i <= j < 0xa0 ==> self.peripherals.gpu.oam_spec()[j] == old(
                        self,
                    ).peripherals.gpu.oam_spec()[j],
                qualifies ==> self.peripherals.gpu.hdma_on_spec() == old(
                    self,
                ).peripherals.gpu.hdma_on_spec(),
            decreases len - i,
        {
            proof {
                self.peripherals.gpu.lemma_oam_len();
            }
            let value = self.bus_get8(src.wrapping_add(i));
            self.bus_set8(dst.wrapping_add(i), value);
            proof {
                self.peripherals.gpu.lemma_oam_len();
            }
            i = i + 1;
        }
    }

    /// Advance every peripheral by the given T-cycles: the OAM DMA engine
    /// first, then the PPU (running any H-blank DMA it requests), the
    /// timer, the serial port and the joypad edge detector.  After an OAM
    /// DMA armed from a work-RAM page, the OAM mirrors that page.
    pub fn bus_step(&mut self, cycles: usize) -> (r: StepData)
        requires
            old(self).peripherals.wf(),
            old(self).mixer_stream.wf(),
            1 <= cycles <= 256,
        ensures
            final(self).peripherals.wf(),
            final(self).mixer_stream.wf(),
            (old(self).peripherals.dma.on && 0xc0 <= old(self).peripherals.dma.src <= 0xdf
                && !old(self).peripherals.gpu.hdma_on_spec()) ==> forall|i: int|
                0 <= i < 0xa0 ==> final(self).peripherals.gpu.oam_spec()[i]
                    == crate::wram::wram_read_spec(
                    old(self).peripherals.wram,
                    (((old(self).peripherals.dma.src as u16) as int) * 0x100 + i) as u16,
                ),
    {
        let ghost dma_case = old(self).peripherals.dma.on && 0xc0 <= old(self).peripherals.dma.src
            <= 0xdf && !old(self).peripherals.gpu.hdma_on_spec();
        if let Some(req) = self.peripherals.dma.step(cycles) {
            proof {
                if dma_case {
                    assert(req.src_spec() == (old(self).peripherals.dma.src as u16) << 8);
                    let sv = old(self).peripherals.dma.src as u16;
                    assert(0xc0 <= sv <= 0xdf ==> ((sv << 8) == sv * 0x100 && 0xc000 <= sv << 8
                        && (sv << 8) + 0xa0 <= 0xfdff)) by (bit_vector);
                }
            }
            self.run_dma(req);
        }
        let ghost after_oam = *self;
        let (hreq, line) = self.peripherals.gpu.step(
            cycles,
            &mut self.peripherals.irq,
        );
        if let Some(req) = hreq {
            self.run_dma(req);
        }
        proof {
            if dma_case {
                assert(self.peripherals.gpu.oam_spec() == after_oam.peripherals.gpu.oam_spec());
            }
        }
        self.peripherals.timer.step(cycles, &mut self.peripherals.irq);
        self.peripherals.serial.step(cycles, &mut self.peripherals.irq, &mut self.serial_input);
        self.peripherals.joypad.poll(&mut self.peripherals.irq, self.joypad_input);
        StepData { line_to_draw: line }
    }
}

impl<H: crate::hardware::Hardware, GB: GameboyMode> Sys for Mmu<H, GB> {
    /// The full bus has side effects on reads and writes, so it does not
    /// model a plain byte array.
    open spec fn obeys_mem(&self) -> bool {
        false
    }

    open spec fn mem(&self) -> Seq<u8> {
        Seq::empty()
    }

    open spec fn inv(&self) -> bool {
        self.peripherals.wf() && self.mixer_stream.wf()
    }

    open spec fn pending_vec(&self) -> Option<u8> {
        crate::ic::pending_vector(self.peripherals.irq)
    }

    fn peek_int_vec(&mut self) -> (r: Option<u8>) {
        crate::ic::peek(&mut self.peripherals.irq)
    }

    fn pop_int_vec(&mut self) -> (r: Option<u8>) {
        crate::ic::pop(&mut self.peripherals.irq)
    }

    fn get8(&mut self, addr: u16) -> (r: u8) {
        self.bus_get8(addr)
    }

    fn set8(&mut self, addr: u16, v: u8) {
        self.bus_set8(addr, v);
    }

    fn step(&mut self, cycles: usize) -> (r: StepData) {
        self.bus_step(cycles)
    }
}

} // verus!
