//! The whole emulator: the CPU wired to the bus, and the host-facing
//! `poll` interface that runs one instruction at a time.

use crate::cpu::{Cpu, CpuState, Sys};
use crate::hardware::{Hardware, JoypadInput};
use crate::mmu::{GameboyMode, LineToDraw, Mmu, Peripherals};
use crate::sound::MixerStream;
use vstd::prelude::*;

verus! {

/// Configuration of the emulator.
pub struct Config {
    /// Target CPU frequency in Hz.
    pub freq: u64,
    /// Cycle sampling count of the frequency controller.
    pub sample: u64,
    /// Delay adjustment unit of the frequency controller.
    pub delay_unit: u64,
    /// Emulate the Game Boy Color.
    pub color: bool,
}

impl Config {
    /// The default configuration: DMG at 4.1943 MHz.
    pub fn new() -> (r: Config)
        ensures
            r.freq == 4194300,
            r.sample == 4194,
            r.delay_unit == 10,
            !r.color,
            r.sample <= 0x1_0000_0000,
    {
        Config { freq: 4194300, sample: 4194, delay_unit: 10, color: false }
    }

    /// Set the CPU frequency.
    pub fn freq(self, freq: u64) -> (r: Config)
        ensures
            r == (Config { freq, ..self }),
    {
        Config { freq, ..self }
    }

    /// Set the sampling count of the frequency controller.
    pub fn sample(self, sample: u64) -> (r: Config)
        ensures
            r == (Config { sample, ..self }),
    {
        Config { sample, ..self }
    }

    /// Set the delay unit of the frequency controller.
    pub fn delay_unit(self, delay_unit: u64) -> (r: Config)
        ensures
            r == (Config { delay_unit, ..self }),
    {
        Config { delay_unit, ..self }
    }

    /// Set the flag that selects Game Boy Color emulation.
    pub fn color(self, color: bool) -> (r: Config)
        ensures
            r == (Config { color, ..self }),
    {
        Config { color, ..self }
    }
}

/// What one `poll` call produced for the host.
pub struct PollData {
    /// A finished scanline, emitted once per line at the end of its
    /// drawing phase.
    pub line_to_draw: Option<LineToDraw>,
    /// T-cycles the instruction consumed.
    pub cpu_time: usize,
    /// Bytes the serial port transmitted during this poll.
    pub serial_sent_bytes: Vec<u8>,
}

/// The entire emulator context.
pub struct System<H, GB: GameboyMode> {
    cpu: Cpu<Mmu<H, GB>>,
}

impl<H: Hardware, GB: GameboyMode> System<H, GB> {
    /// The machine is internally valid.
    pub open spec fn wf(&self) -> bool {
        self.cpu_spec().sys.inv()
    }

    pub closed spec fn cpu_spec(&self) -> Cpu<Mmu<H, GB>> {
        self.cpu
    }

    /// Build an emulator around a cartridge image.  `boot_rom` may be
    /// empty to start without the boot ROM overlay.  Fails only when the
    /// cartridge names a mapper this core does not implement.
    pub fn new(cfg: Config, rom: Vec<u8>, hw: H, cartridge_ram: Vec<u8>, boot_rom: Vec<u8>) -> (r:
        Result<Self, crate::mbc::CartridgeError>)
        requires
            rom@.len() >= 0x150,
        ensures
            r matches Ok(s) ==> s.wf(),
    {
        let peripherals = match Peripherals::new(hw, rom, cfg.color, cartridge_ram, boot_rom) {
            Ok(p) => p,
            Err(e) => {
                return Err(e);
            },
        };
        let mmu = Mmu {
            peripherals,
            mixer_stream: MixerStream::new(),
            joypad_input: JoypadInput::none(),
            serial_input: None,
        };
        Ok(System { cpu: Cpu { state: CpuState::new(), sys: mmu } })
    }

    /// Run a single instruction of emulation.  The mixer is borrowed so
    /// register writes can reconfigure the audio channels; the joypad
    /// snapshot feeds the edge detector; a byte placed in `serial_input`
    /// is consumed by the serial port (it becomes `None` when taken).
    ///
    /// The returned data is exactly what the machine produced: the cycles
    /// the executed instruction consumed, the bytes the serial port queued
    /// since the start of this poll (its buffer is cleared at entry), and
    /// the scanline the PPU finished during the instruction, if any.
    pub fn poll(
        &mut self,
        mixer_stream: &mut MixerStream,
        joypad_input: JoypadInput,
        serial_input: &mut Option<u8>,
    ) -> (r: PollData)
        requires
            old(self).wf(),
            old(mixer_stream).wf(),
        ensures
            final(self).wf(),
            final(mixer_stream).wf(),
            r.cpu_time == final(self).cpu_spec().state.cycles,
            r.serial_sent_bytes@ == final(self).cpu_spec().sys.peripherals.serial.sent_spec(),
            r.line_to_draw == final(self).cpu_spec().state.steps_data.line_to_draw,
    {
        self.cpu.sys.peripherals.serial.clear_sent_bytes();
        core::mem::swap(&mut self.cpu.sys.mixer_stream, mixer_stream);
        core::mem::swap(&mut self.cpu.sys.serial_input, serial_input);
        self.cpu.sys.joypad_input = joypad_input;

        let time = self.cpu.execute();

        core::mem::swap(&mut self.cpu.sys.mixer_stream, mixer_stream);
        core::mem::swap(&mut self.cpu.sys.serial_input, serial_input);

        PollData {
            line_to_draw: self.cpu.state.steps_data.line_to_draw,
            cpu_time: time,
            serial_sent_bytes: self.cpu.sys.peripherals.serial.get_sent_bytes(),
        }
    }
}

} // verus!
