//! Game Boy (DMG) and Game Boy Color (CGB) emulator core.
//!
//! The crate emulates the Sharp SM83 CPU together with the memory-mapped
//! peripherals of the handheld: interrupt controller, timer, serial port,
//! joypad, pixel-processing unit, audio channels, DMA engines and the
//! cartridge memory-bank controllers.  The host drives the core by calling
//! `System::poll` once per CPU instruction and consumes the produced
//! scanlines, serial bytes and audio samples at its own pace.

pub mod alu;
pub mod cgb;
pub mod cpu;
pub mod dma;
pub mod fc;
pub mod gpu;
pub mod hardware;
pub mod high_ram;
pub mod ic;
pub mod inst;
pub mod joypad;
pub mod mbc;
pub mod mmu;
pub mod serial;
pub mod sound;
pub mod system;
pub mod timer;
pub mod wram;
