//! Whole-machine tests through the public `poll` interface.

use rgy::hardware::JoypadInput;
use rgy::mmu::{DmgMode, Mmu, Peripherals};
use rgy::sound::MixerStream;
use rgy::system::{Config, System};

struct TestHardware;

impl rgy::hardware::Hardware for TestHardware {
    fn clock(&mut self) -> u64 {
        0
    }

    fn save_ram(&mut self, _ram: &[u8]) {}
}

#[test]
fn empty_rom_runs() {
    // an all-zero cartridge executes NOPs forever without faulting
    let rom = vec![0u8; 0x8000];
    let mut sys =
        System::<_, DmgMode>::new(Config::new(), rom, TestHardware, Vec::new(), Vec::new())
            .unwrap();
    let mut mixer = MixerStream::new();
    let mut serial_input = None;
    for _ in 0..5000 {
        let data = sys.poll(&mut mixer, JoypadInput { bits: 0 }, &mut serial_input);
        assert!(data.cpu_time >= 4);
        assert!(data.serial_sent_bytes.is_empty());
    }
}

#[test]
fn oam_dma_copies_wram() {
    let rom = vec![0u8; 0x8000];
    let peripherals =
        Peripherals::<TestHardware, DmgMode>::new(TestHardware, rom, false, Vec::new(), Vec::new())
            .unwrap();
    let mut mmu = Mmu {
        peripherals,
        mixer_stream: MixerStream::new(),
        joypad_input: JoypadInput { bits: 0 },
        serial_input: None,
    };
    // fill the WRAM page at 0xc200 with a recognizable pattern
    for i in 0..0xa0u16 {
        mmu.bus_set8(0xc200 + i, (i as u8) ^ 0x5a);
    }
    // a write to the DMA register arms a copy of that page into OAM
    mmu.bus_set8(0xff46, 0xc2);
    mmu.bus_step(4);
    for i in 0..0xa0u16 {
        assert_eq!(mmu.bus_get8(0xfe00 + i), (i as u8) ^ 0x5a);
    }
}

#[test]
fn serial_bytes_reach_host() {
    // program: ld a,0x55 / ldh (0x01),a / ld a,0x81 / ldh (0x02),a
    let mut rom = vec![0u8; 0x8000];
    let program = [0x3e, 0x55, 0xe0, 0x01, 0x3e, 0x81, 0xe0, 0x02];
    rom[..program.len()].copy_from_slice(&program);
    let mut sys =
        System::<_, DmgMode>::new(Config::new(), rom, TestHardware, Vec::new(), Vec::new())
            .unwrap();
    let mut mixer = MixerStream::new();
    let mut serial_input = None;
    let mut sent = Vec::new();
    for _ in 0..4 {
        let data = sys.poll(&mut mixer, JoypadInput { bits: 0 }, &mut serial_input);
        sent.extend_from_slice(&data.serial_sent_bytes);
    }
    assert_eq!(sent, vec![0x55]);
}

#[test]
fn echo_ram_mirrors_through_the_bus() {
    let rom = vec![0u8; 0x8000];
    let peripherals =
        Peripherals::<TestHardware, DmgMode>::new(TestHardware, rom, false, Vec::new(), Vec::new())
            .unwrap();
    let mut mmu = Mmu {
        peripherals,
        mixer_stream: MixerStream::new(),
        joypad_input: JoypadInput { bits: 0 },
        serial_input: None,
    };
    // every echo address reads back what its mirror holds
    mmu.bus_set8(0xc123, 0x7b);
    assert_eq!(mmu.bus_get8(0xe123), 0x7b);
    mmu.bus_set8(0xfd00, 0x42);
    assert_eq!(mmu.bus_get8(0xdd00), 0x42);
    // the prohibited range reads zero and drops writes
    mmu.bus_set8(0xfea0, 0x99);
    assert_eq!(mmu.bus_get8(0xfea0), 0);
}

#[test]
fn config_builders() {
    let cfg = Config::new().freq(1000000).sample(100).delay_unit(5).color(true);
    assert_eq!(cfg.freq, 1000000);
    assert_eq!(cfg.sample, 100);
    assert_eq!(cfg.delay_unit, 5);
    assert!(cfg.color);
}

#[test]
fn unsupported_mapper_reported() {
    let mut rom = vec![0u8; 0x8000];
    rom[0x147] = 0xfe; // HuC3
    let r = System::<_, DmgMode>::new(Config::new(), rom, TestHardware, Vec::new(), Vec::new());
    assert!(r.is_err());
}
