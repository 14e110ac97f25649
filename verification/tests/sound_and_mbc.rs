//! APU mixer bounds, wave-RAM round trips and cartridge banking.

use rgy::mbc::{CartridgeError, Mbc1, MbcType};
use rgy::sound::{MixerStream, Sound};

struct NoHost;

impl rgy::hardware::Hardware for NoHost {
    fn clock(&mut self) -> u64 {
        0
    }

    fn save_ram(&mut self, _ram: &[u8]) {}
}

#[test]
fn wave_ram_round_trip() {
    let mut apu = Sound::new();
    let mut stream = MixerStream::new();
    for i in 0..16u16 {
        apu.on_write(0xff30 + i, (0x10 + i) as u8, &mut stream);
    }
    for i in 0..16u16 {
        assert_eq!(apu.on_read(0xff30 + i, &stream), (0x10 + i) as u8);
    }
}

#[test]
fn mixer_sample_bounded() {
    let mut apu = Sound::new();
    let mut stream = MixerStream::new();
    // master on, full volume both sides, all channels routed everywhere
    apu.on_write(0xff26, 0x80, &mut stream);
    apu.on_write(0xff24, 0x77, &mut stream);
    apu.on_write(0xff25, 0xff, &mut stream);
    // configure and trigger both squares, wave and noise at max volume
    apu.on_write(0xff12, 0xf0, &mut stream);
    apu.on_write(0xff14, 0x87, &mut stream);
    apu.on_write(0xff17, 0xf0, &mut stream);
    apu.on_write(0xff19, 0x87, &mut stream);
    apu.on_write(0xff1a, 0x80, &mut stream);
    apu.on_write(0xff1c, 0x20, &mut stream);
    apu.on_write(0xff1e, 0x87, &mut stream);
    apu.on_write(0xff21, 0xf0, &mut stream);
    apu.on_write(0xff23, 0x80, &mut stream);
    for _ in 0..10000 {
        let v = stream.sample(44100);
        assert!(v <= 840);
    }
}

#[test]
fn nr52_reports_enable() {
    let mut apu = Sound::new();
    let mut stream = MixerStream::new();
    assert_eq!(apu.on_read(0xff26, &stream) & 0x80, 0);
    apu.on_write(0xff26, 0x80, &mut stream);
    assert_eq!(apu.on_read(0xff26, &stream) & 0x80, 0x80);
}

#[test]
fn mbc1_rom_bank_switch() {
    // a 1 MiB ROM: bank n starts with the byte n
    let mut rom = vec![0u8; 0x40 * 0x4000];
    for bank in 0..0x40 {
        rom[bank * 0x4000] = bank as u8;
    }
    let mut m = Mbc1::new(Vec::new());
    let mut hw = NoHost;
    m.on_write(0x2000, 0x12, &mut hw);
    assert_eq!(m.on_read(0x4000, &rom), 0x12);
    // bank 0 is remapped to bank 1
    m.on_write(0x2000, 0x00, &mut hw);
    assert_eq!(m.on_read(0x4000, &rom), 0x01);
    // the 0x20 quirk: remapped one up
    m.on_write(0x2000, 0x00, &mut hw);
    m.on_write(0x4000, 0x01, &mut hw); // high bank bits = 1 -> bank 0x20
    assert_eq!(m.on_read(0x4000, &rom), 0x21);
}

#[test]
fn mbc1_ram_enable_gates_access() {
    let rom = vec![0u8; 0x8000];
    let mut m = Mbc1::new(Vec::new());
    let mut hw = NoHost;
    m.on_write(0xa000, 0x5a, &mut hw); // disabled: dropped
    assert_eq!(m.on_read(0xa000, &rom), 0);
    m.on_write(0x0000, 0x0a, &mut hw); // enable
    m.on_write(0xa000, 0x5a, &mut hw);
    assert_eq!(m.on_read(0xa000, &rom), 0x5a);
}

#[test]
fn unsupported_cartridge_is_refused() {
    let mut rom = vec![0u8; 0x8000];
    rom[0x147] = 0xfc; // POCKET CAMERA
    let mut hw = NoHost;
    let r = MbcType::new(&mut hw, 0xfc, rom, Vec::new());
    assert!(matches!(r, Err(CartridgeError::UnsupportedType(0xfc))));
}

#[test]
fn mbc_type_selects_mapper() {
    let rom = vec![0u8; 0x8000];
    let mut hw = NoHost;
    assert!(MbcType::new(&mut hw, 0x00, rom.clone(), Vec::new()).is_ok());
    assert!(MbcType::new(&mut hw, 0x01, rom.clone(), Vec::new()).is_ok());
    assert!(MbcType::new(&mut hw, 0x05, rom.clone(), Vec::new()).is_ok());
    assert!(MbcType::new(&mut hw, 0x0f, rom.clone(), Vec::new()).is_ok());
    assert!(MbcType::new(&mut hw, 0x19, rom.clone(), Vec::new()).is_ok());
    assert!(MbcType::new(&mut hw, 0x0b, rom, Vec::new()).is_err());
}

#[test]
fn cartridge_header_summary() {
    let mut rom = vec![0u8; 0x8000];
    rom[0x14a] = 0x01; // non-Japanese
    let mut hw = NoHost;
    let c = rgy::mbc::Cartridge::new(&mut hw, rom, Vec::new()).unwrap();
    let info = c.show_info();
    assert!(info.contains("Non-Japanese"));
    assert!(info.contains("32KByte"));
}

#[test]
fn mbc5_nine_bit_bank() {
    let mut rom = vec![0u8; 0x4000 * 4];
    rom[0x4000] = 0x11;
    rom[0xc000] = 0x33;
    let mut m = rgy::mbc::Mbc5::new(Vec::new());
    let mut hw = NoHost;
    m.on_write(0x2000, 0x01, &mut hw);
    assert_eq!(m.on_read(0x4000, &rom), 0x11);
    m.on_write(0x2000, 0x03, &mut hw);
    assert_eq!(m.on_read(0x4000, &rom), 0x33);
}

#[test]
fn mbc2_nibble_ram() {
    let rom = vec![0u8; 0x8000];
    let mut m = rgy::mbc::Mbc2::new(Vec::new());
    let mut hw = NoHost;
    m.on_write(0x0000, 0x0a, &mut hw); // bit 8 clear: enable RAM
    m.on_write(0xa010, 0xff, &mut hw);
    assert_eq!(m.on_read(0xa010, &rom), 0x0f); // only the low nibble sticks
}

#[test]
fn master_enable_off_silences_mixer() {
    let mut apu = Sound::new();
    let mut stream = MixerStream::new();
    apu.on_write(0xff26, 0x80, &mut stream);
    apu.on_write(0xff24, 0x77, &mut stream);
    apu.on_write(0xff25, 0xff, &mut stream);
    apu.on_write(0xff12, 0xf0, &mut stream);
    apu.on_write(0xff14, 0x87, &mut stream);
    // dropping the master enable resets every channel
    apu.on_write(0xff26, 0x00, &mut stream);
    for _ in 0..100 {
        assert_eq!(stream.sample(44100), 0);
    }
}

#[test]
fn mbc3_disabled_ram_reads_zero() {
    let rom = vec![0u8; 0x8000];
    let mut hw = NoHost;
    let mut m = rgy::mbc::Mbc3::new(Vec::new(), &mut hw);
    m.on_write(0xa000, 0x5a, &mut hw); // disabled: dropped
    assert_eq!(m.on_read(0xa000, &rom), 0);
    m.on_write(0x0000, 0x0a, &mut hw); // enable RAM/RTC
    m.on_write(0xa000, 0x5a, &mut hw);
    assert_eq!(m.on_read(0xa000, &rom), 0x5a);
}

#[test]
fn header_checksum_verified() {
    let mut rom = vec![0u8; 0x8000];
    rom[0x134] = 0x42;
    // x = 0 - 0x42 - 1 for the one non-zero byte, minus 1 for each of the
    // other 24 header bytes
    let mut chk: u8 = 0;
    for i in 0x134..0x14d {
        chk = chk.wrapping_sub(rom[i]).wrapping_sub(1);
    }
    rom[0x14d] = chk;
    assert!(rgy::mbc::verify(&rom));
    rom[0x14d] = chk.wrapping_add(1);
    assert!(!rgy::mbc::verify(&rom));
}
