//! Peripheral behaviour: timer intervals, palettes, HDMA registers,
//! serial transfers and the joypad edge detector.

use rgy::cgb::Cgb;
use rgy::gpu::{from_palette, to_palette, DmgColor, Gpu};
use rgy::hardware::{JoypadInput, Key};
use rgy::ic::{Irq, INT_JOYPAD, INT_SERIAL, INT_TIMER};
use rgy::joypad::Joypad;
use rgy::serial::Serial;
use rgy::timer::Timer;

#[test]
fn timer_interval_4096hz() {
    // TAC = 0x04: enabled at 4096 Hz = every 1024 cycles
    let mut t = Timer::new();
    let mut irq = Irq::new();
    t.on_write(0xff07, 0x04);
    // 1023 cycles in: no increment yet
    for _ in 0..1023 {
        t.step(1, &mut irq);
    }
    assert_eq!(t.on_read(0xff05), 0);
    // one more cycle fires exactly one increment
    t.step(2, &mut irq);
    assert_eq!(t.on_read(0xff05), 1);
}

#[test]
fn timer_interval_262144hz() {
    // TAC = 0x05: enabled at 262144 Hz = every 16 cycles
    let mut t = Timer::new();
    let mut irq = Irq::new();
    t.on_write(0xff07, 0x05);
    for _ in 0..4 {
        t.step(4, &mut irq);
    }
    assert_eq!(t.on_read(0xff05), 0);
    t.step(1, &mut irq);
    assert_eq!(t.on_read(0xff05), 1);
    // 16 more cycles: one more increment
    for _ in 0..4 {
        t.step(4, &mut irq);
    }
    assert_eq!(t.on_read(0xff05), 2);
}

#[test]
fn timer_overflow_reloads_and_interrupts() {
    let mut t = Timer::new();
    let mut irq = Irq::new();
    irq.enable = 0xff;
    t.on_write(0xff05, 0xff); // TIMA
    t.on_write(0xff06, 0xab); // TMA
    t.on_write(0xff07, 0x05); // enable, 16-cycle interval
    t.step(16, &mut irq);
    t.step(1, &mut irq);
    assert_eq!(t.on_read(0xff05), 0xab);
    assert_eq!(irq.request & INT_TIMER, INT_TIMER);
}

#[test]
fn timer_div_ticks() {
    let mut t = Timer::new();
    let mut irq = Irq::new();
    t.step(256, &mut irq);
    t.step(1, &mut irq);
    assert_eq!(t.on_read(0xff04), 1);
    t.on_write(0xff04, 0x55);
    assert_eq!(t.on_read(0xff04), 0);
}

#[test]
fn palette_round_trip() {
    for b in 0..=255u8 {
        assert_eq!(from_palette(to_palette(b)), b);
    }
    assert_eq!(
        to_palette(0b11100100),
        [
            DmgColor::White,
            DmgColor::LightGray,
            DmgColor::DarkGray,
            DmgColor::Black
        ]
    );
}

#[test]
fn serial_internal_transfer() {
    let mut s = Serial::new();
    let mut irq = Irq::new();
    irq.enable = 0xff;
    let mut input = Some(0x5a);
    s.set_data(0xa5);
    s.set_ctrl(0x81, &mut input);
    // the outgoing byte is buffered for the host at once
    assert_eq!(s.get_sent_bytes(), vec![0xa5]);
    assert!(input.is_none());
    // after 4096 cycles the exchange completes and raises the interrupt
    let mut none = None;
    for _ in 0..17 {
        s.step(256, &mut irq, &mut none);
    }
    assert_eq!(s.get_data(), 0x5a);
    assert_eq!(s.get_ctrl(), 0x01);
    assert_eq!(irq.request & INT_SERIAL, INT_SERIAL);
    s.clear_sent_bytes();
    assert!(s.get_sent_bytes().is_empty());
}

#[test]
fn serial_external_transfer_waits_for_input() {
    let mut s = Serial::new();
    let mut irq = Irq::new();
    irq.enable = 0xff;
    let mut input = None;
    s.set_data(0x11);
    s.set_ctrl(0x80, &mut input); // external clock
    s.step(256, &mut irq, &mut input);
    assert_eq!(s.get_ctrl(), 0x80); // still waiting
    let mut input = Some(0x77);
    s.step(256, &mut irq, &mut input);
    assert_eq!(s.get_data(), 0x77);
    assert_eq!(s.get_sent_bytes(), vec![0x11]);
    assert!(input.is_none());
}

#[test]
fn joypad_edge_detect() {
    let mut j = Joypad::new();
    let mut irq = Irq::new();
    irq.enable = 0xff;
    // select the action row (bit 5 low)
    j.write(0x10);
    j.poll(&mut irq, JoypadInput { bits: 0 });
    assert_eq!(irq.request & INT_JOYPAD, 0);
    // pressing A drops bit 0 of the readback: edge raises the interrupt
    j.poll(&mut irq, JoypadInput { bits: 0x01 });
    assert_eq!(irq.request & INT_JOYPAD, INT_JOYPAD);
    assert_eq!(j.read(JoypadInput { bits: 0x01 }) & 0x01, 0);
}

#[test]
fn cgb_speed_switch() {
    let mut c = Cgb::new();
    assert!(!c.double_speed());
    c.write_speed_switch(0x01);
    assert_eq!(c.read_speed_switch(), 0x01);
    c.try_switch_speed();
    assert!(c.double_speed());
    assert_eq!(c.read_speed_switch(), 0x80);
}

#[test]
fn gpu_mode_machine_budgets() {
    // LCD on: modes cycle OAM scan (80) -> drawing (172) -> H-blank (204)
    let mut g = Gpu::<rgy::gpu::Dmg>::new();
    let mut irq = Irq::new();
    g.write_ctrl(0x80, &mut irq);
    // parked in H-blank; one full H-blank budget moves to OAM scan of line 1
    g.step(204, &mut irq);
    g.step(1, &mut irq);
    assert_eq!(g.read_ly(), 1);
    assert_eq!(g.read_status() & 0x3, 2); // OAM scan
    g.step(80, &mut irq);
    assert_eq!(g.read_status() & 0x3, 3); // drawing
    g.step(172, &mut irq);
    assert_eq!(g.read_status() & 0x3, 0); // H-blank
}

#[test]
fn gpu_frame_line_count() {
    // with the LCD on, LY cycles through 0..=153
    let mut g = Gpu::<rgy::gpu::Dmg>::new();
    let mut irq = Irq::new();
    g.write_ctrl(0x80, &mut irq);
    let mut seen_153 = false;
    let mut wrapped = false;
    for _ in 0..(70224 * 2 / 4) {
        g.step(4, &mut irq);
        if g.read_ly() == 153 {
            seen_153 = true;
        }
        if seen_153 && g.read_ly() == 0 {
            wrapped = true;
        }
        assert!(g.read_ly() <= 153);
    }
    assert!(seen_153 && wrapped);
}

#[test]
fn hdma_register_round_trip() {
    let mut g = Gpu::<rgy::gpu::GpuCgbExtension>::new();
    g.write_hdma_src_high(0x12);
    g.write_hdma_src_low(0x34);
    g.write_hdma_dst_high(0x98);
    g.write_hdma_dst_low(0x76);
    assert_eq!(g.read_hdma_src_high(), 0x12);
    assert_eq!(g.read_hdma_src_low(), 0x34);
    assert_eq!(g.read_hdma_dst_high(), 0x98);
    assert_eq!(g.read_hdma_dst_low(), 0x76);
    // arming a general-purpose transfer of 3 blocks reports length and run
    g.write_hdma_start(0x02);
    assert_eq!(g.read_hdma_start(), 0x82);
}

#[test]
fn gpu_modes_sum_to_frame() {
    assert_eq!(
        144 * (rgy::gpu::OAM_CYCLES + rgy::gpu::DRAW_CYCLES + rgy::gpu::HBLANK_CYCLES)
            + 10 * rgy::gpu::LINE_CYCLES,
        rgy::gpu::FRAME_CYCLES
    );
    assert_eq!(rgy::gpu::FRAME_CYCLES, 70224);
}

#[test]
fn lcd_off_parks_mode() {
    let mut g = Gpu::<rgy::gpu::Dmg>::new();
    let mut irq = Irq::new();
    g.write_ctrl(0x80, &mut irq);
    g.step(204, &mut irq);
    g.step(81, &mut irq);
    g.write_ctrl(0x00, &mut irq);
    assert_eq!(g.read_ly(), 0);
    g.step(256, &mut irq);
    assert_eq!(g.read_ly(), 0);
}

#[test]
fn joypad_input_from_key() {
    assert_eq!(JoypadInput::from_key(Key::A).bits, 0x01);
    assert_eq!(JoypadInput::from_key(Key::Start).bits, 0x08);
    assert_eq!(JoypadInput::from_key(Key::Down).bits, 0x80);
    assert_eq!(JoypadInput::none().bits, 0);
}
