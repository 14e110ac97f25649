//! Host-facing interface: the capabilities the core consumes from the host
//! and the small value types that cross that boundary.

use vstd::prelude::*;

verus! {

/// The width of the LCD in pixels.
pub const VRAM_WIDTH: usize = 160;

/// The height of the LCD in pixels.
pub const VRAM_HEIGHT: usize = 144;

/// A key of the joypad.
#[derive(Clone, Copy, Debug, PartialEq, Eq, Structural)]
pub enum Key {
    /// Cursor right key.
    Right,
    /// Cursor left key.
    Left,
    /// Cursor up key.
    Up,
    /// Cursor down key.
    Down,
    /// A key.
    A,
    /// B key.
    B,
    /// Select key.
    Select,
    /// Start key.
    Start,
}

/// Joypad snapshot handed to `poll`: one bit per key, 1 = pressed.
/// Bit 0 A, bit 1 B, bit 2 SELECT, bit 3 START,
/// bit 4 RIGHT, bit 5 LEFT, bit 6 UP, bit 7 DOWN.
#[derive(Clone, Copy, Debug, PartialEq, Eq, Structural)]
pub struct JoypadInput {
    pub bits: u8,
}

impl JoypadInput {
    /// A snapshot with no key pressed.
    pub fn none() -> (r: JoypadInput)
        ensures
            r.bits == 0,
    {
        JoypadInput { bits: 0 }
    }

    /// A snapshot with exactly the given key pressed.
    pub fn from_key(key: Key) -> (r: JoypadInput)
        ensures
            r.bits == key_bit(key),
    {
        JoypadInput { bits: key_bit_exec(key) }
    }
}

/// The bit that represents `key` inside a `JoypadInput`.
pub open spec fn key_bit(key: Key) -> u8 {
    match key {
        Key::A => 0x01,
        Key::B => 0x02,
        Key::Select => 0x04,
        Key::Start => 0x08,
        Key::Right => 0x10,
        Key::Left => 0x20,
        Key::Up => 0x40,
        Key::Down => 0x80,
    }
}

fn key_bit_exec(key: Key) -> (r: u8)
    ensures
        r == key_bit(key),
{
    match key {
        Key::A => 0x01,
        Key::B => 0x02,
        Key::Select => 0x04,
        Key::Start => 0x08,
        Key::Right => 0x10,
        Key::Left => 0x20,
        Key::Up => 0x40,
        Key::Down => 0x80,
    }
}

/// OS-specific functions the core consumes.  The host implements this.
/// Nothing is assumed of the results: the core is verified for every
/// value the host may return.
pub trait Hardware {
    /// Epoch time in microseconds; drives the MBC3 real-time clock.
    fn clock(&mut self) -> u64;

    /// Persist the cartridge RAM.  Called when a game disables external
    /// RAM, which by convention is the moment save data is stable.
    fn save_ram(&mut self, ram: &[u8]);
}

/// A sound wave stream that generates the samples a sound device plays.
pub trait Stream {
    /// The maximum amplitude this stream can return.
    spec fn spec_max(&self) -> u16;

    /// The stream's internal validity, established by its constructor.
    spec fn inv(&self) -> bool;

    /// The maximum value of the amplitude returned by this stream.
    fn max(&self) -> (r: u16)
        ensures
            r == self.spec_max(),
    ;

    /// Produce the next amplitude for the given sample rate.
    fn next(&mut self, rate: u32) -> (r: u16)
        requires
            old(self).inv(),
        ensures
            final(self).inv(),
            r <= old(self).spec_max(),
            final(self).spec_max() == old(self).spec_max(),
    ;

    /// Whether the stream is currently active.
    fn on(&self) -> bool;
}

/// Clock source used by the emulator: epoch time in microseconds.
pub trait Clock {
    fn clock(&self) -> u64;
}

} // verus!
