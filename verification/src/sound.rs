//! Audio processing unit: two square-wave channels (one with a frequency
//! sweep), a 32-sample wave channel, an LFSR noise channel, and the mixer
//! that combines them.  Register writes reconfigure the channels; the host
//! pulls samples from the `MixerStream` at its own rate.

use crate::hardware::Stream;
use vstd::prelude::*;

verus! {

/// `a + b`, stopping at the top of the range instead of wrapping.
fn sat_add64(a: u64, b: u64) -> (r: u64)
    ensures
        r == if a + b <= u64::MAX {
            a + b
        } else {
            u64::MAX as int
        },
{
    if a <= u64::MAX - b {
        a + b
    } else {
        u64::MAX
    }
}

/// Channel 1's frequency sweep: every `time`/128 s the frequency moves by
/// its own value shifted right by `shift`; leaving the 11-bit range
/// silences the channel.
struct Sweep {
    enable: bool,
    /// The playing frequency in Hz.
    freq: u32,
    time: u8,
    sub: bool,
    shift: u8,
    clock: u64,
}

impl Sweep {
    spec fn wf(&self) -> bool {
        self.freq <= 131072 && self.shift <= 7
    }

    fn new(enable: bool, freq: u32, time: u8, sub: bool, shift: u8) -> (r: Sweep)
        requires
            freq <= 131072,
            shift <= 7,
        ensures
            r.wf(),
    {
        Sweep { enable, freq, time, sub, shift, clock: 0 }
    }

    /// The current frequency, advancing the sweep by one sample tick.
    fn freq(&mut self, rate: u64) -> (r: u32)
        requires
            old(self).wf(),
            rate <= 0xffff_ffff,
        ensures
            final(self).wf(),
            r <= 131072,
    {
        if !self.enable || self.time == 0 || self.shift == 0 {
            return self.freq;
        }
        proof {
            vstd::arithmetic::mul::lemma_mul_upper_bound(
                rate as int,
                0xffff_ffff,
                self.time as int,
                255,
            );
        }
        let interval = rate * (self.time as u64) / 128;
        self.clock = sat_add64(self.clock, 1);
        if self.clock >= interval {
            self.clock = self.clock - interval;
            let p = self.freq >> self.shift;
            proof {
                let fq = self.freq;
                let sh = self.shift;
                assert(fq >> sh <= fq) by (bit_vector);
            }
            let nf: u32 = if self.sub {
                if p > self.freq {
                    0
                } else {
                    self.freq - p
                }
            } else {
                self.freq + p
            };
            if nf >= 2048 || nf == 0 {
                self.enable = false;
                self.freq = 0;
            } else {
                self.freq = nf;
            }
        }
        self.freq
    }
}

/// Volume envelope: every `count`/64 s the amplitude steps up or down,
/// stopping at the 4-bit bounds.
struct Envelop {
    amp: u8,
    count: u8,
    inc: bool,
    clock: u64,
}

impl Envelop {
    spec fn wf(&self) -> bool {
        self.amp <= 15
    }

    fn new(amp: u8, count: u8, inc: bool) -> (r: Envelop)
        requires
            amp <= 15,
        ensures
            r.wf(),
    {
        Envelop { amp, count, inc, clock: 0 }
    }

    /// The current amplitude, advancing the envelope by one sample tick.
    fn amp(&mut self, rate: u64) -> (r: u8)
        requires
            old(self).wf(),
            rate <= 0xffff_ffff,
        ensures
            final(self).wf(),
            r <= 15,
    {
        if self.amp == 0 {
            return 0;
        }
        if self.count == 0 {
            return self.amp;
        }
        proof {
            vstd::arithmetic::mul::lemma_mul_upper_bound(
                rate as int,
                0xffff_ffff,
                self.count as int,
                255,
            );
        }
        let interval = rate * (self.count as u64) / 64;
        self.clock = sat_add64(self.clock, 1);
        if self.clock >= interval {
            self.clock = self.clock - interval;
            self.amp = if self.inc {
                if self.amp < 15 {
                    self.amp + 1
                } else {
                    15
                }
            } else {
                self.amp - 1
            };
        }
        self.amp
    }
}

/// Length counter: once `base - count` sample ticks have elapsed the
/// channel reports itself stopped.
struct Counter {
    enable: bool,
    count: u16,
    base: u16,
    clock: u64,
}

impl Counter {
    spec fn wf(&self) -> bool {
        self.count <= self.base
    }

    fn new(enable: bool, count: u16, base: u16) -> (r: Counter)
        requires
            count <= base,
        ensures
            r.wf(),
    {
        Counter { enable, count, base, clock: 0 }
    }

    /// Whether the channel has expired, advancing the counter one tick.
    fn stop(&mut self, rate: u64) -> (r: bool)
        requires
            old(self).wf(),
            rate <= 0xffff_ffff,
        ensures
            final(self).wf(),
    {
        if !self.enable {
            return false;
        }
        proof {
            vstd::arithmetic::mul::lemma_mul_upper_bound(
                rate as int,
                0xffff_ffff,
                (self.base - self.count) as int,
                0xffff,
            );
        }
        let deadline = rate * ((self.base - self.count) as u64) / 256;
        if self.clock >= deadline {
            true
        } else {
            self.clock = self.clock + 1;
            false
        }
    }
}

/// Phase accumulator that walks an index 0..max at `freq` steps per
/// second, sampled at `rate` calls per second.
struct WaveIndex {
    clock: u64,
    index: u16,
}

impl WaveIndex {
    fn new() -> (r: WaveIndex)
        ensures
            r.index == 0,
    {
        WaveIndex { clock: 0, index: 0 }
    }

    fn index(&mut self, rate: u64, freq: u64, max: u16) -> (r: u16)
        requires
            max >= 1,
        ensures
            r < max,
    {
        self.clock = sat_add64(self.clock, freq);
        if self.clock >= rate {
            self.clock = self.clock - rate;
            self.index = if self.index < max - 1 {
                self.index + 1
            } else {
                0
            };
        }
        if self.index < max {
            self.index
        } else {
            self.index = 0;
            0
        }
    }
}

/// 15-bit (or 7-bit) linear-feedback shift register for the noise channel.
struct Lfsr {
    value: u16,
    short: bool,
}

impl Lfsr {
    fn new(short: bool) -> (r: Lfsr) {
        Lfsr { value: 0xdead, short }
    }

    /// The output: bit 0, inverted.
    fn high(&self) -> (r: bool)
        ensures
            r == (self.value & 1 == 0),
    {
        self.value & 1 == 0
    }

    fn update(&mut self)
        ensures
            final(self).short == old(self).short,
    {
        if self.short {
            self.value = self.value & 0xff;
            let bit = (self.value & 0x0001) ^ ((self.value & 0x0004) >> 2) ^ ((self.value & 0x0008)
                >> 3) ^ ((self.value & 0x0010) >> 5);
            self.value = (self.value >> 1) | (bit << 7);
        } else {
            let bit = (self.value & 0x0001) ^ ((self.value & 0x0004) >> 2) ^ ((self.value & 0x0008)
                >> 3) ^ ((self.value & 0x0020) >> 5);
            self.value = (self.value >> 1) | (bit << 15);
        }
    }
}

/// The LFSR advanced at the noise channel's frequency.
struct RandomWave {
    lfsr: Lfsr,
    clock: u64,
}

impl RandomWave {
    fn new(short: bool) -> (r: RandomWave) {
        RandomWave { lfsr: Lfsr::new(short), clock: 0 }
    }

    fn high(&mut self, rate: u64, freq: u64) -> (r: bool) {
        self.clock = sat_add64(self.clock, freq);
        if self.clock >= rate {
            self.clock = self.clock - rate;
            self.lfsr.update();
        }
        self.lfsr.high()
    }
}

/// Square-wave channel configuration (NR10-NR14 / NR21-NR24).
#[derive(Clone, Copy)]
pub struct Tone {
    sweep_time: u8,
    sweep_sub: bool,
    sweep_shift: u8,
    sound_len: u8,
    wave_duty: u8,
    env_init: u8,
    env_inc: bool,
    env_count: u8,
    counter: bool,
    freq: u16,
}

impl Tone {
    pub closed spec fn wf(&self) -> bool {
        &&& self.freq < 2048
        &&& self.env_init <= 15
        &&& self.sound_len <= 31
        &&& self.wave_duty <= 3
        &&& self.sweep_shift <= 7
    }

    /// The 11-bit frequency register value.
    pub closed spec fn freq_spec(&self) -> u16 {
        self.freq
    }

    pub fn new() -> (r: Tone)
        ensures
            r.wf(),
            r.freq_spec() == 0,
    {
        Tone {
            sweep_time: 0,
            sweep_sub: false,
            sweep_shift: 0,
            sound_len: 0,
            wave_duty: 0,
            env_init: 0,
            env_inc: false,
            env_count: 0,
            counter: false,
            freq: 0,
        }
    }

    /// Handle a write to one of the channel's five registers, `base` being
    /// the address of its first.  Returns whether the write triggers a
    /// restart (bit 7 of the last register).
    pub fn on_write(&mut self, base: u16, addr: u16, value: u8) -> (r: bool)
        requires
            old(self).wf(),
            base <= addr <= base + 4,
        ensures
            final(self).wf(),
            addr == base + 3 ==> final(self).freq_spec() == (old(self).freq_spec() & 0x700) | (
            value as u16),
            addr == base + 4 ==> final(self).freq_spec() == (old(self).freq_spec() & 0xff) | (((
            value & 0x7) as u16) << 8),
            r == (addr == base + 4 && value & 0x80 != 0),
    {
        proof {
            let f = old(self).freq;
            assert(f < 2048 ==> (f & 0x700) | (value as u16) < 2048) by (bit_vector);
            assert(f < 2048 ==> (f & 0xff) | (((value & 0x7) as u16) << 8) < 2048) by (bit_vector);
            assert(value >> 6 <= 3 && (value >> 4) <= 15 && (value & 0x1f) <= 31 && (value & 0x07)
                <= 7) by (bit_vector);
        }
        if addr == base {
            self.sweep_time = (value >> 4) & 0x7;
            self.sweep_sub = value & 0x08 != 0;
            self.sweep_shift = value & 0x07;
            false
        } else if addr == base + 1 {
            self.wave_duty = value >> 6;
            self.sound_len = value & 0x1f;
            false
        } else if addr == base + 2 {
            self.env_init = value >> 4;
            self.env_inc = value & 0x08 != 0;
            self.env_count = value & 0x7;
            false
        } else if addr == base + 3 {
            self.freq = (self.freq & 0x700) | (value as u16);
            false
        } else {
            self.counter = value & 0x40 != 0;
            self.freq = (self.freq & 0xff) | (((value & 0x7) as u16) << 8);
            value & 0x80 != 0
        }
    }

    /// Build the running stream for this configuration; channel 1 enables
    /// the frequency sweep.
    pub fn create_stream(&self, sweep: bool) -> (r: ToneStream)
        requires
            self.wf(),
        ensures
            r.wf(),
    {
        ToneStream::new(*self, sweep)
    }
}

/// A square-wave channel in flight.
pub struct ToneStream {
    tone: Tone,
    sweep: Sweep,
    env: Envelop,
    counter: Counter,
    index: WaveIndex,
}

impl ToneStream {
    pub closed spec fn wf(&self) -> bool {
        &&& self.tone.wf()
        &&& self.sweep.wf()
        &&& self.env.wf()
        &&& self.counter.wf()
    }

    fn new(tone: Tone, sweep: bool) -> (r: ToneStream)
        requires
            tone.wf(),
        ensures
            r.wf(),
    {
        let freq: u32 = 131072 / ((2048 - tone.freq) as u32);
        let sweep = Sweep::new(sweep, freq, tone.sweep_time, tone.sweep_sub, tone.sweep_shift);
        let env = Envelop::new(tone.env_init, tone.env_count, tone.env_inc);
        let counter = Counter::new(tone.counter, tone.sound_len as u16, 64);
        ToneStream { tone, sweep, env, counter, index: WaveIndex::new() }
    }

    /// One output sample: 0 in the low part of the duty cycle, the
    /// envelope's amplitude in the high part.  Never exceeds 15.
    pub fn sample(&mut self, rate: u32) -> (r: u16)
        requires
            old(self).wf(),
        ensures
            final(self).wf(),
            r <= 15,
    {
        let rate = rate as u64;
        if self.counter.stop(rate) {
            return 0;
        }
        let amp = self.env.amp(rate);
        let freq = self.sweep.freq(rate);
        let duty: u16 = if self.tone.wave_duty == 0 {
            0
        } else if self.tone.wave_duty == 1 {
            1
        } else if self.tone.wave_duty == 2 {
            3
        } else {
            5
        };
        let index = self.index.index(rate, (freq as u64) * 8, 8);
        if index <= duty {
            0
        } else {
            amp as u16
        }
    }
}

impl Stream for ToneStream {
    open spec fn spec_max(&self) -> u16 {
        15
    }

    open spec fn inv(&self) -> bool {
        self.wf()
    }

    fn max(&self) -> (r: u16) {
        15
    }

    fn next(&mut self, rate: u32) -> (r: u16) {
        self.sample(rate)
    }

    fn on(&self) -> bool {
        true
    }
}

/// Wave channel configuration and its 16-byte sample RAM (NR30-NR34,
/// 0xff30-0xff3f).
#[derive(Clone, Copy)]
pub struct Wave {
    enable: bool,
    sound_len: u8,
    amp_shift: u8,
    counter: bool,
    freq: u16,
    wavebuf: [u8; 16],
}

impl Wave {
    pub closed spec fn wf(&self) -> bool {
        self.freq < 2048
    }

    /// The wave RAM contents.
    pub closed spec fn wavebuf_spec(&self) -> Seq<u8> {
        self.wavebuf@
    }

    pub closed spec fn freq_spec(&self) -> u16 {
        self.freq
    }

    pub fn new() -> (r: Wave)
        ensures
            r.wf(),
    {
        Wave {
            enable: false,
            sound_len: 0,
            amp_shift: 0,
            counter: false,
            freq: 0,
            wavebuf: [0u8; 16],
        }
    }

    /// Handle a write to the channel registers or the wave RAM.  Returns
    /// whether the write triggers a restart.
    pub fn on_write(&mut self, addr: u16, value: u8) -> (r: bool)
        requires
            old(self).wf(),
            addr == 0xff1a || addr == 0xff1b || addr == 0xff1c || addr == 0xff1d || addr == 0xff1e
                || (0xff30 <= addr <= 0xff3f),
        ensures
            final(self).wf(),
            0xff30 <= addr <= 0xff3f ==> final(self).wavebuf_spec() == old(self).wavebuf_spec().update(addr - 0xff30, value),
            !(0xff30 <= addr <= 0xff3f) ==> final(self).wavebuf_spec() == old(self).wavebuf_spec(),
            addr == 0xff1d ==> final(self).freq_spec() == (old(self).freq_spec() & 0x700) | (
            value as u16),
            addr == 0xff1e ==> final(self).freq_spec() == (old(self).freq_spec() & 0xff) | (((value
                & 0x7) as u16) << 8),
            r == (addr == 0xff1a || (addr == 0xff1e && value & 0x80 != 0)),
    {
        proof {
            let f = old(self).freq;
            assert(f < 2048 ==> (f & 0x700) | (value as u16) < 2048) by (bit_vector);
            assert(f < 2048 ==> (f & 0xff) | (((value & 0x7) as u16) << 8) < 2048) by (bit_vector);
        }
        if addr == 0xff1a {
            self.enable = value & 0x80 != 0;
            true
        } else if addr == 0xff1b {
            self.sound_len = value;
            false
        } else if addr == 0xff1c {
            self.amp_shift = (value >> 5) & 0x3;
            false
        } else if addr == 0xff1d {
            self.freq = (self.freq & 0x700) | (value as u16);
            false
        } else if addr == 0xff1e {
            self.counter = value & 0x40 != 0;
            self.freq = (self.freq & 0xff) | (((value & 0x7) as u16) << 8);
            value & 0x80 != 0
        } else {
            self.wavebuf[(addr - 0xff30) as usize] = value;
            false
        }
    }

    /// The wave RAM holds its 16 bytes.
    pub proof fn lemma_wavebuf_len(&self)
        ensures
            self.wavebuf_spec().len() == 16,
    {
    }

    /// Read one byte of the wave RAM (0xff30-0xff3f).
    pub fn read_buf(&self, addr: u16) -> (r: u8)
        requires
            0xff30 <= addr <= 0xff3f,
        ensures
            r == self.wavebuf_spec()[addr - 0xff30],
    {
        self.wavebuf[(addr - 0xff30) as usize]
    }

    pub fn create_stream(&self) -> (r: WaveStream)
        requires
            self.wf(),
        ensures
            r.wf(),
    {
        WaveStream::new(*self)
    }
}

/// The wave channel in flight.
pub struct WaveStream {
    wave: Wave,
    counter: Counter,
    index: WaveIndex,
}

impl WaveStream {
    pub closed spec fn wf(&self) -> bool {
        &&& self.wave.wf()
        &&& self.counter.wf()
    }

    fn new(wave: Wave) -> (r: WaveStream)
        requires
            wave.wf(),
        ensures
            r.wf(),
    {
        let counter = Counter::new(wave.counter, wave.sound_len as u16, 256);
        WaveStream { wave, counter, index: WaveIndex::new() }
    }

    /// One output sample: a nibble of the wave RAM through the volume
    /// shift.  Never exceeds 15.
    pub fn sample(&mut self, rate: u32) -> (r: u16)
        requires
            old(self).wf(),
        ensures
            final(self).wf(),
            r <= 15,
    {
        if !self.wave.enable {
            return 0;
        }
        let rate = rate as u64;
        if self.counter.stop(rate) {
            return 0;
        }
        let freq: u64 = 65536 / ((2048 - self.wave.freq) as u64);
        let index = self.index.index(rate, freq * 32, 32);
        let b = self.wave.wavebuf[(index / 2) as usize];
        let amp: u8 = if index % 2 == 0 {
            b >> 4
        } else {
            b & 0xf
        };
        proof {
            assert(b >> 4 <= 15 && b & 0xf <= 15 && (b >> 4) >> 1 <= 15 && (b & 0xf) >> 2 <= 15)
                by (bit_vector);
            assert(amp >> 1 <= amp && amp >> 2 <= amp) by (bit_vector);
        }
        let amp: u8 = if self.wave.amp_shift == 0 {
            0
        } else if self.wave.amp_shift == 1 {
            amp
        } else if self.wave.amp_shift == 2 {
            amp >> 1
        } else {
            amp >> 2
        };
        amp as u16
    }
}

impl Stream for WaveStream {
    open spec fn spec_max(&self) -> u16 {
        15
    }

    open spec fn inv(&self) -> bool {
        self.wf()
    }

    fn max(&self) -> (r: u16) {
        15
    }

    fn next(&mut self, rate: u32) -> (r: u16) {
        self.sample(rate)
    }

    fn on(&self) -> bool {
        true
    }
}

/// Noise channel configuration (NR41-NR44).
#[derive(Clone, Copy)]
pub struct Noise {
    sound_len: u8,
    env_init: u8,
    env_inc: bool,
    env_count: u8,
    shift_freq: u8,
    step: bool,
    div_freq: u8,
    counter: bool,
}

impl Noise {
    pub closed spec fn wf(&self) -> bool {
        &&& self.env_init <= 15
        &&& self.sound_len <= 63
        &&& self.shift_freq <= 15
        &&& self.div_freq <= 7
    }

    pub fn new() -> (r: Noise)
        ensures
            r.wf(),
    {
        Noise {
            sound_len: 0,
            env_init: 0,
            env_inc: false,
            env_count: 0,
            shift_freq: 0,
            step: false,
            div_freq: 0,
            counter: false,
        }
    }

    /// Handle a write to one of the channel's registers.  Returns whether
    /// the write triggers a restart.
    pub fn on_write(&mut self, addr: u16, value: u8) -> (r: bool)
        requires
            old(self).wf(),
            0xff20 <= addr <= 0xff23,
        ensures
            final(self).wf(),
            r == (addr == 0xff23 && value & 0x80 != 0),
    {
        proof {
            assert((value & 0x1f) <= 63 && (value >> 4) <= 15 && (value & 0x7) <= 7) by (
            bit_vector);
        }
        if addr == 0xff20 {
            self.sound_len = value & 0x1f;
            false
        } else if addr == 0xff21 {
            self.env_init = value >> 4;
            self.env_inc = value & 0x08 != 0;
            self.env_count = value & 0x7;
            false
        } else if addr == 0xff22 {
            self.shift_freq = value >> 4;
            self.step = value & 0x08 != 0;
            self.div_freq = value & 0x7;
            false
        } else {
            self.counter = value & 0x40 != 0;
            value & 0x80 != 0
        }
    }

    pub fn create_stream(&self) -> (r: NoiseStream)
        requires
            self.wf(),
        ensures
            r.wf(),
    {
        NoiseStream::new(*self)
    }
}

/// The noise channel in flight.
pub struct NoiseStream {
    noise: Noise,
    env: Envelop,
    counter: Counter,
    wave: RandomWave,
}

impl NoiseStream {
    pub closed spec fn wf(&self) -> bool {
        &&& self.noise.wf()
        &&& self.env.wf()
        &&& self.counter.wf()
    }

    fn new(noise: Noise) -> (r: NoiseStream)
        requires
            noise.wf(),
        ensures
            r.wf(),
    {
        let env = Envelop::new(noise.env_init, noise.env_count, noise.env_inc);
        let counter = Counter::new(noise.counter, noise.sound_len as u16, 64);
        let wave = RandomWave::new(noise.step);
        NoiseStream { noise, env, counter, wave }
    }

    /// One output sample: the envelope amplitude gated by the LFSR.
    /// Never exceeds 15.
    pub fn sample(&mut self, rate: u32) -> (r: u16)
        requires
            old(self).wf(),
        ensures
            final(self).wf(),
            r <= 15,
    {
        let rate = rate as u64;
        if self.counter.stop(rate) {
            return 0;
        }
        let amp = self.env.amp(rate);
        let r = self.noise.div_freq as u64;
        let s = self.noise.shift_freq as u32;
        proof {
            let sh = s;
            assert(sh <= 15 ==> 1u64 << (sh + 1) > 0) by (bit_vector);
        }
        let freq: u64 = if r == 0 {
            // r = 0 behaves as r = 0.5
            (524288 * 5 / 10) / (1u64 << (s + 1))
        } else {
            524288 / r / (1u64 << (s + 1))
        };
        if self.wave.high(rate, freq) {
            amp as u16
        } else {
            0
        }
    }
}

impl Stream for NoiseStream {
    open spec fn spec_max(&self) -> u16 {
        15
    }

    open spec fn inv(&self) -> bool {
        self.wf()
    }

    fn max(&self) -> (r: u16) {
        15
    }

    fn next(&mut self, rate: u32) -> (r: u16) {
        self.sample(rate)
    }

    fn on(&self) -> bool {
        true
    }
}

/// The mixer registers NR50 (master volume), NR51 (panning) and NR52
/// (master enable).
pub struct Mixer {
    so1_volume: u8,
    so2_volume: u8,
    so_mask: u8,
    enable: bool,
}

/// Per-channel volume: the sum of the two output terminals' master
/// volumes where the panning mask routes the channel.  At most 14.
pub open spec fn volume_spec(id: u8, so_mask: u8, so1: u8, so2: u8) -> u8 {
    ((if so_mask & (1u8 << id) != 0 {
        so1
    } else {
        0
    }) + (if so_mask & ((1u8 << id) << 4) != 0 {
        so2
    } else {
        0
    })) as u8
}

impl Mixer {
    pub closed spec fn wf(&self) -> bool {
        self.so1_volume <= 7 && self.so2_volume <= 7
    }

    pub closed spec fn enable_spec(&self) -> bool {
        self.enable
    }

    pub fn new() -> (r: Mixer)
        ensures
            r.wf(),
            !r.enable_spec(),
    {
        Mixer { so1_volume: 0, so2_volume: 0, so_mask: 0, enable: false }
    }

    /// Handle a read of NR51 or NR52: NR52 reports the master enable in
    /// bit 7 and each running channel in bits 3..0.
    pub fn on_read(&self, addr: u16, stream: &MixerStream) -> (r: u8)
        requires
            addr == 0xff25 || addr == 0xff26,
        ensures
            addr == 0xff25 ==> r == self.so_mask_spec(),
            addr == 0xff26 ==> (r & 0x80 != 0) == self.enable_spec(),
    {
        if addr == 0xff25 {
            self.so_mask
        } else {
            let c1: u8 = if stream.channel_on(0) {
                0x08
            } else {
                0x00
            };
            let c2: u8 = if stream.channel_on(1) {
                0x04
            } else {
                0x00
            };
            let c3: u8 = if stream.channel_on(2) {
                0x02
            } else {
                0x00
            };
            let c4: u8 = if stream.channel_on(3) {
                0x01
            } else {
                0x00
            };
            let ch: u8 = c1 | c2 | c3 | c4;
            proof {
                assert(c1 | c2 | c3 | c4 <= 0x0f) by (bit_vector)
                    requires
                        c1 <= 8,
                        c2 <= 4,
                        c3 <= 2,
                        c4 <= 1,
                ;
                assert((0x80u8 | ch) & 0x80 != 0 && ch & 0x80 == 0) by (bit_vector)
                    requires
                        ch <= 0x0f,
                ;
            }
            if self.enable {
                0x80 | ch
            } else {
                ch
            }
        }
    }

    pub closed spec fn so_mask_spec(&self) -> u8 {
        self.so_mask
    }

    /// Handle a write to NR50, NR51 or NR52, recomputing every channel's
    /// stream volume from the new registers.  Dropping the master enable
    /// resets all four channels: the mixer goes silent.
    pub fn on_write(&mut self, addr: u16, value: u8, stream: &mut MixerStream)
        requires
            old(self).wf(),
            old(stream).wf(),
            addr == 0xff24 || addr == 0xff25 || addr == 0xff26,
        ensures
            final(self).wf(),
            final(stream).wf(),
            addr == 0xff24 ==> final(self).so1_vol_spec() == (value >> 4) & 0x7 && final(self).so2_vol_spec() == value & 0x7,
            addr == 0xff25 ==> final(self).so_mask_spec() == value,
            addr == 0xff26 ==> final(self).enable_spec() == (value & 0x80 != 0),
            addr == 0xff26 && value & 0x80 == 0 ==> final(stream).all_off(),
            final(stream).tone1_volume_spec() == volume_spec(
                0,
                final(self).so_mask_spec(),
                final(self).so1_vol_spec(),
                final(self).so2_vol_spec(),
            ),
            final(stream).tone2_volume_spec() == volume_spec(
                1,
                final(self).so_mask_spec(),
                final(self).so1_vol_spec(),
                final(self).so2_vol_spec(),
            ),
            final(stream).wave_volume_spec() == volume_spec(
                2,
                final(self).so_mask_spec(),
                final(self).so1_vol_spec(),
                final(self).so2_vol_spec(),
            ),
            final(stream).noise_volume_spec() == volume_spec(
                3,
                final(self).so_mask_spec(),
                final(self).so1_vol_spec(),
                final(self).so2_vol_spec(),
            ),
    {
        proof {
            assert((value >> 4) & 0x7 <= 7 && value & 0x7 <= 7) by (bit_vector);
        }
        if addr == 0xff24 {
            self.so1_volume = (value >> 4) & 0x7;
            self.so2_volume = value & 0x7;
            self.update_volume(stream);
        } else if addr == 0xff25 {
            self.so_mask = value;
            self.update_volume(stream);
        } else {
            self.enable = value & 0x80 != 0;
            if !self.enable {
                // the master enable fell: every channel resets
                stream.clear();
            }
            self.update_volume(stream);
        }
    }

    pub closed spec fn so1_vol_spec(&self) -> u8 {
        self.so1_volume
    }

    pub closed spec fn so2_vol_spec(&self) -> u8 {
        self.so2_volume
    }

    /// Restart square channel 1 from its current configuration.
    pub fn restart_tone1(&mut self, t: &Tone, stream: &mut MixerStream)
        requires
            t.wf(),
            old(stream).wf(),
        ensures
            final(stream).wf(),
            *final(self) == *old(self),
            final(stream).tone1_on_spec(),
    {
        stream.tone1.stream = Some(t.create_stream(true));
    }

    /// Restart square channel 2 from its current configuration.
    pub fn restart_tone2(&mut self, t: &Tone, stream: &mut MixerStream)
        requires
            t.wf(),
            old(stream).wf(),
        ensures
            final(stream).wf(),
            *final(self) == *old(self),
            final(stream).tone2_on_spec(),
    {
        stream.tone2.stream = Some(t.create_stream(false));
    }

    /// Restart the wave channel from its current configuration.
    pub fn restart_wave(&mut self, w: &Wave, stream: &mut MixerStream)
        requires
            w.wf(),
            old(stream).wf(),
        ensures
            final(stream).wf(),
            *final(self) == *old(self),
            final(stream).wave_on_spec(),
    {
        stream.wave.stream = Some(w.create_stream());
    }

    /// Restart the noise channel from its current configuration.
    pub fn restart_noise(&mut self, n: &Noise, stream: &mut MixerStream)
        requires
            n.wf(),
            old(stream).wf(),
        ensures
            final(stream).wf(),
            *final(self) == *old(self),
            final(stream).noise_on_spec(),
    {
        stream.noise.stream = Some(n.create_stream());
    }

    fn update_volume(&mut self, stream: &mut MixerStream)
        requires
            old(self).wf(),
            old(stream).wf(),
        ensures
            *final(self) == *old(self),
            final(stream).wf(),
            final(stream).tone1_volume_spec() == volume_spec(
                0,
                old(self).so_mask,
                old(self).so1_volume,
                old(self).so2_volume,
            ),
            final(stream).tone2_volume_spec() == volume_spec(
                1,
                old(self).so_mask,
                old(self).so1_volume,
                old(self).so2_volume,
            ),
            final(stream).wave_volume_spec() == volume_spec(
                2,
                old(self).so_mask,
                old(self).so1_volume,
                old(self).so2_volume,
            ),
            final(stream).noise_volume_spec() == volume_spec(
                3,
                old(self).so_mask,
                old(self).so1_volume,
                old(self).so2_volume,
            ),
            final(stream).tone1_on_spec() == old(stream).tone1_on_spec(),
            final(stream).tone2_on_spec() == old(stream).tone2_on_spec(),
            final(stream).wave_on_spec() == old(stream).wave_on_spec(),
            final(stream).noise_on_spec() == old(stream).noise_on_spec(),
    {
        stream.tone1.volume = self.get_volume(0);
        stream.tone2.volume = self.get_volume(1);
        stream.wave.volume = self.get_volume(2);
        stream.noise.volume = self.get_volume(3);
    }

    fn get_volume(&self, id: u8) -> (r: u8)
        requires
            self.wf(),
            id < 4,
        ensures
            r == volume_spec(id, self.so_mask, self.so1_volume, self.so2_volume),
            r <= 14,
    {
        let mask: u8 = 1u8 << id;
        let v1 = if self.so_mask & mask != 0 {
            self.so1_volume
        } else {
            0
        };
        let v2 = if self.so_mask & (mask << 4) != 0 {
            self.so2_volume
        } else {
            0
        };
        v1 + v2
    }
}

/// One channel slot of the mixer: the running stream and its volume.
pub struct Unit<T> {
    stream: Option<T>,
    volume: u8,
}

impl<T> Unit<T> {
    fn new() -> (r: Unit<T>)
        ensures
            r.volume == 0,
            r.stream is None,
    {
        Unit { stream: None, volume: 0 }
    }
}

/// A wave-RAM write followed by a read of the same address returns the
/// written byte: writing leaves the buffer with `v` at the offset, and a
/// read returns exactly that slot.
pub proof fn lemma_wave_ram_round_trip(w: Wave, addr: u16, v: u8)
    requires
        0xff30 <= addr <= 0xff3f,
    ensures
        w.wavebuf_spec().update(addr - 0xff30, v)[addr - 0xff30] == v,
{
    w.lemma_wavebuf_len();
}

/// The same round trip through the whole APU: after a wave-RAM write, a
/// read of the same address returns the written byte.
pub proof fn lemma_apu_wave_ram_round_trip(s: Sound, addr: u16, v: u8)
    requires
        0xff30 <= addr <= 0xff3f,
    ensures
        s.wavebuf_spec().update(addr - 0xff30, v)[addr - 0xff30] == v,
{
    s.lemma_wavebuf_len();
}

/// The product of an amplitude of at most 15 and a volume of at most 14
/// stays within one channel's share of the mixer range.
proof fn lemma_amp_volume_bound(t: u16, v: u16)
    requires
        t <= 15,
        v <= 14,
    ensures
        t * v <= 210,
{
    assert(t * v <= 210) by (nonlinear_arith)
        requires
            t <= 15,
            v <= 14,
    ;
}

/// The four channels as the host sees them: a random-access sample
/// generator.
pub struct MixerStream {
    tone1: Unit<ToneStream>,
    tone2: Unit<ToneStream>,
    wave: Unit<WaveStream>,
    noise: Unit<NoiseStream>,
}

/// The loudest sample the mixer can produce: volume at most 14 per
/// channel, amplitude at most 15, four channels.
pub const MIXER_MAX_VOLUME: u16 = 840;

impl MixerStream {
    /// Whether each channel currently holds a running stream.
    pub closed spec fn tone1_on_spec(&self) -> bool {
        self.tone1.stream is Some
    }

    pub closed spec fn tone2_on_spec(&self) -> bool {
        self.tone2.stream is Some
    }

    pub closed spec fn wave_on_spec(&self) -> bool {
        self.wave.stream is Some
    }

    pub closed spec fn noise_on_spec(&self) -> bool {
        self.noise.stream is Some
    }

    /// No channel is running: the mixer is silent.
    pub open spec fn all_off(&self) -> bool {
        !self.tone1_on_spec() && !self.tone2_on_spec() && !self.wave_on_spec()
            && !self.noise_on_spec()
    }

    /// The per-channel volumes the mixing formula uses.
    pub closed spec fn tone1_volume_spec(&self) -> u8 {
        self.tone1.volume
    }

    pub closed spec fn tone2_volume_spec(&self) -> u8 {
        self.tone2.volume
    }

    pub closed spec fn wave_volume_spec(&self) -> u8 {
        self.wave.volume
    }

    pub closed spec fn noise_volume_spec(&self) -> u8 {
        self.noise.volume
    }

    /// Type validity: every channel volume is at most 14 and every
    /// running stream is internally valid.
    pub closed spec fn wf(&self) -> bool {
        &&& self.tone1.volume <= 14
        &&& self.tone2.volume <= 14
        &&& self.wave.volume <= 14
        &&& self.noise.volume <= 14
        &&& (self.tone1.stream matches Some(s) ==> s.wf())
        &&& (self.tone2.stream matches Some(s) ==> s.wf())
        &&& (self.wave.stream matches Some(s) ==> s.wf())
        &&& (self.noise.stream matches Some(s) ==> s.wf())
    }

    pub fn new() -> (r: MixerStream)
        ensures
            r.wf(),
            r.all_off(),
    {
        MixerStream {
            tone1: Unit::new(),
            tone2: Unit::new(),
            wave: Unit::new(),
            noise: Unit::new(),
        }
    }

    /// Silence every channel.
    pub fn clear(&mut self)
        requires
            old(self).wf(),
        ensures
            final(self).wf(),
            final(self).all_off(),
    {
        self.tone1.stream = None;
        self.tone2.stream = None;
        self.wave.stream = None;
        self.noise.stream = None;
    }

    /// Whether a channel is currently running, as NR52 reports it:
    /// the index selects square 1, square 2, wave or noise.
    pub fn channel_on(&self, id: u8) -> (r: bool)
        requires
            id < 4,
        ensures
            id == 0 ==> r == self.tone1_on_spec(),
            id == 1 ==> r == self.tone2_on_spec(),
            id == 2 ==> r == self.wave_on_spec(),
            id == 3 ==> r == self.noise_on_spec(),
    {
        if id == 0 {
            self.tone1.stream.is_some()
        } else if id == 1 {
            self.tone2.stream.is_some()
        } else if id == 2 {
            self.wave.stream.is_some()
        } else {
            self.noise.stream.is_some()
        }
    }

    /// One mixed sample: the sum over the four channels of amplitude
    /// times volume, noise attenuated by half; a silent channel
    /// contributes an amplitude of zero.  The result never exceeds
    /// `MIXER_MAX_VOLUME`, and a mixer with no running channel returns 0.
    pub fn sample(&mut self, rate: u32) -> (r: u16)
        requires
            old(self).wf(),
        ensures
            final(self).wf(),
            r <= MIXER_MAX_VOLUME,
            old(self).all_off() ==> r == 0,
            exists|t1: u16, t2: u16, t3: u16, t4: u16|
                #![trigger t1 * old(self).tone1_volume_spec(), t2 * old(self).tone2_volume_spec(),
                    t3 * old(self).wave_volume_spec(), t4 * old(self).noise_volume_spec()]
                t1 <= 15 && t2 <= 15 && t3 <= 15 && t4 <= 15 && (!old(self).tone1_on_spec() ==> t1
                    == 0) && (!old(self).tone2_on_spec() ==> t2 == 0) && (!old(
                    self,
                ).wave_on_spec() ==> t3 == 0) && (!old(self).noise_on_spec() ==> t4 == 0) && r == t1
                    * old(self).tone1_volume_spec() + t2 * old(self).tone2_volume_spec() + t3 * old(
                    self,
                ).wave_volume_spec() + (t4 * old(self).noise_volume_spec()) / 2,
    {
        let ghost (mut g1, mut g2, mut g3, mut g4) = (0u16, 0u16, 0u16, 0u16);
        let mut vol: u16 = 0;
        let v = self.tone1.volume as u16;
        if let Some(s) = &mut self.tone1.stream {
            let t = s.sample(rate);
            proof {
                lemma_amp_volume_bound(t, v);
                g1 = t;
            }
            vol = vol + t * v;
        }
        let v = self.tone2.volume as u16;
        if let Some(s) = &mut self.tone2.stream {
            let t = s.sample(rate);
            proof {
                lemma_amp_volume_bound(t, v);
                g2 = t;
            }
            vol = vol + t * v;
        }
        let v = self.wave.volume as u16;
        if let Some(s) = &mut self.wave.stream {
            let t = s.sample(rate);
            proof {
                lemma_amp_volume_bound(t, v);
                g3 = t;
            }
            vol = vol + t * v;
        }
        let v = self.noise.volume as u16;
        if let Some(s) = &mut self.noise.stream {
            let t = s.sample(rate);
            proof {
                lemma_amp_volume_bound(t, v);
                g4 = t;
            }
            vol = vol + t * v / 2;
        }
        proof {
            assert(vol == g1 * old(self).tone1_volume_spec() + g2 * old(self).tone2_volume_spec()
                + g3 * old(self).wave_volume_spec() + (g4 * old(self).noise_volume_spec()) / 2);
        }
        vol
    }
}

impl Stream for MixerStream {
    open spec fn spec_max(&self) -> u16 {
        MIXER_MAX_VOLUME
    }

    open spec fn inv(&self) -> bool {
        self.wf()
    }

    /// The theoretical maximum per side: 14 (volume) x 15 (amplitude)
    /// x 4 (channels).
    fn max(&self) -> (r: u16) {
        MIXER_MAX_VOLUME
    }

    fn next(&mut self, rate: u32) -> (r: u16) {
        self.sample(rate)
    }

    fn on(&self) -> bool {
        self.tone1.stream.is_some() || self.tone2.stream.is_some() || self.wave.stream.is_some()
            || self.noise.stream.is_some()
    }
}

/// The whole APU: the four channel configurations and the mixer.
pub struct Sound {
    tone1: Tone,
    tone2: Tone,
    wave: Wave,
    noise: Noise,
    mixer: Mixer,
}

impl Sound {
    pub closed spec fn wf(&self) -> bool {
        &&& self.tone1.wf()
        &&& self.tone2.wf()
        &&& self.wave.wf()
        &&& self.noise.wf()
        &&& self.mixer.wf()
    }

    /// The wave RAM contents.
    pub closed spec fn wavebuf_spec(&self) -> Seq<u8> {
        self.wave.wavebuf_spec()
    }

    /// The wave RAM holds its 16 bytes.
    pub proof fn lemma_wavebuf_len(&self)
        ensures
            self.wavebuf_spec().len() == 16,
    {
        self.wave.lemma_wavebuf_len();
    }

    /// The NR51 panning mask.
    pub closed spec fn so_mask_reg_spec(&self) -> u8 {
        self.mixer.so_mask_spec()
    }

    /// The NR52 master-enable latch.
    pub closed spec fn enable_reg_spec(&self) -> bool {
        self.mixer.enable_spec()
    }

    pub fn new() -> (r: Sound)
        ensures
            r.wf(),
    {
        Sound {
            tone1: Tone::new(),
            tone2: Tone::new(),
            wave: Wave::new(),
            noise: Noise::new(),
            mixer: Mixer::new(),
        }
    }

    /// Read an APU register (0xff10-0xff3f).  NR51, NR52 and the wave RAM
    /// read back; the remaining registers read as 0xff in this model.
    pub fn on_read(&self, addr: u16, stream: &MixerStream) -> (r: u8)
        requires
            0xff10 <= addr <= 0xff3f,
        ensures
            0xff30 <= addr <= 0xff3f ==> r == self.wavebuf_spec()[addr - 0xff30],
            addr == 0xff25 ==> r == self.so_mask_reg_spec(),
            addr == 0xff26 ==> (r & 0x80 != 0) == self.enable_reg_spec(),
    {
        if 0xff30 <= addr && addr <= 0xff3f {
            self.wave.read_buf(addr)
        } else if addr == 0xff25 || addr == 0xff26 {
            self.mixer.on_read(addr, stream)
        } else {
            0xff
        }
    }

    /// Write an APU register (0xff10-0xff3f): reconfigure the channel and,
    /// on a trigger write, restart its stream.
    pub fn on_write(&mut self, addr: u16, value: u8, stream: &mut MixerStream)
        requires
            old(self).wf(),
            old(stream).wf(),
            0xff10 <= addr <= 0xff3f,
        ensures
            final(self).wf(),
            final(stream).wf(),
            0xff30 <= addr <= 0xff3f ==> final(self).wavebuf_spec() == old(self).wavebuf_spec().update(addr - 0xff30, value),
            !(0xff30 <= addr <= 0xff3f) ==> final(self).wavebuf_spec() == old(self).wavebuf_spec(),
            addr == 0xff26 ==> final(self).enable_reg_spec() == (value & 0x80 != 0),
            // dropping the master enable resets every channel
            addr == 0xff26 && value & 0x80 == 0 ==> final(stream).all_off(),
    {
        if 0xff10 <= addr && addr <= 0xff14 {
            if self.tone1.on_write(0xff10, addr, value) {
                self.mixer.restart_tone1(&self.tone1, stream);
            }
        } else if 0xff15 <= addr && addr <= 0xff19 {
            if self.tone2.on_write(0xff15, addr, value) {
                self.mixer.restart_tone2(&self.tone2, stream);
            }
        } else if 0xff1a <= addr && addr <= 0xff1e {
            if self.wave.on_write(addr, value) {
                self.mixer.restart_wave(&self.wave, stream);
            }
        } else if 0xff30 <= addr && addr <= 0xff3f {
            let _ = self.wave.on_write(addr, value);
        } else if 0xff20 <= addr && addr <= 0xff23 {
            if self.noise.on_write(addr, value) {
                self.mixer.restart_noise(&self.noise, stream);
            }
        } else if addr == 0xff24 || addr == 0xff25 || addr == 0xff26 {
            self.mixer.on_write(addr, value, stream);
        }
    }
}

} // verus!
