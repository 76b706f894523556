use vstd::prelude::*;

verus! {

/// The four square-wave duty patterns (12.5%, 25%, 50%, 75%).
pub open spec fn duty_bit(duty: u8, pos: u8) -> u8 {
    let pattern: u8 = if duty == 0 {
        0x01
    } else if duty == 1 {
        0x81
    } else if duty == 2 {
        0x87
    } else {
        0x7E
    };
    // Position 0 is the most significant bit of the pattern.
    (pattern >> ((7 - pos) as u8)) & 1
}

/// A square-wave channel (channel 1 has the sweep unit).
#[derive(Debug, Clone, Copy)]
pub struct SquareChannel {
    pub enabled: bool,
    pub duty: u8,
    pub length_counter: u8,
    pub length_enabled: bool,
    pub volume: u8,
    pub volume_initial: u8,
    pub envelope_add: bool,
    pub envelope_period: u8,
    pub envelope_timer: u8,
    pub frequency: u16,
    pub freq_timer: u16,
    pub duty_pos: u8,
    pub sweep_period: u8,
    pub sweep_negate: bool,
    pub sweep_shift: u8,
    pub sweep_timer: u8,
    pub sweep_enabled: bool,
    pub sweep_shadow: u16,
}

/// The timer period of a square channel at frequency register `f`.
pub open spec fn square_period(f: u16) -> u16 {
    ((2048 - f) * 4) as u16
}

/// One APU cycle of a square channel: when the timer runs out it reloads
/// and the duty position advances.
pub open spec fn square_tick_spec(c: SquareChannel) -> SquareChannel {
    let c1 = if c.freq_timer == 0 {
        SquareChannel { freq_timer: square_period(c.frequency), duty_pos: ((c.duty_pos + 1) as u8) & 7, ..c }
    } else {
        c
    };
    SquareChannel { freq_timer: if c1.freq_timer > 0 { (c1.freq_timer - 1) as u16 } else { 0 }, ..c1 }
}

/// A length-counter clock: counts down while enabled; the channel stops at zero.
pub open spec fn square_length_spec(c: SquareChannel) -> SquareChannel {
    if c.length_enabled && c.length_counter > 0 {
        let n = (c.length_counter - 1) as u8;
        SquareChannel { length_counter: n, enabled: if n == 0 { false } else { c.enabled }, ..c }
    } else {
        c
    }
}

/// The volume after an envelope step: one up (to 15) or one down (to 0).
pub open spec fn envelope_volume(volume: u8, add: bool) -> u8 {
    if add && volume < 15 {
        (volume + 1) as u8
    } else if !add && volume > 0 {
        (volume - 1) as u8
    } else {
        volume
    }
}

/// An envelope clock for a square channel.
pub open spec fn square_envelope_spec(c: SquareChannel) -> SquareChannel {
    if c.envelope_period == 0 {
        c
    } else {
        let t = if c.envelope_timer > 0 { (c.envelope_timer - 1) as u8 } else { 0 };
        if t == 0 {
            SquareChannel {
                envelope_timer: c.envelope_period,
                volume: envelope_volume(c.volume, c.envelope_add),
                ..c
            }
        } else {
            SquareChannel { envelope_timer: t, ..c }
        }
    }
}

/// The frequency the sweep unit computes from its shadow register.
pub open spec fn sweep_freq(c: SquareChannel) -> u16 {
    let shifted = c.sweep_shadow >> (c.sweep_shift as u16);
    if c.sweep_negate {
        c.sweep_shadow.wrapping_sub(shifted)
    } else {
        c.sweep_shadow.wrapping_add(shifted)
    }
}

/// A sweep clock: on each period the frequency moves by shadow >> shift;
/// a result above 2047 stops the channel.
pub open spec fn square_sweep_spec(c: SquareChannel) -> SquareChannel {
    if !c.sweep_enabled || c.sweep_period == 0 {
        c
    } else {
        let t = if c.sweep_timer > 0 { (c.sweep_timer - 1) as u8 } else { 0 };
        if t == 0 {
            let c1 = SquareChannel { sweep_timer: c.sweep_period, ..c };
            let f = sweep_freq(c1);
            if f <= 2047 && c.sweep_shift > 0 {
                let c2 = SquareChannel { frequency: f, sweep_shadow: f, ..c1 };
                if sweep_freq(c2) > 2047 {
                    SquareChannel { enabled: false, ..c2 }
                } else {
                    c2
                }
            } else if f > 2047 {
                SquareChannel { enabled: false, ..c1 }
            } else {
                c1
            }
        } else {
            SquareChannel { sweep_timer: t, ..c }
        }
    }
}

/// A trigger: the channel restarts with a full length if it was empty, its
/// initial volume, and its sweep armed; an immediate sweep overflow stops it.
pub open spec fn square_trigger_spec(c: SquareChannel) -> SquareChannel {
    let c1 = SquareChannel {
        enabled: true,
        length_counter: if c.length_counter == 0 { 64 } else { c.length_counter },
        freq_timer: square_period(c.frequency),
        volume: c.volume_initial,
        envelope_timer: c.envelope_period,
        sweep_shadow: c.frequency,
        sweep_timer: if c.sweep_period > 0 { c.sweep_period } else { 8 },
        sweep_enabled: c.sweep_period > 0 || c.sweep_shift > 0,
        ..c
    };
    if c.sweep_shift > 0 && sweep_freq(c1) > 2047 {
        SquareChannel { enabled: false, ..c1 }
    } else {
        c1
    }
}

/// A square channel after power-on: silent, everything zero.
pub open spec fn square_reset() -> SquareChannel {
    SquareChannel {
        enabled: false,
        duty: 0,
        length_counter: 0,
        length_enabled: false,
        volume: 0,
        volume_initial: 0,
        envelope_add: false,
        envelope_period: 0,
        envelope_timer: 0,
        frequency: 0,
        freq_timer: 0,
        duty_pos: 0,
        sweep_period: 0,
        sweep_negate: false,
        sweep_shift: 0,
        sweep_timer: 0,
        sweep_enabled: false,
        sweep_shadow: 0,
    }
}

impl SquareChannel {
    pub fn new() -> (c: Self)
        ensures
            !c.enabled && c.duty == 0 && c.length_counter == 0 && !c.length_enabled,
            c.volume == 0 && c.volume_initial == 0 && !c.envelope_add && c.envelope_period == 0,
            c.envelope_timer == 0 && c.frequency == 0 && c.freq_timer == 0 && c.duty_pos == 0,
            c.sweep_period == 0 && !c.sweep_negate && c.sweep_shift == 0 && c.sweep_timer == 0,
            !c.sweep_enabled && c.sweep_shadow == 0,
            c == square_reset(),
    {
        SquareChannel {
            enabled: false,
            duty: 0,
            length_counter: 0,
            length_enabled: false,
            volume: 0,
            volume_initial: 0,
            envelope_add: false,
            envelope_period: 0,
            envelope_timer: 0,
            frequency: 0,
            freq_timer: 0,
            duty_pos: 0,
            sweep_period: 0,
            sweep_negate: false,
            sweep_shift: 0,
            sweep_timer: 0,
            sweep_enabled: false,
            sweep_shadow: 0,
        }
    }

    /// One APU cycle.
    pub fn tick(&mut self)
        requires
            old(self).freq_timer == 0 ==> old(self).frequency <= 2048 && old(self).duty_pos < 255,
        ensures
            *final(self) == square_tick_spec(*old(self)),
    {
        if self.freq_timer == 0 {
            self.freq_timer = (2048 - self.frequency) * 4;
            self.duty_pos = (self.duty_pos + 1) & 7;
        }
        self.freq_timer = self.freq_timer.saturating_sub(1);
    }

    /// The level the channel outputs, 0 to 15: the duty bit times the volume
    /// while enabled.
    pub fn output_level(&self) -> (l: u8)
        requires
            self.duty < 4,
            self.duty_pos < 8,
            self.volume <= 15,
        ensures
            l == if !self.enabled || self.volume == 0 || duty_bit(self.duty, self.duty_pos) == 0 { 0 } else { self.volume },
    {
        if !self.enabled || self.volume == 0 {
            return 0;
        }
        let pattern: u8 = if self.duty == 0 {
            0x01
        } else if self.duty == 1 {
            0x81
        } else if self.duty == 2 {
            0x87
        } else {
            0x7E
        };
        let sh = 7 - self.duty_pos;
        let bit = (pattern >> sh) & 1;
        assert(bit <= 1) by (bit_vector)
            requires
                bit == (pattern >> sh) & 1,
        ;
        assert(bit == duty_bit(self.duty, self.duty_pos));
        if bit == 1 {
            self.volume
        } else {
            0
        }
    }

    /// A length-counter clock.
    pub fn clock_length(&mut self)
        ensures
            *final(self) == square_length_spec(*old(self)),
    {
        if self.length_enabled && self.length_counter > 0 {
            self.length_counter = self.length_counter - 1;
            if self.length_counter == 0 {
                self.enabled = false;
            }
        }
    }

    /// An envelope clock.
    pub fn clock_envelope(&mut self)
        ensures
            *final(self) == square_envelope_spec(*old(self)),
    {
        if self.envelope_period == 0 {
            return;
        }
        self.envelope_timer = self.envelope_timer.saturating_sub(1);
        if self.envelope_timer == 0 {
            self.envelope_timer = self.envelope_period;
            if self.envelope_add && self.volume < 15 {
                self.volume = self.volume + 1;
            } else if !self.envelope_add && self.volume > 0 {
                self.volume = self.volume - 1;
            }
        }
    }

    /// A sweep clock.
    pub fn clock_sweep(&mut self)
        requires
            old(self).sweep_shift < 16,
        ensures
            *final(self) == square_sweep_spec(*old(self)),
    {
        if !self.sweep_enabled || self.sweep_period == 0 {
            return;
        }
        self.sweep_timer = self.sweep_timer.saturating_sub(1);
        if self.sweep_timer == 0 {
            self.sweep_timer = if self.sweep_period > 0 { self.sweep_period } else { 8 };
            let new_freq = self.calc_sweep_freq();
            if new_freq <= 2047 && self.sweep_shift > 0 {
                self.frequency = new_freq;
                self.sweep_shadow = new_freq;
                if self.calc_sweep_freq() > 2047 {
                    self.enabled = false;
                }
            } else if new_freq > 2047 {
                self.enabled = false;
            }
        }
    }

    fn calc_sweep_freq(&self) -> (f: u16)
        requires
            self.sweep_shift < 16,
        ensures
            f == sweep_freq(*self),
    {
        let shifted = self.sweep_shadow >> self.sweep_shift;
        if self.sweep_negate {
            self.sweep_shadow.wrapping_sub(shifted)
        } else {
            self.sweep_shadow.wrapping_add(shifted)
        }
    }

    /// Restarts the channel.
    pub fn trigger(&mut self)
        requires
            old(self).frequency <= 2048,
            old(self).sweep_shift < 16,
        ensures
            *final(self) == square_trigger_spec(*old(self)),
    {
        self.enabled = true;
        if self.length_counter == 0 {
            self.length_counter = 64;
        }
        self.freq_timer = (2048 - self.frequency) * 4;
        self.volume = self.volume_initial;
        self.envelope_timer = self.envelope_period;
        self.sweep_shadow = self.frequency;
        self.sweep_timer = if self.sweep_period > 0 { self.sweep_period } else { 8 };
        self.sweep_enabled = self.sweep_period > 0 || self.sweep_shift > 0;
        if self.sweep_shift > 0 && self.calc_sweep_freq() > 2047 {
            self.enabled = false;
        }
    }
}

/// The wave channel, playing 32 four-bit samples from wave RAM.
#[derive(Debug, Clone, Copy)]
pub struct WaveChannel {
    pub enabled: bool,
    pub dac_enabled: bool,
    pub length_counter: u16,
    pub length_enabled: bool,
    pub volume_code: u8,
    pub frequency: u16,
    pub freq_timer: u16,
    pub wave_ram: [u8; 16],
    pub wave_pos: u8,
    pub sample_buffer: u8,
}

/// Sample `pos` (0-31) of wave RAM: high nibble first.
pub open spec fn wave_sample(ram: [u8; 16], pos: u8) -> u8 {
    let byte = ram[(pos / 2) as int];
    if pos & 1 == 0 {
        (byte >> 4u8) & 0xF
    } else {
        byte & 0xF
    }
}

/// One APU cycle of the wave channel: when the timer runs out it reloads
/// and the next sample is fetched.
pub open spec fn wave_tick_spec(c: WaveChannel) -> WaveChannel {
    let c1 = if c.freq_timer == 0 {
        let pos = ((c.wave_pos + 1) as u8) & 31;
        WaveChannel {
            freq_timer: ((2048 - c.frequency) * 2) as u16,
            wave_pos: pos,
            sample_buffer: wave_sample(c.wave_ram, pos),
            ..c
        }
    } else {
        c
    };
    WaveChannel { freq_timer: if c1.freq_timer > 0 { (c1.freq_timer - 1) as u16 } else { 0 }, ..c1 }
}

/// The gain of a volume code in quarters: 100 %, 50 %, 25 %, and 0 for
/// code 0, which mutes the channel.
pub open spec fn wave_gain(code: u8) -> int {
    if code == 1 {
        4
    } else if code == 2 {
        2
    } else if code == 3 {
        1
    } else {
        0
    }
}

/// A length-counter clock of the wave channel.
pub open spec fn wave_length_spec(c: WaveChannel) -> WaveChannel {
    if c.length_enabled && c.length_counter > 0 {
        let n = (c.length_counter - 1) as u16;
        WaveChannel { length_counter: n, enabled: if n == 0 { false } else { c.enabled }, ..c }
    } else {
        c
    }
}

/// A trigger of the wave channel: restarted from sample 0, with a full
/// length if it was empty.
pub open spec fn wave_trigger_spec(c: WaveChannel) -> WaveChannel {
    WaveChannel {
        enabled: true,
        length_counter: if c.length_counter == 0 { 256 } else { c.length_counter },
        freq_timer: ((2048 - c.frequency) * 2) as u16,
        wave_pos: 0,
        ..c
    }
}

impl WaveChannel {
    pub fn new() -> (c: Self)
        ensures
            !c.enabled && !c.dac_enabled && c.length_counter == 0 && !c.length_enabled,
            c.volume_code == 0 && c.frequency == 0 && c.freq_timer == 0,
            c.wave_ram@ == seq![0u8; 16] && c.wave_pos == 0 && c.sample_buffer == 0,
    {
        let c = WaveChannel {
            enabled: false,
            dac_enabled: false,
            length_counter: 0,
            length_enabled: false,
            volume_code: 0,
            frequency: 0,
            freq_timer: 0,
            wave_ram: [0;16],
            wave_pos: 0,
            sample_buffer: 0,
        };
        assert(c.wave_ram@ =~= seq![0u8; 16]);
        c
    }

    /// One APU cycle.
    pub fn tick(&mut self)
        requires
            old(self).freq_timer == 0 ==> old(self).frequency <= 2048 && old(self).wave_pos < 255,
        ensures
            *final(self) == wave_tick_spec(*old(self)),
    {
        if self.freq_timer == 0 {
            self.freq_timer = (2048 - self.frequency) * 2;
            let next = self.wave_pos + 1;
            let pos = next & 31;
            assert(pos < 32) by (bit_vector)
                requires
                    pos == next & 31,
            ;
            self.wave_pos = pos;
            let byte = self.wave_ram[(self.wave_pos / 2) as usize];
            self.sample_buffer = if self.wave_pos & 1 == 0 {
                (byte >> 4u8) & 0xF
            } else {
                byte & 0xF
            };
        }
        self.freq_timer = self.freq_timer.saturating_sub(1);
    }

    /// What the channel outputs, in sixtieths of full scale, while the
    /// channel and its DAC are on: the 4-bit sample centred on 7.5 (so 0
    /// and 15 are the two extremes) and scaled by the volume code.
    pub fn output_level(&self) -> (l: i16)
        ensures
            l == wave_level(*self),
    {
        if !self.enabled || !self.dac_enabled {
            return 0;
        }
        let gain: i16 = match self.volume_code {
            1 => 4,
            2 => 2,
            3 => 1,
            _ => 0,
        };
        (2 * (self.sample_buffer as i16) - 15) * gain
    }

    /// A length-counter clock.
    pub fn clock_length(&mut self)
        ensures
            *final(self) == wave_length_spec(*old(self)),
    {
        if self.length_enabled && self.length_counter > 0 {
            self.length_counter = self.length_counter - 1;
            if self.length_counter == 0 {
                self.enabled = false;
            }
        }
    }

    /// Restarts the channel from the first sample.
    pub fn trigger(&mut self)
        requires
            old(self).frequency <= 2048,
        ensures
            *final(self) == wave_trigger_spec(*old(self)),
    {
        self.enabled = true;
        if self.length_counter == 0 {
            self.length_counter = 256;
        }
        self.freq_timer = (2048 - self.frequency) * 2;
        self.wave_pos = 0;
    }
}

/// The noise channel: a linear-feedback shift register.
#[derive(Debug, Clone, Copy)]
pub struct NoiseChannel {
    pub enabled: bool,
    pub length_counter: u8,
    pub length_enabled: bool,
    pub volume: u8,
    pub volume_initial: u8,
    pub envelope_add: bool,
    pub envelope_period: u8,
    pub envelope_timer: u8,
    pub clock_shift: u8,
    pub width_mode: bool,
    pub divisor_code: u8,
    pub freq_timer: u16,
    pub lfsr: u16,
}

/// The shift register after one step: bit 0 XOR bit 1 enters at bit 14
/// (and at bit 6 too in 7-bit mode).
pub open spec fn lfsr_step(lfsr: u16, width_mode: bool) -> u16 {
    let x = (lfsr & 1) ^ ((lfsr >> 1u16) & 1);
    let l = (lfsr >> 1u16) | (x << 14u16);
    if width_mode {
        (l & !(1u16 << 6u16)) | (x << 6u16)
    } else {
        l
    }
}

/// The timer period for a divisor code and clock shift.
pub open spec fn noise_period(code: u8, shift: u8) -> u16 {
    let divisor: u16 = if code == 0 { 8 } else { ((code as u16) * 16) as u16 };
    divisor << (shift as u16)
}

/// One APU cycle of the noise channel.
pub open spec fn noise_tick_spec(c: NoiseChannel) -> NoiseChannel {
    let c1 = if c.freq_timer == 0 {
        NoiseChannel {
            freq_timer: noise_period(c.divisor_code, c.clock_shift),
            lfsr: lfsr_step(c.lfsr, c.width_mode),
            ..c
        }
    } else {
        c
    };
    NoiseChannel { freq_timer: if c1.freq_timer > 0 { (c1.freq_timer - 1) as u16 } else { 0 }, ..c1 }
}

/// The noise channel after power-on: silent, shift register full.
pub open spec fn noise_reset() -> NoiseChannel {
    NoiseChannel {
        enabled: false,
        length_counter: 0,
        length_enabled: false,
        volume: 0,
        volume_initial: 0,
        envelope_add: false,
        envelope_period: 0,
        envelope_timer: 0,
        clock_shift: 0,
        width_mode: false,
        divisor_code: 0,
        freq_timer: 0,
        lfsr: 0x7FFF,
    }
}

/// A length-counter clock of the noise channel.
pub open spec fn noise_length_spec(c: NoiseChannel) -> NoiseChannel {
    if c.length_enabled && c.length_counter > 0 {
        let n = (c.length_counter - 1) as u8;
        NoiseChannel { length_counter: n, enabled: if n == 0 { false } else { c.enabled }, ..c }
    } else {
        c
    }
}

/// An envelope clock of the noise channel.
pub open spec fn noise_envelope_spec(c: NoiseChannel) -> NoiseChannel {
    if c.envelope_period == 0 {
        c
    } else if c.envelope_timer <= 1 {
        NoiseChannel { envelope_timer: c.envelope_period, volume: envelope_volume(c.volume, c.envelope_add), ..c }
    } else {
        NoiseChannel { envelope_timer: (c.envelope_timer - 1) as u8, ..c }
    }
}

/// A trigger of the noise channel: full volume envelope restart and a fresh
/// shift register.
pub open spec fn noise_trigger_spec(c: NoiseChannel) -> NoiseChannel {
    NoiseChannel {
        enabled: true,
        length_counter: if c.length_counter == 0 { 64 } else { c.length_counter },
        volume: c.volume_initial,
        envelope_timer: c.envelope_period,
        lfsr: 0x7FFF,
        ..c
    }
}

impl NoiseChannel {
    pub fn new() -> (c: Self)
        ensures
            !c.enabled && c.length_counter == 0 && !c.length_enabled && c.volume == 0,
            c.volume_initial == 0 && !c.envelope_add && c.envelope_period == 0 && c.envelope_timer == 0,
            c.clock_shift == 0 && !c.width_mode && c.divisor_code == 0 && c.freq_timer == 0,
            c.lfsr == 0x7FFF,
            c == noise_reset(),
    {
        NoiseChannel {
            enabled: false,
            length_counter: 0,
            length_enabled: false,
            volume: 0,
            volume_initial: 0,
            envelope_add: false,
            envelope_period: 0,
            envelope_timer: 0,
            clock_shift: 0,
            width_mode: false,
            divisor_code: 0,
            freq_timer: 0,
            lfsr: 0x7FFF,
        }
    }

    /// One APU cycle.
    pub fn tick(&mut self)
        requires
            old(self).freq_timer == 0 ==> old(self).clock_shift < 16,
        ensures
            *final(self) == noise_tick_spec(*old(self)),
    {
        if self.freq_timer == 0 {
            let divisor: u16 = if self.divisor_code == 0 {
                8
            } else {
                (self.divisor_code as u16) * 16
            };
            self.freq_timer = divisor << self.clock_shift;
            let xor = (self.lfsr & 1) ^ ((self.lfsr >> 1u16) & 1);
            self.lfsr = (self.lfsr >> 1u16) | (xor << 14u16);
            if self.width_mode {
                self.lfsr = self.lfsr & !(1u16 << 6u16);
                self.lfsr = self.lfsr | (xor << 6u16);
            }
        }
        self.freq_timer = self.freq_timer.saturating_sub(1);
    }

    /// The level the channel outputs, 0 to 15: the volume while enabled and
    /// bit 0 of the shift register is clear.
    pub fn output_level(&self) -> (l: u8)
        ensures
            l == if !self.enabled || self.volume == 0 || self.lfsr & 1 != 0 { 0 } else { self.volume },
    {
        if !self.enabled || self.volume == 0 || self.lfsr & 1 != 0 {
            0
        } else {
            self.volume
        }
    }

    /// A length-counter clock.
    pub fn clock_length(&mut self)
        ensures
            *final(self) == noise_length_spec(*old(self)),
    {
        if self.length_enabled && self.length_counter > 0 {
            self.length_counter = self.length_counter - 1;
            if self.length_counter == 0 {
                self.enabled = false;
            }
        }
    }

    /// An envelope clock.
    pub fn clock_envelope(&mut self)
        ensures
            *final(self) == noise_envelope_spec(*old(self)),
    {
        if self.envelope_period == 0 {
            return;
        }
        self.envelope_timer = self.envelope_timer.saturating_sub(1);
        if self.envelope_timer == 0 {
            self.envelope_timer = self.envelope_period;
            if self.envelope_add && self.volume < 15 {
                self.volume = self.volume + 1;
            } else if !self.envelope_add && self.volume > 0 {
                self.volume = self.volume - 1;
            }
        }
    }

    /// Restarts the channel with a full shift register.
    pub fn trigger(&mut self)
        ensures
            *final(self) == noise_trigger_spec(*old(self)),
    {
        self.enabled = true;
        if self.length_counter == 0 {
            self.length_counter = 64;
        }
        self.volume = self.volume_initial;
        self.envelope_timer = self.envelope_period;
        self.lfsr = 0x7FFF;
    }
}

/// The envelope keeps the volume within 0-15 and moves it by at most one.
pub proof fn lemma_envelope_in_range(volume: u8, add: bool)
    requires
        volume <= 15,
    ensures
        envelope_volume(volume, add) <= 15,
        envelope_volume(volume, add) == volume || envelope_volume(volume, add) == volume + 1
            || envelope_volume(volume, add) == volume - 1,
{
}

/// Writing the low or high frequency bits keeps an 11-bit frequency.
pub(crate) proof fn lemma_frequency_writes(f: u16, val: u8)
    by (bit_vector)
    ensures
        f <= 2047 ==> (f & 0xFF) | (((val & 7) as u16) << 8u16) <= 2047,
        f <= 2047 ==> (f & 0x700) | (val as u16) <= 2047,
{
}

/// The noise register stays within 15 bits.
pub proof fn lemma_lfsr_15_bits(lfsr: u16, width_mode: bool)
    requires
        lfsr < 0x8000,
    ensures
        lfsr_step(lfsr, width_mode) < 0x8000,
{
    assert(lfsr < 0x8000 ==> ((lfsr >> 1u16) | ((((lfsr & 1) ^ ((lfsr >> 1u16) & 1))) << 14u16)) < 0x8000 && ((((
    lfsr >> 1u16) | ((((lfsr & 1) ^ ((lfsr >> 1u16) & 1))) << 14u16)) & !(1u16 << 6u16)) | ((((lfsr & 1) ^ ((lfsr
        >> 1u16) & 1))) << 6u16)) < 0x8000) by (bit_vector);
}

/// A trigger leaves the channel on with a nonzero length, except when the
/// sweep overflows at once; a length clock that reaches zero turns it off.
pub proof fn lemma_square_length_lifecycle(c: SquareChannel)
    ensures
        square_trigger_spec(c).length_counter > 0,
        !(c.sweep_shift > 0 && sweep_freq(square_trigger_spec(c)) > 2047) ==> square_trigger_spec(c).enabled,
        c.length_enabled && c.length_counter == 1 ==> !square_length_spec(c).enabled,
{
}


// ---------------------------------------------------------------------------
// The sound unit
// ---------------------------------------------------------------------------

/// The output rate of the mixer, in samples per second.
pub const SAMPLE_RATE: u32 = 44100;

/// The clock of the sound unit, in cycles per second.
pub const APU_CLOCK: u32 = 4_194_304;

/// The Game Boy (Color) sound unit: four channels, the 512 Hz frame
/// sequencer and the stereo mixer.
///
/// Mixed samples are integers, left then right: the sum of the levels (0 to
/// 15) of the channels routed to that side, times that side's master volume
/// (0 to 7). A sample `n` stands for `n / 420` of full scale.
pub struct GbcApu {
    pub enabled: bool,
    pub ch1: SquareChannel,
    pub ch2: SquareChannel,
    pub ch3: WaveChannel,
    pub ch4: NoiseChannel,
    /// Master volume (NR50).
    pub nr50: u8,
    /// Panning (NR51).
    pub nr51: u8,
    pub frame_sequencer: u32,
    pub frame_step: u8,
    pub sample_counter: u32,
    pub audio_buffer: Vec<i32>,
    pub sample_rate: u32,
}

/// The sound unit with its sample buffer as a sequence.
#[verifier::ext_equal]
pub struct GbcApuView {
    pub enabled: bool,
    pub ch1: SquareChannel,
    pub ch2: SquareChannel,
    pub ch3: WaveChannel,
    pub ch4: NoiseChannel,
    pub nr50: u8,
    pub nr51: u8,
    pub frame_sequencer: u32,
    pub frame_step: u8,
    pub sample_counter: u32,
    pub audio_buffer: Seq<i32>,
    pub sample_rate: u32,
}

impl View for GbcApu {
    type V = GbcApuView;

    open spec fn view(&self) -> GbcApuView {
        GbcApuView {
            enabled: self.enabled,
            ch1: self.ch1,
            ch2: self.ch2,
            ch3: self.ch3,
            ch4: self.ch4,
            nr50: self.nr50,
            nr51: self.nr51,
            frame_sequencer: self.frame_sequencer,
            frame_step: self.frame_step,
            sample_counter: self.sample_counter,
            audio_buffer: self.audio_buffer@,
            sample_rate: self.sample_rate,
        }
    }
}

/// The ranges a square channel's registers keep.
pub open spec fn square_wf(c: SquareChannel) -> bool {
    &&& c.frequency <= 2047
    &&& c.duty < 4
    &&& c.duty_pos < 8
    &&& c.volume <= 15
    &&& c.volume_initial <= 15
    &&& c.sweep_shift < 8
}

/// The ranges the sound unit's registers and counters keep.
pub open spec fn gbc_apu_wf(a: GbcApuView) -> bool {
    &&& square_wf(a.ch1)
    &&& square_wf(a.ch2)
    &&& a.ch3.frequency <= 2047
    &&& a.ch3.wave_pos < 32
    &&& a.ch4.clock_shift < 16
    &&& a.ch4.volume <= 15
    &&& a.ch4.volume_initial <= 15
    &&& a.frame_step < 8
    &&& a.frame_sequencer < 8192
    &&& a.sample_counter < APU_CLOCK
    &&& a.sample_rate <= APU_CLOCK
}

/// The level (0-15) a square channel outputs.
pub open spec fn square_level(c: SquareChannel) -> u8 {
    if !c.enabled || c.volume == 0 || duty_bit(c.duty, c.duty_pos) == 0 {
        0
    } else {
        c.volume
    }
}

/// What the wave channel outputs, in sixtieths of full scale.
pub open spec fn wave_level(c: WaveChannel) -> int {
    if !c.enabled || !c.dac_enabled {
        0
    } else {
        (2 * c.sample_buffer - 15) * wave_gain(c.volume_code)
    }
}

/// The level the noise channel outputs.
pub open spec fn noise_level(c: NoiseChannel) -> u8 {
    if !c.enabled || c.volume == 0 || c.lfsr & 1 != 0 {
        0
    } else {
        c.volume
    }
}

/// The sum of the levels of the channels that NR51 routes to one side:
/// `m1`..`m4` are the NR51 bits of channels 1 to 4 for that side.
pub open spec fn routed_sum(a: GbcApuView, m1: u8, m2: u8, m3: u8, m4: u8) -> int {
    (if a.nr51 & m1 != 0 { 4 * square_level(a.ch1) } else { 0 }) + (if a.nr51 & m2 != 0 {
        4 * square_level(a.ch2)
    } else {
        0
    }) + (if a.nr51 & m3 != 0 { wave_level(a.ch3) } else { 0 }) + (if a.nr51 & m4 != 0 {
        4 * noise_level(a.ch4)
    } else {
        0
    })
}

/// Full scale of a mixed sample: sixtieths of each channel's full scale,
/// sevenths of the master volume, and a quarter for the four channels.
pub const GBC_MIX_SCALE: i32 = 1680;

/// The left sample, over `GBC_MIX_SCALE`: routed outputs times the left
/// master volume.
pub open spec fn mix_left(a: GbcApuView) -> i32 {
    (routed_sum(a, 0x10, 0x20, 0x40, 0x80) * (((a.nr50 >> 4u8) & 7) as int)) as i32
}

/// The right sample: routed outputs times the right master volume.
pub open spec fn mix_right(a: GbcApuView) -> i32 {
    (routed_sum(a, 0x01, 0x02, 0x04, 0x08) * ((a.nr50 & 7) as int)) as i32
}

/// One step of the frame sequencer: length clocks on even steps, the sweep
/// on steps 2 and 6, envelopes on step 7.
pub open spec fn frame_step_spec(a: GbcApuView) -> GbcApuView {
    let s = a.frame_step;
    let a1 = if s == 0 || s == 2 || s == 4 || s == 6 {
        let b = GbcApuView {
            ch1: square_length_spec(a.ch1),
            ch2: square_length_spec(a.ch2),
            ch3: wave_length_spec(a.ch3),
            ch4: noise_length_spec(a.ch4),
            ..a
        };
        if s == 2 || s == 6 {
            GbcApuView { ch1: square_sweep_spec(b.ch1), ..b }
        } else {
            b
        }
    } else if s == 7 {
        GbcApuView {
            ch1: square_envelope_spec(a.ch1),
            ch2: square_envelope_spec(a.ch2),
            ch4: noise_envelope_spec(a.ch4),
            ..a
        }
    } else {
        a
    };
    GbcApuView { frame_step: ((s + 1) as u8) & 7, ..a1 }
}

/// One clock of the sound unit: the channels tick, the frame sequencer
/// steps every 8192 clocks, and a stereo sample is mixed each time the
/// sample counter passes the clock rate.
pub open spec fn apu_cycle_spec(a: GbcApuView) -> GbcApuView {
    let a1 = GbcApuView {
        ch1: square_tick_spec(a.ch1),
        ch2: square_tick_spec(a.ch2),
        ch3: wave_tick_spec(a.ch3),
        ch4: noise_tick_spec(a.ch4),
        ..a
    };
    let a2 = if a1.frame_sequencer + 1 >= 8192 {
        frame_step_spec(GbcApuView { frame_sequencer: 0, ..a1 })
    } else {
        GbcApuView { frame_sequencer: (a1.frame_sequencer + 1) as u32, ..a1 }
    };
    let sc = a2.sample_counter + a2.sample_rate;
    if sc >= APU_CLOCK {
        GbcApuView {
            sample_counter: (sc - APU_CLOCK) as u32,
            audio_buffer: a2.audio_buffer.push(mix_left(a2)).push(mix_right(a2)),
            ..a2
        }
    } else {
        GbcApuView { sample_counter: sc as u32, ..a2 }
    }
}

/// `n` clocks of the sound unit.
pub open spec fn apu_run(a: GbcApuView, n: nat) -> GbcApuView
    decreases n,
{
    if n == 0 {
        a
    } else {
        apu_cycle_spec(apu_run(a, (n - 1) as nat))
    }
}

/// What `tick(cycles)` does: nothing while the unit is off.
pub open spec fn gbc_apu_tick_spec(a: GbcApuView, cycles: u32) -> GbcApuView {
    if !a.enabled {
        a
    } else {
        apu_run(a, cycles as nat)
    }
}

/// The flag bits of a register read: `b` gives `m`.
pub open spec fn bit_if(b: bool, m: u8) -> u8 {
    if b {
        m
    } else {
        0
    }
}

/// What a read of register `reg` (0 to 4: sweep, duty, envelope,
/// frequency low, control) of a square channel returns.
pub open spec fn square_read_spec(c: SquareChannel, reg: u16) -> u8 {
    if reg == 0 {
        (c.sweep_period << 4u8) | bit_if(c.sweep_negate, 0x08) | c.sweep_shift
    } else if reg == 1 {
        (c.duty << 6u8) | 0x3F
    } else if reg == 2 {
        (c.volume_initial << 4u8) | bit_if(c.envelope_add, 0x08) | c.envelope_period
    } else if reg == 4 {
        bit_if(c.length_enabled, 0x40) | 0xBF
    } else {
        0xFF
    }
}

/// What a read of register `reg` (0 to 4: DAC, length, volume, frequency
/// low, control) of the wave channel returns.
pub open spec fn wave_read_spec(c: WaveChannel, reg: u16) -> u8 {
    if reg == 0 {
        bit_if(c.dac_enabled, 0x80) | 0x7F
    } else if reg == 2 {
        (c.volume_code << 5u8) | 0x9F
    } else if reg == 4 {
        bit_if(c.length_enabled, 0x40) | 0xBF
    } else {
        0xFF
    }
}

/// What a read of register `reg` (1 to 4: length, envelope, polynomial,
/// control) of the noise channel returns.
pub open spec fn noise_read_spec(c: NoiseChannel, reg: u16) -> u8 {
    if reg == 2 {
        (c.volume_initial << 4u8) | bit_if(c.envelope_add, 0x08) | c.envelope_period
    } else if reg == 3 {
        (c.clock_shift << 4u8) | bit_if(c.width_mode, 0x08) | c.divisor_code
    } else if reg == 4 {
        bit_if(c.length_enabled, 0x40) | 0xBF
    } else {
        0xFF
    }
}

/// What NR52 reads: the power bit and the running flag of each channel.
pub open spec fn nr52_spec(a: GbcApuView) -> u8 {
    bit_if(a.enabled, 0x80) | bit_if(a.ch1.enabled, 0x01) | bit_if(a.ch2.enabled, 0x02) | bit_if(
        a.ch3.enabled,
        0x04,
    ) | bit_if(a.ch4.enabled, 0x08) | 0x70
}

/// What a read of sound register `addr` returns (write-only bits read as 1).
pub open spec fn gbc_apu_read_spec(a: GbcApuView, addr: u16) -> u8 {
    if 0xFF10 <= addr <= 0xFF14 {
        square_read_spec(a.ch1, (addr - 0xFF10) as u16)
    } else if 0xFF16 <= addr <= 0xFF19 {
        square_read_spec(a.ch2, (addr - 0xFF15) as u16)
    } else if 0xFF1A <= addr <= 0xFF1E {
        wave_read_spec(a.ch3, (addr - 0xFF1A) as u16)
    } else if 0xFF20 <= addr <= 0xFF23 {
        noise_read_spec(a.ch4, (addr - 0xFF1F) as u16)
    } else if addr == 0xFF24 {
        a.nr50
    } else if addr == 0xFF25 {
        a.nr51
    } else if addr == 0xFF26 {
        nr52_spec(a)
    } else if 0xFF30 <= addr <= 0xFF3F {
        a.ch3.wave_ram[addr - 0xFF30]
    } else {
        0xFF
    }
}

/// A square channel after a write of `val` to its register `reg`; a
/// control write with bit 7 set triggers it.
pub open spec fn square_write_spec(c: SquareChannel, reg: u16, val: u8) -> SquareChannel {
    if reg == 0 {
        SquareChannel { sweep_period: (val >> 4u8) & 7, sweep_negate: val & 0x08 != 0, sweep_shift: val & 7, ..c }
    } else if reg == 1 {
        SquareChannel { duty: (val >> 6u8) & 3, length_counter: (64 - (val & 0x3F)) as u8, ..c }
    } else if reg == 2 {
        SquareChannel { volume_initial: val >> 4u8, envelope_add: val & 0x08 != 0, envelope_period: val & 7, ..c }
    } else if reg == 3 {
        SquareChannel { frequency: (c.frequency & 0x700) | (val as u16), ..c }
    } else if reg == 4 {
        let c1 = SquareChannel {
            frequency: (c.frequency & 0xFF) | (((val & 7) as u16) << 8u16),
            length_enabled: val & 0x40 != 0,
            ..c
        };
        if val & 0x80 != 0 {
            square_trigger_spec(c1)
        } else {
            c1
        }
    } else {
        c
    }
}

/// The wave channel after a write of `val` to its register `reg`; turning
/// the DAC off stops it.
pub open spec fn wave_write_spec(c: WaveChannel, reg: u16, val: u8) -> WaveChannel {
    if reg == 0 {
        let dac = val & 0x80 != 0;
        WaveChannel { dac_enabled: dac, enabled: if dac { c.enabled } else { false }, ..c }
    } else if reg == 1 {
        WaveChannel { length_counter: (256 - val) as u16, ..c }
    } else if reg == 2 {
        WaveChannel { volume_code: (val >> 5u8) & 3, ..c }
    } else if reg == 3 {
        WaveChannel { frequency: (c.frequency & 0x700) | (val as u16), ..c }
    } else if reg == 4 {
        let w = WaveChannel {
            frequency: (c.frequency & 0xFF) | (((val & 7) as u16) << 8u16),
            length_enabled: val & 0x40 != 0,
            ..c
        };
        if val & 0x80 != 0 {
            wave_trigger_spec(w)
        } else {
            w
        }
    } else {
        c
    }
}

/// The noise channel after a write of `val` to its register `reg`.
pub open spec fn noise_write_spec(c: NoiseChannel, reg: u16, val: u8) -> NoiseChannel {
    if reg == 1 {
        NoiseChannel { length_counter: (64 - (val & 0x3F)) as u8, ..c }
    } else if reg == 2 {
        NoiseChannel { volume_initial: val >> 4u8, envelope_add: val & 0x08 != 0, envelope_period: val & 7, ..c }
    } else if reg == 3 {
        NoiseChannel { clock_shift: val >> 4u8, width_mode: val & 0x08 != 0, divisor_code: val & 7, ..c }
    } else if reg == 4 {
        let n = NoiseChannel { length_enabled: val & 0x40 != 0, ..c };
        if val & 0x80 != 0 {
            noise_trigger_spec(n)
        } else {
            n
        }
    } else {
        c
    }
}

/// What a write of `val` to sound register `addr` does. While the unit is
/// off only NR52 and wave RAM take writes; turning it off silences and
/// clears the channels and the master registers.
pub open spec fn gbc_apu_write_spec(a: GbcApuView, addr: u16, val: u8) -> GbcApuView {
    if !a.enabled && addr != 0xFF26 && !(0xFF30 <= addr <= 0xFF3F) {
        a
    } else if 0xFF10 <= addr <= 0xFF14 {
        GbcApuView { ch1: square_write_spec(a.ch1, (addr - 0xFF10) as u16, val), ..a }
    } else if 0xFF16 <= addr <= 0xFF19 {
        GbcApuView { ch2: square_write_spec(a.ch2, (addr - 0xFF15) as u16, val), ..a }
    } else if 0xFF1A <= addr <= 0xFF1E {
        GbcApuView { ch3: wave_write_spec(a.ch3, (addr - 0xFF1A) as u16, val), ..a }
    } else if 0xFF20 <= addr <= 0xFF23 {
        GbcApuView { ch4: noise_write_spec(a.ch4, (addr - 0xFF1F) as u16, val), ..a }
    } else if addr == 0xFF24 {
        GbcApuView { nr50: val, ..a }
    } else if addr == 0xFF25 {
        GbcApuView { nr51: val, ..a }
    } else if addr == 0xFF26 {
        let on = val & 0x80 != 0;
        if a.enabled && !on {
            GbcApuView {
                enabled: false,
                ch1: square_reset(),
                ch2: square_reset(),
                ch3: WaveChannel { enabled: false, ..a.ch3 },
                ch4: noise_reset(),
                nr50: 0,
                nr51: 0,
                ..a
            }
        } else {
            GbcApuView { enabled: on, ..a }
        }
    } else if 0xFF30 <= addr <= 0xFF3F {
        GbcApuView {
            ch3: WaveChannel { wave_ram: vstd::array::spec_array_update(a.ch3.wave_ram, (addr - 0xFF30) as int, val), ..a.ch3 },
            ..a
        }
    } else {
        a
    }
}

/// The wave channel at power-on: off, silent, wave RAM cleared.
pub open spec fn wave_is_reset(c: WaveChannel) -> bool {
    &&& !c.enabled && !c.dac_enabled && c.length_counter == 0 && !c.length_enabled
    &&& c.volume_code == 0 && c.frequency == 0 && c.freq_timer == 0
    &&& c.wave_ram@ == seq![0u8; 16] && c.wave_pos == 0 && c.sample_buffer == 0
}


/// The clocks of a square channel keep its ranges.
pub(crate) proof fn lemma_square_clocks_wf(c: SquareChannel)
    requires
        square_wf(c),
    ensures
        square_wf(square_tick_spec(c)),
        square_wf(square_length_spec(c)),
        square_wf(square_envelope_spec(c)),
        square_wf(square_sweep_spec(c)),
{
    let p = c.duty_pos;
    assert(((p + 1) as u8) & 7 < 8) by {
        crate::bits::lemma_and_le_u8(((p + 1) as u8), 7);
    }
}

/// A frame-sequencer step keeps the ranges of the sound unit.
pub(crate) proof fn lemma_frame_step_wf(a: GbcApuView)
    requires
        gbc_apu_wf(a),
    ensures
        gbc_apu_wf(frame_step_spec(a)),
{
    lemma_square_clocks_wf(a.ch1);
    lemma_square_clocks_wf(a.ch2);
    lemma_square_clocks_wf(square_length_spec(a.ch1));
    let s = a.frame_step;
    assert(((s + 1) as u8) & 7 < 8) by {
        crate::bits::lemma_and_le_u8(((s + 1) as u8), 7);
    }
}

/// The clocks of the sound unit keep its ranges.
proof fn lemma_apu_cycle_wf(a: GbcApuView)
    requires
        gbc_apu_wf(a),
    ensures
        gbc_apu_wf(apu_cycle_spec(a)),
{
    lemma_square_clocks_wf(a.ch1);
    lemma_square_clocks_wf(a.ch2);
    let p = a.ch3.wave_pos;
    assert(((p + 1) as u8) & 31 < 32) by {
        crate::bits::lemma_and_le_u8(((p + 1) as u8), 31);
    }
    let a1 = GbcApuView {
        ch1: square_tick_spec(a.ch1),
        ch2: square_tick_spec(a.ch2),
        ch3: wave_tick_spec(a.ch3),
        ch4: noise_tick_spec(a.ch4),
        ..a
    };
    assert(gbc_apu_wf(a1));
    if a1.frame_sequencer + 1 >= 8192 {
        lemma_frame_step_wf(GbcApuView { frame_sequencer: 0, ..a1 });
    }
}

impl GbcApu {
    /// The sound unit at power-on: enabled, channels silent, full master
    /// volume, no samples.
    pub fn new() -> (a: Self)
        ensures
            gbc_apu_wf(a@),
            a@ == (GbcApuView {
                enabled: true,
                ch1: square_reset(),
                ch2: square_reset(),
                ch3: a.ch3,
                ch4: noise_reset(),
                nr50: 0x77,
                nr51: 0xF3,
                frame_sequencer: 0,
                frame_step: 0,
                sample_counter: 0,
                audio_buffer: Seq::empty(),
                sample_rate: SAMPLE_RATE,
            }),
            wave_is_reset(a.ch3),
    {
        let a = GbcApu {
            enabled: true,
            ch1: SquareChannel::new(),
            ch2: SquareChannel::new(),
            ch3: WaveChannel::new(),
            ch4: NoiseChannel::new(),
            nr50: 0x77,
            nr51: 0xF3,
            frame_sequencer: 0,
            frame_step: 0,
            sample_counter: 0,
            audio_buffer: Vec::new(),
            sample_rate: SAMPLE_RATE,
        };
        assert(a@.audio_buffer =~= Seq::empty());
        a
    }

    /// Runs `cycles` clocks (none while the unit is off).
    pub fn tick(&mut self, cycles: u32)
        requires
            gbc_apu_wf(old(self)@),
        ensures
            final(self)@ == gbc_apu_tick_spec(old(self)@, cycles),
            gbc_apu_wf(final(self)@),
    {
        if !self.enabled {
            return;
        }
        let mut i: u32 = 0;
        while i < cycles
            invariant
                i <= cycles,
                old(self).enabled,
                gbc_apu_wf(self@),
                self@ == apu_run(old(self)@, i as nat),
            decreases cycles - i,
        {
            self.clock();
            i = i + 1;
        }
    }

    /// One clock of the sound unit.
    #[verifier::spinoff_prover]
    #[verifier::rlimit(40)]
    fn clock(&mut self)
        requires
            gbc_apu_wf(old(self)@),
        ensures
            final(self)@ == apu_cycle_spec(old(self)@),
            gbc_apu_wf(final(self)@),
    {
        proof {
            lemma_apu_cycle_wf(self@);
            lemma_square_clocks_wf(self.ch1);
            lemma_square_clocks_wf(self.ch2);
        }
        self.ch1.tick();
        self.ch2.tick();
        self.ch3.tick();
        self.ch4.tick();
        let ghost a1 = self@;
        self.frame_sequencer = self.frame_sequencer + 1;
        if self.frame_sequencer >= 8192 {
            self.frame_sequencer = 0;
            self.clock_frame_sequencer();
        }
        let ghost a2 = self@;
        assert(a2 == (if a1.frame_sequencer + 1 >= 8192 {
            frame_step_spec(GbcApuView { frame_sequencer: 0, ..a1 })
        } else {
            GbcApuView { frame_sequencer: (a1.frame_sequencer + 1) as u32, ..a1 }
        }));
        self.sample_counter = self.sample_counter + self.sample_rate;
        if self.sample_counter >= APU_CLOCK {
            self.sample_counter = self.sample_counter - APU_CLOCK;
            self.generate_sample();
        }
    }

    fn clock_frame_sequencer(&mut self)
        requires
            square_wf(old(self).ch1),
            old(self).frame_step < 8,
        ensures
            final(self)@ == frame_step_spec(old(self)@),
    {
        let s = self.frame_step;
        if s == 0 || s == 2 || s == 4 || s == 6 {
            self.ch1.clock_length();
            self.ch2.clock_length();
            self.ch3.clock_length();
            self.ch4.clock_length();
            if s == 2 || s == 6 {
                self.ch1.clock_sweep();
            }
        } else if s == 7 {
            self.ch1.clock_envelope();
            self.ch2.clock_envelope();
            self.ch4.clock_envelope();
        }
        self.frame_step = (self.frame_step + 1) & 7;
        assert(self@ =~~= frame_step_spec(old(self)@));
    }

    fn generate_sample(&mut self)
        requires
            square_wf(old(self).ch1),
            square_wf(old(self).ch2),
            old(self).ch4.volume <= 15,
        ensures
            final(self)@ == (GbcApuView {
                audio_buffer: old(self)@.audio_buffer.push(mix_left(old(self)@)).push(mix_right(old(self)@)),
                ..old(self)@
            }),
    {
        let l1 = self.ch1.output_level();
        let l2 = self.ch2.output_level();
        let l3 = self.ch3.output_level();
        let l4 = self.ch4.output_level();
        let nr50 = self.nr50;
        assert((nr50 >> 4u8) & 7 <= 7 && nr50 & 7 <= 7) by {
            crate::bits::lemma_and_le_u8((nr50 >> 4u8), 7);
            crate::bits::lemma_and_le_u8(nr50, 7);
        }
        let left = mix(self.nr51, l1, l2, l3, l4, 0x10, 0x20, 0x40, 0x80, (nr50 >> 4u8) & 7);
        let right = mix(self.nr51, l1, l2, l3, l4, 0x01, 0x02, 0x04, 0x08, nr50 & 7);
        self.audio_buffer.push(left);
        self.audio_buffer.push(right);
        assert(self@ =~~= GbcApuView {
            audio_buffer: old(self)@.audio_buffer.push(mix_left(old(self)@)).push(mix_right(old(self)@)),
            ..old(self)@
        });
    }

    /// Reads sound register `addr` (0xFF10-0xFF3F).
    pub fn read(&self, addr: u16) -> (v: u8)
        ensures
            v == gbc_apu_read_spec(self@, addr),
    {
        if 0xFF10 <= addr && addr <= 0xFF14 {
            read_square(&self.ch1, addr - 0xFF10)
        } else if 0xFF16 <= addr && addr <= 0xFF19 {
            read_square(&self.ch2, addr - 0xFF15)
        } else if 0xFF1A <= addr && addr <= 0xFF1E {
            let c = &self.ch3;
            let reg = addr - 0xFF1A;
            if reg == 0 {
                bit_if_exec(c.dac_enabled, 0x80) | 0x7F
            } else if reg == 2 {
                (c.volume_code << 5u8) | 0x9F
            } else if reg == 4 {
                bit_if_exec(c.length_enabled, 0x40) | 0xBF
            } else {
                0xFF
            }
        } else if 0xFF20 <= addr && addr <= 0xFF23 {
            let c = &self.ch4;
            let reg = addr - 0xFF1F;
            if reg == 2 {
                (c.volume_initial << 4u8) | bit_if_exec(c.envelope_add, 0x08) | c.envelope_period
            } else if reg == 3 {
                (c.clock_shift << 4u8) | bit_if_exec(c.width_mode, 0x08) | c.divisor_code
            } else if reg == 4 {
                bit_if_exec(c.length_enabled, 0x40) | 0xBF
            } else {
                0xFF
            }
        } else if addr == 0xFF24 {
            self.nr50
        } else if addr == 0xFF25 {
            self.nr51
        } else if addr == 0xFF26 {
            bit_if_exec(self.enabled, 0x80) | bit_if_exec(self.ch1.enabled, 0x01) | bit_if_exec(self.ch2.enabled, 0x02)
                | bit_if_exec(self.ch3.enabled, 0x04) | bit_if_exec(self.ch4.enabled, 0x08) | 0x70
        } else if 0xFF30 <= addr && addr <= 0xFF3F {
            self.ch3.wave_ram[(addr - 0xFF30) as usize]
        } else {
            0xFF
        }
    }

    /// Writes sound register `addr`.
    pub fn write(&mut self, addr: u16, val: u8)
        requires
            gbc_apu_wf(old(self)@),
        ensures
            final(self)@ == gbc_apu_write_spec(old(self)@, addr, val),
            gbc_apu_wf(final(self)@),
    {
        if !self.enabled && addr != 0xFF26 && !(0xFF30 <= addr && addr <= 0xFF3F) {
            return;
        }
        if 0xFF10 <= addr && addr <= 0xFF14 {
            write_square(&mut self.ch1, addr - 0xFF10, val);
        } else if 0xFF16 <= addr && addr <= 0xFF19 {
            write_square(&mut self.ch2, addr - 0xFF15, val);
        } else if 0xFF1A <= addr && addr <= 0xFF1E {
            write_wave(&mut self.ch3, addr - 0xFF1A, val);
        } else if 0xFF20 <= addr && addr <= 0xFF23 {
            write_noise(&mut self.ch4, addr - 0xFF1F, val);
        } else if addr == 0xFF24 {
            self.nr50 = val;
        } else if addr == 0xFF25 {
            self.nr51 = val;
        } else if addr == 0xFF26 {
            let was_enabled = self.enabled;
            self.enabled = val & 0x80 != 0;
            if was_enabled && !self.enabled {
                self.ch1 = SquareChannel::new();
                self.ch2 = SquareChannel::new();
                self.ch3.enabled = false;
                self.ch4 = NoiseChannel::new();
                self.nr50 = 0;
                self.nr51 = 0;
            }
        } else if 0xFF30 <= addr && addr <= 0xFF3F {
            self.ch3.wave_ram[(addr - 0xFF30) as usize] = val;
            assert(self.ch3.wave_ram =~= vstd::array::spec_array_update(
                old(self).ch3.wave_ram,
                (addr - 0xFF30) as int,
                val,
            ));
        }
        assert(self@ =~~= gbc_apu_write_spec(old(self)@, addr, val));
    }
}

/// `m` if `b`, else 0.
fn bit_if_exec(b: bool, m: u8) -> (r: u8)
    ensures
        r == bit_if(b, m),
{
    if b {
        m
    } else {
        0
    }
}

/// Reads register `reg` of a square channel.
fn read_square(c: &SquareChannel, reg: u16) -> (v: u8)
    ensures
        v == square_read_spec(*c, reg),
{
    if reg == 0 {
        (c.sweep_period << 4u8) | bit_if_exec(c.sweep_negate, 0x08) | c.sweep_shift
    } else if reg == 1 {
        (c.duty << 6u8) | 0x3F
    } else if reg == 2 {
        (c.volume_initial << 4u8) | bit_if_exec(c.envelope_add, 0x08) | c.envelope_period
    } else if reg == 4 {
        bit_if_exec(c.length_enabled, 0x40) | 0xBF
    } else {
        0xFF
    }
}

/// Writes register `reg` of a square channel.
pub(crate) fn write_square(c: &mut SquareChannel, reg: u16, val: u8)
    requires
        square_wf(*old(c)),
    ensures
        *final(c) == square_write_spec(*old(c), reg, val),
        square_wf(*final(c)),
{
    let f = c.frequency;
    assert((val >> 6u8) & 3 < 4) by {
        crate::bits::lemma_and_le_u8((val >> 6u8), 3);
    }
    assert(val >> 4u8 <= 15) by {
        crate::bits::lemma_u8_fields(val);
    }
    assert(val & 7 < 8) by {
        crate::bits::lemma_and_le_u8(val, 7);
    }
    assert(val & 0x3F <= 63) by {
        crate::bits::lemma_and_le_u8(val, 0x3F);
    }
    proof {
        lemma_frequency_writes(f, val);
    }
    if reg == 0 {
        c.sweep_period = (val >> 4u8) & 7;
        c.sweep_negate = val & 0x08 != 0;
        c.sweep_shift = val & 7;
    } else if reg == 1 {
        c.duty = (val >> 6u8) & 3;
        c.length_counter = 64 - (val & 0x3F);
    } else if reg == 2 {
        c.volume_initial = val >> 4u8;
        c.envelope_add = val & 0x08 != 0;
        c.envelope_period = val & 7;
    } else if reg == 3 {
        c.frequency = (c.frequency & 0x700) | val as u16;
    } else if reg == 4 {
        c.frequency = (c.frequency & 0xFF) | (((val & 7) as u16) << 8u16);
        c.length_enabled = val & 0x40 != 0;
        if val & 0x80 != 0 {
            c.trigger();
        }
    }
}

/// Writes register `reg` of the wave channel.
pub(crate) fn write_wave(c: &mut WaveChannel, reg: u16, val: u8)
    requires
        old(c).frequency <= 2047,
        old(c).wave_pos < 32,
    ensures
        *final(c) == wave_write_spec(*old(c), reg, val),
        final(c).frequency <= 2047,
        final(c).wave_pos < 32,
{
    let f = c.frequency;
    proof {
        lemma_frequency_writes(f, val);
    }
    if reg == 0 {
        c.dac_enabled = val & 0x80 != 0;
        if !c.dac_enabled {
            c.enabled = false;
        }
    } else if reg == 1 {
        c.length_counter = 256 - val as u16;
    } else if reg == 2 {
        c.volume_code = (val >> 5u8) & 3;
    } else if reg == 3 {
        c.frequency = (c.frequency & 0x700) | val as u16;
    } else if reg == 4 {
        c.frequency = (c.frequency & 0xFF) | (((val & 7) as u16) << 8u16);
        c.length_enabled = val & 0x40 != 0;
        if val & 0x80 != 0 {
            c.trigger();
        }
    }
}

/// Writes register `reg` of the noise channel.
pub(crate) fn write_noise(c: &mut NoiseChannel, reg: u16, val: u8)
    requires
        old(c).volume_initial <= 15,
        old(c).volume <= 15,
        old(c).clock_shift < 16,
    ensures
        *final(c) == noise_write_spec(*old(c), reg, val),
        final(c).volume_initial <= 15,
        final(c).volume <= 15,
        final(c).clock_shift < 16,
{
    assert(val >> 4u8 <= 15) by {
        crate::bits::lemma_u8_fields(val);
    }
    assert(val & 0x3F <= 63) by {
        crate::bits::lemma_and_le_u8(val, 0x3F);
    }
    if reg == 1 {
        c.length_counter = 64 - (val & 0x3F);
    } else if reg == 2 {
        c.volume_initial = val >> 4u8;
        c.envelope_add = val & 0x08 != 0;
        c.envelope_period = val & 7;
    } else if reg == 3 {
        c.clock_shift = val >> 4u8;
        c.width_mode = val & 0x08 != 0;
        c.divisor_code = val & 7;
    } else if reg == 4 {
        c.length_enabled = val & 0x40 != 0;
        if val & 0x80 != 0 {
            c.trigger();
        }
    }
}

/// The sum of the outputs that `nr51` routes to one side (channel bits `m1`
/// to `m4`), in sixtieths, times that side's volume `vol`: the square and
/// noise levels `l1`, `l2`, `l4` count four sixtieths each.
fn mix(nr51: u8, l1: u8, l2: u8, l3: i16, l4: u8, m1: u8, m2: u8, m3: u8, m4: u8, vol: u8) -> (s: i32)
    requires
        l1 <= 15,
        l2 <= 15,
        -1980 <= l3 <= 1980,
        l4 <= 15,
        vol <= 7,
    ensures
        s == (((if nr51 & m1 != 0 { 4 * l1 } else { 0 }) + (if nr51 & m2 != 0 { 4 * l2 } else { 0 }) + (
        if nr51 & m3 != 0 { l3 as int } else { 0 }) + (if nr51 & m4 != 0 { 4 * l4 } else { 0 })) * (vol as int)),
{
    let mut sum: i32 = 0;
    if nr51 & m1 != 0 {
        sum = sum + 4 * l1 as i32;
    }
    if nr51 & m2 != 0 {
        sum = sum + 4 * l2 as i32;
    }
    if nr51 & m3 != 0 {
        sum = sum + l3 as i32;
    }
    if nr51 & m4 != 0 {
        sum = sum + 4 * l4 as i32;
    }
    assert(-1980 * 7 <= sum * (vol as i32) <= 2160 * 7) by (nonlinear_arith)
        requires
            -1980 <= sum <= 2160,
            vol <= 7,
    ;
    sum * vol as i32
}


} // verus!
