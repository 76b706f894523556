use vstd::prelude::*;

use crate::apu::gbc_apu::{
    frame_step_spec, gbc_apu_wf, lemma_frame_step_wf, lemma_square_clocks_wf, noise_level, noise_read_spec, noise_reset,
    noise_tick_spec, noise_write_spec, square_level, square_read_spec, square_reset, square_tick_spec, square_wf,
    square_write_spec, wave_is_reset, wave_level, wave_read_spec, wave_tick_spec, wave_write_spec, GbcApu,
    GbcApuView, NoiseChannel, SquareChannel, WaveChannel, APU_CLOCK, SAMPLE_RATE,
};

verus! {

/// The clock of the Game Boy Advance, in cycles per second.
pub const GBA_APU_CLOCK: u32 = 16_777_216;

/// The full scale of a mixed sample: a sample `n` stands for
/// `n / MIX_SCALE`, between -1 and 1.
pub const MIX_SCALE: i32 = 26880;

/// The Game Boy Advance sound unit: the four Game Boy channels (clocked
/// every 4 cycles) and the two DirectSound FIFOs.
///
/// Samples are integers, left then right, over `MIX_SCALE`: the Game Boy
/// channels mixed as on the Game Boy Color and scaled by SOUNDCNT_H's PSG
/// volume, plus the FIFO samples at full or half volume, clamped to
/// `-MIX_SCALE..=MIX_SCALE`.
pub struct GbaApu {
    pub enabled: bool,
    pub ch1: SquareChannel,
    pub ch2: SquareChannel,
    pub ch3: WaveChannel,
    pub ch4: NoiseChannel,
    pub nr50: u8,
    pub nr51: u8,
    pub soundcnt_h: u16,
    pub fifo_a: Vec<i8>,
    pub fifo_b: Vec<i8>,
    pub fifo_a_sample: i8,
    pub fifo_b_sample: i8,
    pub soundbias: u16,
    pub psg_cycle_accum: u32,
    pub frame_sequencer: u32,
    pub frame_step: u8,
    pub sample_counter: u32,
    pub audio_buffer: Vec<i32>,
    pub sample_rate: u32,
}

/// The sound unit as values.
#[verifier::ext_equal]
pub struct GbaApuView {
    pub psg: GbcApuView,
    pub soundcnt_h: u16,
    pub fifo_a: Seq<i8>,
    pub fifo_b: Seq<i8>,
    pub fifo_a_sample: i8,
    pub fifo_b_sample: i8,
    pub soundbias: u16,
    pub psg_cycle_accum: u32,
    pub audio_buffer: Seq<i32>,
}

impl View for GbaApu {
    type V = GbaApuView;

    open spec fn view(&self) -> GbaApuView {
        GbaApuView {
            psg: GbcApuView {
                enabled: self.enabled,
                ch1: self.ch1,
                ch2: self.ch2,
                ch3: self.ch3,
                ch4: self.ch4,
                nr50: self.nr50,
                nr51: self.nr51,
                frame_sequencer: self.frame_sequencer,
                frame_step: self.frame_step,
                sample_counter: self.sample_counter,
                audio_buffer: Seq::empty(),
                sample_rate: self.sample_rate,
            },
            soundcnt_h: self.soundcnt_h,
            fifo_a: self.fifo_a@,
            fifo_b: self.fifo_b@,
            fifo_a_sample: self.fifo_a_sample,
            fifo_b_sample: self.fifo_b_sample,
            soundbias: self.soundbias,
            psg_cycle_accum: self.psg_cycle_accum,
            audio_buffer: self.audio_buffer@,
        }
    }
}

/// The ranges the sound unit keeps: the channel ranges, counters below
/// their periods, and FIFOs of at most 35 bytes (a word may be pushed while
/// fewer than 32 are queued).
pub open spec fn gba_apu_wf(a: GbaApuView) -> bool {
    let p = a.psg;
    &&& square_wf(p.ch1)
    &&& square_wf(p.ch2)
    &&& p.ch3.frequency <= 2047
    &&& p.ch3.wave_pos < 32
    &&& p.ch4.clock_shift < 16
    &&& p.ch4.volume <= 15
    &&& p.ch4.volume_initial <= 15
    &&& p.frame_step < 8
    &&& p.frame_sequencer < 32768
    &&& p.sample_counter < GBA_APU_CLOCK
    &&& p.sample_rate <= GBA_APU_CLOCK
    &&& a.psg_cycle_accum < 4
    &&& a.fifo_a.len() <= 35
    &&& a.fifo_b.len() <= 35
}

/// The channels after one PSG clock (every 4 CPU cycles).
pub open spec fn psg_clock(p: GbcApuView) -> GbcApuView {
    GbcApuView {
        ch1: square_tick_spec(p.ch1),
        ch2: square_tick_spec(p.ch2),
        ch3: wave_tick_spec(p.ch3),
        ch4: noise_tick_spec(p.ch4),
        ..p
    }
}

/// `n` PSG clocks.
pub open spec fn psg_clocks(p: GbcApuView, n: nat) -> GbcApuView
    decreases n,
{
    if n == 0 {
        p
    } else {
        psg_clock(psg_clocks(p, (n - 1) as nat))
    }
}

/// `n` frame-sequencer steps.
pub open spec fn frame_steps(p: GbcApuView, n: nat) -> GbcApuView
    decreases n,
{
    if n == 0 {
        p
    } else {
        frame_step_spec(frame_steps(p, (n - 1) as nat))
    }
}

/// The routed Game Boy channel outputs of one side (NR51 bits `m1`-`m4`),
/// in sixtieths of a channel's full scale.
pub open spec fn psg_sum(p: GbcApuView, m1: u8, m2: u8, m3: u8, m4: u8) -> int {
    (if p.nr51 & m1 != 0 { 4 * square_level(p.ch1) } else { 0 }) + (if p.nr51 & m2 != 0 {
        4 * square_level(p.ch2)
    } else {
        0
    }) + (if p.nr51 & m3 != 0 { wave_level(p.ch3) } else { 0 }) + (if p.nr51 & m4 != 0 {
        4 * noise_level(p.ch4)
    } else {
        0
    })
}

/// SOUNDCNT_H's PSG volume in quarters: 1, 2, 4, or 0 for the unused setting.
pub open spec fn psg_quarters(cnt: u16) -> int {
    let v = cnt & 3;
    if v == 0 {
        1
    } else if v == 1 {
        2
    } else if v == 2 {
        4
    } else {
        0
    }
}

/// A FIFO sample's share of a side, over `MIX_SCALE`: full volume when its
/// SOUNDCNT_H volume bit is set, half otherwise; nothing when not routed.
pub open spec fn fifo_part(sample: i8, cnt: u16, vol_bit: u16, route_bit: u16) -> int {
    if cnt & route_bit != 0 {
        if cnt & vol_bit != 0 {
            (sample as int) * 210
        } else {
            (sample as int) * 105
        }
    } else {
        0
    }
}

/// `v` clamped to `-MIX_SCALE..=MIX_SCALE`.
pub open spec fn clamp_mix(v: int) -> i32 {
    if v > MIX_SCALE {
        MIX_SCALE
    } else if v < -MIX_SCALE {
        (-MIX_SCALE) as i32
    } else {
        v as i32
    }
}

/// The left sample.
pub open spec fn gba_mix_left(a: GbaApuView) -> i32 {
    let p = a.psg;
    let c = a.soundcnt_h;
    clamp_mix(
        psg_sum(p, 0x10, 0x20, 0x40, 0x80) * (((p.nr50 >> 4u8) & 7) as int) * psg_quarters(c) * 4
            + fifo_part(a.fifo_a_sample, c, 0x04, 0x0200) + fifo_part(a.fifo_b_sample, c, 0x08, 0x2000),
    )
}

/// The right sample.
pub open spec fn gba_mix_right(a: GbaApuView) -> i32 {
    let p = a.psg;
    let c = a.soundcnt_h;
    clamp_mix(
        psg_sum(p, 0x01, 0x02, 0x04, 0x08) * ((p.nr50 & 7) as int) * psg_quarters(c) * 4 + fifo_part(
            a.fifo_a_sample,
            c,
            0x04,
            0x0100,
        ) + fifo_part(a.fifo_b_sample, c, 0x08, 0x1000),
    )
}

/// `n` stereo samples appended.
pub open spec fn gba_samples(a: GbaApuView, n: nat) -> Seq<i32>
    decreases n,
{
    if n == 0 {
        a.audio_buffer
    } else {
        gba_samples(a, (n - 1) as nat).push(gba_mix_left(a)).push(gba_mix_right(a))
    }
}

/// What `tick(cycles)` does while the unit is on: the channels are clocked
/// once per 4 cycles, the frame sequencer steps once per 32768 cycles, and
/// one stereo sample is mixed (from the state after those clocks) per
/// `GBA_APU_CLOCK / sample_rate` cycles.
/// The counters `tick(cycles)` adds to do not overflow: the PSG's cycle
/// accumulator and frame sequencer, while the unit is on.
pub open spec fn gba_apu_tick_defined(a: GbaApuView, cycles: u32) -> bool {
    a.psg.enabled ==> a.psg_cycle_accum + cycles <= u32::MAX && a.psg.frame_sequencer + cycles <= u32::MAX
}

pub open spec fn gba_apu_tick_spec(a: GbaApuView, cycles: u32) -> GbaApuView {
    if !a.psg.enabled {
        a
    } else {
        let acc = a.psg_cycle_accum + cycles;
        let p1 = psg_clocks(a.psg, (acc / 4) as nat);
        let fs = p1.frame_sequencer + cycles;
        let p2 = frame_steps(GbcApuView { frame_sequencer: (fs % 32768) as u32, ..p1 }, (fs / 32768) as nat);
        let prod = if cycles * p2.sample_rate > u32::MAX { u32::MAX as int } else { cycles * p2.sample_rate };
        let sc = (p2.sample_counter + prod) % 0x1_0000_0000;
        let a2 = GbaApuView {
            psg: GbcApuView { sample_counter: (sc % (GBA_APU_CLOCK as int)) as u32, ..p2 },
            psg_cycle_accum: (acc % 4) as u32,
            ..a
        };
        GbaApuView { audio_buffer: gba_samples(a2, (sc / (GBA_APU_CLOCK as int)) as nat), ..a2 }
    }
}

/// The Game Boy channel register `off` (0x60-0x7D) reads, as channel and
/// register number; `None` reads 0.
pub open spec fn psg_read_reg(off: u32) -> Option<(int, u16)> {
    if off == 0x60 {
        Some((1, 0))
    } else if off == 0x62 {
        Some((1, 1))
    } else if off == 0x63 {
        Some((1, 2))
    } else if off == 0x65 {
        Some((1, 4))
    } else if off == 0x68 {
        Some((2, 1))
    } else if off == 0x69 {
        Some((2, 2))
    } else if off == 0x6D {
        Some((2, 4))
    } else if off == 0x70 {
        Some((3, 0))
    } else if off == 0x73 {
        Some((3, 2))
    } else if off == 0x75 {
        Some((3, 4))
    } else if off == 0x79 {
        Some((4, 2))
    } else if off == 0x7C {
        Some((4, 3))
    } else if off == 0x7D {
        Some((4, 4))
    } else {
        None
    }
}

/// The Game Boy channel register `off` writes, as channel and register.
pub open spec fn psg_write_reg(off: u32) -> Option<(int, u16)> {
    if off == 0x60 {
        Some((1, 0))
    } else if off == 0x62 {
        Some((1, 1))
    } else if off == 0x63 {
        Some((1, 2))
    } else if off == 0x64 {
        Some((1, 3))
    } else if off == 0x65 {
        Some((1, 4))
    } else if off == 0x68 {
        Some((2, 1))
    } else if off == 0x69 {
        Some((2, 2))
    } else if off == 0x6C {
        Some((2, 3))
    } else if off == 0x6D {
        Some((2, 4))
    } else if off == 0x70 {
        Some((3, 0))
    } else if off == 0x72 {
        Some((3, 1))
    } else if off == 0x73 {
        Some((3, 2))
    } else if off == 0x74 {
        Some((3, 3))
    } else if off == 0x75 {
        Some((3, 4))
    } else if off == 0x78 {
        Some((4, 1))
    } else if off == 0x79 {
        Some((4, 2))
    } else if off == 0x7C {
        Some((4, 3))
    } else if off == 0x7D {
        Some((4, 4))
    } else {
        None
    }
}

/// NR52 as the GBA reads it.
pub open spec fn gba_nr52(p: GbcApuView) -> u8 {
    (if p.enabled { 0x80u8 } else { 0u8 }) | (if p.ch1.enabled { 0x01u8 } else { 0u8 }) | (if p.ch2.enabled {
        0x02u8
    } else {
        0u8
    }) | (if p.ch3.enabled { 0x04u8 } else { 0u8 }) | (if p.ch4.enabled { 0x08u8 } else { 0u8 }) | 0x70
}

/// What a read of sound register `off` returns.
pub open spec fn gba_apu_read_spec(a: GbaApuView, off: u32) -> u8 {
    let p = a.psg;
    match psg_read_reg(off) {
        Some((ch, reg)) => if ch == 1 {
            square_read_spec(p.ch1, reg)
        } else if ch == 2 {
            square_read_spec(p.ch2, reg)
        } else if ch == 3 {
            wave_read_spec(p.ch3, reg)
        } else {
            noise_read_spec(p.ch4, reg)
        },
        None => if off == 0x80 {
            p.nr50
        } else if off == 0x81 {
            p.nr51
        } else if off == 0x82 {
            a.soundcnt_h as u8
        } else if off == 0x83 {
            (a.soundcnt_h >> 8u16) as u8
        } else if off == 0x84 {
            gba_nr52(p)
        } else if off == 0x88 {
            a.soundbias as u8
        } else if off == 0x89 {
            (a.soundbias >> 8u16) as u8
        } else if 0x90 <= off <= 0x9F {
            p.ch3.wave_ram[off - 0x90]
        } else {
            0
        },
    }
}

/// A FIFO after a byte is offered: kept only while fewer than 32 are queued.
pub open spec fn fifo_push(f: Seq<i8>, b: u8) -> Seq<i8> {
    if f.len() < 32 {
        f.push(b as i8)
    } else {
        f
    }
}

/// What a write of `val` to sound register `off` does.
pub open spec fn gba_apu_write_spec(a: GbaApuView, off: u32, val: u8) -> GbaApuView {
    let p = a.psg;
    match psg_write_reg(off) {
        Some((ch, reg)) => if ch == 1 {
            GbaApuView { psg: GbcApuView { ch1: square_write_spec(p.ch1, reg, val), ..p }, ..a }
        } else if ch == 2 {
            GbaApuView { psg: GbcApuView { ch2: square_write_spec(p.ch2, reg, val), ..p }, ..a }
        } else if ch == 3 {
            GbaApuView { psg: GbcApuView { ch3: wave_write_spec(p.ch3, reg, val), ..p }, ..a }
        } else {
            GbaApuView { psg: GbcApuView { ch4: noise_write_spec(p.ch4, reg, val), ..p }, ..a }
        },
        None => if off == 0x80 {
            GbaApuView { psg: GbcApuView { nr50: val, ..p }, ..a }
        } else if off == 0x81 {
            GbaApuView { psg: GbcApuView { nr51: val, ..p }, ..a }
        } else if off == 0x82 {
            GbaApuView { soundcnt_h: (a.soundcnt_h & 0xFF00) | (val as u16), ..a }
        } else if off == 0x83 {
            let a1 = GbaApuView { soundcnt_h: (a.soundcnt_h & 0x00FF) | ((val as u16) << 8u16), ..a };
            let a2 = if val & 0x08 != 0 {
                GbaApuView { fifo_a: Seq::empty(), fifo_a_sample: 0, ..a1 }
            } else {
                a1
            };
            if val & 0x80 != 0 {
                GbaApuView { fifo_b: Seq::empty(), fifo_b_sample: 0, ..a2 }
            } else {
                a2
            }
        } else if off == 0x84 {
            let on = val & 0x80 != 0;
            if p.enabled && !on {
                GbaApuView {
                    psg: GbcApuView {
                        enabled: false,
                        ch1: square_reset(),
                        ch2: square_reset(),
                        ch3: WaveChannel { enabled: false, ..p.ch3 },
                        ch4: noise_reset(),
                        nr50: 0,
                        nr51: 0,
                        ..p
                    },
                    ..a
                }
            } else {
                GbaApuView { psg: GbcApuView { enabled: on, ..p }, ..a }
            }
        } else if off == 0x88 {
            GbaApuView { soundbias: (a.soundbias & 0xFF00) | (val as u16), ..a }
        } else if off == 0x89 {
            GbaApuView { soundbias: (a.soundbias & 0x00FF) | ((val as u16) << 8u16), ..a }
        } else if 0x90 <= off <= 0x9F {
            GbaApuView {
                psg: GbcApuView {
                    ch3: WaveChannel {
                        wave_ram: vstd::array::spec_array_update(p.ch3.wave_ram, (off - 0x90) as int, val),
                        ..p.ch3
                    },
                    ..p
                },
                ..a
            }
        } else if 0xA0 <= off <= 0xA3 {
            GbaApuView { fifo_a: fifo_push(a.fifo_a, val), ..a }
        } else if 0xA4 <= off <= 0xA7 {
            GbaApuView { fifo_b: fifo_push(a.fifo_b, val), ..a }
        } else {
            a
        },
    }
}

/// The FIFO a timer overflow consumes from: its next sample is taken (0
/// when empty) if the FIFO is tied to that timer.
pub open spec fn fifo_pop(f: Seq<i8>, s: i8, tied: bool) -> (Seq<i8>, i8) {
    if !tied {
        (f, s)
    } else if f.len() > 0 {
        (f.drop_first(), f[0])
    } else {
        (f, 0)
    }
}

/// What `timer_overflow(t)` does: FIFO A follows timer 1 when SOUNDCNT_H
/// bit 10 is set (else timer 0), FIFO B likewise with bit 14.
pub open spec fn gba_timer_overflow_spec(a: GbaApuView, t: int) -> GbaApuView {
    let ta = if a.soundcnt_h & 0x0400 != 0 { 1int } else { 0int };
    let tb = if a.soundcnt_h & 0x4000 != 0 { 1int } else { 0int };
    let (fa, sa) = fifo_pop(a.fifo_a, a.fifo_a_sample, t == ta);
    let (fb, sb) = fifo_pop(a.fifo_b, a.fifo_b_sample, t == tb);
    GbaApuView { fifo_a: fa, fifo_a_sample: sa, fifo_b: fb, fifo_b_sample: sb, ..a }
}

/// The four little-endian bytes of a word pushed, when fewer than 32 are queued.
pub open spec fn fifo_push_word(f: Seq<i8>, val: u32) -> Seq<i8> {
    if f.len() < 32 {
        f.push(val as i8).push((val >> 8u32) as i8).push((val >> 16u32) as i8).push((val >> 24u32) as i8)
    } else {
        f
    }
}

/// The sound unit at power-on.
pub open spec fn gba_apu_at_reset(a: GbaApu) -> bool {
    &&& gba_apu_wf(a@)
    &&& a.enabled && a.nr50 == 0x77 && a.nr51 == 0xF3 && a.soundcnt_h == 0 && a.soundbias == 0x200
    &&& a.ch1 == square_reset() && a.ch2 == square_reset() && wave_is_reset(a.ch3) && a.ch4 == noise_reset()
    &&& a@.fifo_a == Seq::<i8>::empty() && a@.fifo_b == Seq::<i8>::empty()
    &&& a.fifo_a_sample == 0 && a.fifo_b_sample == 0
    &&& a.psg_cycle_accum == 0 && a.frame_sequencer == 0 && a.frame_step == 0 && a.sample_counter == 0
    &&& a@.audio_buffer == Seq::<i32>::empty()
    &&& a.sample_rate == SAMPLE_RATE
}

impl GbaApu {
    /// The sound unit at power-on.
    pub fn new() -> (a: Self)
        ensures
            gba_apu_at_reset(a),
    {
        GbaApu {
            enabled: true,
            ch1: SquareChannel::new(),
            ch2: SquareChannel::new(),
            ch3: WaveChannel::new(),
            ch4: NoiseChannel::new(),
            nr50: 0x77,
            nr51: 0xF3,
            soundcnt_h: 0,
            fifo_a: Vec::new(),
            fifo_b: Vec::new(),
            fifo_a_sample: 0,
            fifo_b_sample: 0,
            soundbias: 0x200,
            psg_cycle_accum: 0,
            frame_sequencer: 0,
            frame_step: 0,
            sample_counter: 0,
            audio_buffer: Vec::new(),
            sample_rate: SAMPLE_RATE,
        }
    }

    /// Runs `cycles` CPU cycles (nothing while the unit is off).
    #[verifier::spinoff_prover]
    #[verifier::rlimit(40)]
    pub fn tick(&mut self, cycles: u32)
        requires
            gba_apu_wf(old(self)@),
            gba_apu_tick_defined(old(self)@, cycles),
        ensures
            final(self)@ == gba_apu_tick_spec(old(self)@, cycles),
            gba_apu_wf(final(self)@),
    {
        if !self.enabled {
            return;
        }
        let ghost a0 = self@;
        let ghost fs0 = self.frame_sequencer;
        self.psg_cycle_accum = self.psg_cycle_accum + cycles;
        let ghost acc = self.psg_cycle_accum;
        let ghost mut n: nat = 0;
        while self.psg_cycle_accum >= 4
            invariant
                gba_apu_wf(GbaApuView { psg_cycle_accum: 0, ..self@ }),
                self@.psg == psg_clocks(a0.psg, n),
                n * 4 + self.psg_cycle_accum == acc,
                self.frame_sequencer == fs0,
                fs0 + cycles <= u32::MAX,
                self@.fifo_a == a0.fifo_a && self@.fifo_b == a0.fifo_b,
                self@.audio_buffer == a0.audio_buffer,
                self.soundcnt_h == a0.soundcnt_h && self.soundbias == a0.soundbias,
                self.fifo_a_sample == a0.fifo_a_sample && self.fifo_b_sample == a0.fifo_b_sample,
            decreases self.psg_cycle_accum,
        {
            self.psg_cycle_accum = self.psg_cycle_accum - 4;
            proof {
                lemma_square_clocks_wf(self.ch1);
                lemma_square_clocks_wf(self.ch2);
                let p = self.ch3.wave_pos;
                assert(((p + 1) as u8) & 31 < 32) by {
                    crate::bits::lemma_and_le_u8(((p + 1) as u8), 31);
                }
            }
            self.ch1.tick();
            self.ch2.tick();
            self.ch3.tick();
            self.ch4.tick();
            proof {
                n = n + 1;
            }
        }
        assert(n == acc / 4 && self.psg_cycle_accum == acc % 4) by (nonlinear_arith)
            requires
                n * 4 + self.psg_cycle_accum == acc,
                self.psg_cycle_accum < 4,
        ;
        let ghost p1 = self@.psg;
        self.frame_sequencer = self.frame_sequencer + cycles;
        let ghost fs = self.frame_sequencer;
        let ghost mut m: nat = 0;
        while self.frame_sequencer >= 32768
            invariant
                gba_apu_wf(GbaApuView { psg: GbcApuView { frame_sequencer: 0, ..self@.psg }, ..self@ }),
                self@.psg == frame_steps(GbcApuView { frame_sequencer: self.frame_sequencer, ..p1 }, m),
                m * 32768 + self.frame_sequencer == fs,
                self.psg_cycle_accum == acc % 4,
                self@.fifo_a == a0.fifo_a && self@.fifo_b == a0.fifo_b,
                self@.audio_buffer == a0.audio_buffer,
                self.soundcnt_h == a0.soundcnt_h && self.soundbias == a0.soundbias,
                self.fifo_a_sample == a0.fifo_a_sample && self.fifo_b_sample == a0.fifo_b_sample,
            decreases self.frame_sequencer,
        {
            proof {
                lemma_frame_steps_fs(p1, (self.frame_sequencer - 32768) as u32, m);
                lemma_frame_steps_fs(p1, self.frame_sequencer, m);
            }
            self.frame_sequencer = self.frame_sequencer - 32768;
            proof {
                lemma_frame_step_gba_wf(self@.psg);
            }
            self.clock_frame_sequencer();
            proof {
                m = m + 1;
            }
        }
        assert(m == fs / 32768 && self.frame_sequencer == fs % 32768) by (nonlinear_arith)
            requires
                m * 32768 + self.frame_sequencer == fs,
                self.frame_sequencer < 32768,
        ;
        let prod = match cycles.checked_mul(self.sample_rate) {
            Some(x) => x,
            None => u32::MAX,
        };
        self.sample_counter = self.sample_counter.wrapping_add(prod);
        let ghost sc: int = self.sample_counter as int;
        let ghost a2 = GbaApuView {
            psg: GbcApuView { sample_counter: (sc % (GBA_APU_CLOCK as int)) as u32, ..self@.psg },
            ..self@
        };
        let ghost mut k: nat = 0;
        while self.sample_counter >= GBA_APU_CLOCK
            invariant
                self@ == (GbaApuView {
                    psg: GbcApuView { sample_counter: self.sample_counter, ..a2.psg },
                    audio_buffer: gba_samples(a2, k),
                    ..a2
                }),
                k * (GBA_APU_CLOCK as int) + self.sample_counter == sc,
                gba_apu_wf(GbaApuView { psg: GbcApuView { sample_counter: 0, ..a2.psg }, ..a2 }),
            decreases self.sample_counter,
        {
            self.sample_counter = self.sample_counter - GBA_APU_CLOCK;
            self.generate_sample();
            proof {
                k = k + 1;
            }
        }
        assert(k == sc / (GBA_APU_CLOCK as int) && self.sample_counter == sc % (GBA_APU_CLOCK as int))
            by (nonlinear_arith)
            requires
                k * (GBA_APU_CLOCK as int) + self.sample_counter == sc,
                self.sample_counter < GBA_APU_CLOCK,
        ;
        assert(self@ =~~= gba_apu_tick_spec(a0, cycles));
    }

    fn clock_frame_sequencer(&mut self)
        requires
            square_wf(old(self).ch1),
            old(self).frame_step < 8,
        ensures
            final(self)@ == (GbaApuView { psg: frame_step_spec(old(self)@.psg), ..old(self)@ }),
    {
        let s = self.frame_step;
        if s == 0 || s == 2 || s == 4 || s == 6 {
            self.ch1.clock_length();
            self.ch2.clock_length();
            self.ch3.clock_length();
            self.ch4.clock_length();
            if s == 2 || s == 6 {
                self.ch1.clock_sweep();
            }
        } else if s == 7 {
            self.ch1.clock_envelope();
            self.ch2.clock_envelope();
            self.ch4.clock_envelope();
        }
        self.frame_step = (self.frame_step + 1) & 7;
        assert(self@ =~~= GbaApuView { psg: frame_step_spec(old(self)@.psg), ..old(self)@ });
    }

    fn generate_sample(&mut self)
        requires
            square_wf(old(self).ch1),
            square_wf(old(self).ch2),
            old(self).ch4.volume <= 15,
        ensures
            final(self)@ == (GbaApuView {
                audio_buffer: old(self)@.audio_buffer.push(gba_mix_left(old(self)@)).push(gba_mix_right(old(self)@)),
                ..old(self)@
            }),
    {
        let (left, right) = self.mix_sample();
        self.audio_buffer.push(left);
        self.audio_buffer.push(right);
        assert(self@ =~~= GbaApuView {
            audio_buffer: old(self)@.audio_buffer.push(gba_mix_left(old(self)@)).push(gba_mix_right(old(self)@)),
            ..old(self)@
        });
    }

    /// The current stereo sample.
    fn mix_sample(&self) -> (lr: (i32, i32))
        requires
            square_wf(self.ch1),
            square_wf(self.ch2),
            self.ch4.volume <= 15,
        ensures
            lr.0 == gba_mix_left(self@),
            lr.1 == gba_mix_right(self@),
    {
        let l1 = self.ch1.output_level();
        let l2 = self.ch2.output_level();
        let l3 = self.ch3.output_level();
        let l4 = self.ch4.output_level();
        let nr51 = self.nr51;
        let nr50 = self.nr50;
        let cnt = self.soundcnt_h;
        assert((nr50 >> 4u8) & 7 <= 7 && nr50 & 7 <= 7) by {
            crate::bits::lemma_and_le_u8((nr50 >> 4u8), 7);
            crate::bits::lemma_and_le_u8(nr50, 7);
        }
        let q: i32 = match cnt & 3 {
            0 => 1,
            1 => 2,
            2 => 4,
            _ => 0,
        };
        let lsum = routed(nr51, l1, l2, l3, l4, 0x10, 0x20, 0x40, 0x80);
        let rsum = routed(nr51, l1, l2, l3, l4, 0x01, 0x02, 0x04, 0x08);
        let fa = if cnt & 0x04 != 0 { self.fifo_a_sample as i32 * 210 } else { self.fifo_a_sample as i32 * 105 };
        let fb = if cnt & 0x08 != 0 { self.fifo_b_sample as i32 * 210 } else { self.fifo_b_sample as i32 * 105 };
        assert(l1 == square_level(self.ch1) && l2 == square_level(self.ch2));
        assert(l3 == wave_level(self.ch3) && l4 == noise_level(self.ch4));
        assert(lsum == psg_sum(self@.psg, 0x10, 0x20, 0x40, 0x80));
        assert(rsum == psg_sum(self@.psg, 0x01, 0x02, 0x04, 0x08));
        assert(q == psg_quarters(cnt));
        assert(fa == fifo_part(self.fifo_a_sample, cnt, 0x04, 0x0200) || cnt & 0x0200 == 0);
        let left = side(lsum, ((nr50 >> 4u8) & 7) as i32, q, fa, fb, cnt & 0x0200 != 0, cnt & 0x2000 != 0);
        let right = side(rsum, (nr50 & 7) as i32, q, fa, fb, cnt & 0x0100 != 0, cnt & 0x1000 != 0);
        (left, right)
    }

    /// A timer overflow: the FIFOs tied to timer `timer_id` take their next sample.
    pub fn timer_overflow(&mut self, timer_id: usize)
        requires
            gba_apu_wf(old(self)@),
        ensures
            final(self)@ == gba_timer_overflow_spec(old(self)@, timer_id as int),
            gba_apu_wf(final(self)@),
            final(self).enabled == old(self).enabled,
            final(self).psg_cycle_accum == old(self).psg_cycle_accum,
            final(self).frame_sequencer == old(self).frame_sequencer,
    {
        let fifo_a_timer: usize = if self.soundcnt_h & 0x0400 != 0 { 1 } else { 0 };
        if timer_id == fifo_a_timer {
            self.fifo_a_sample = if self.fifo_a.len() > 0 {
                self.fifo_a.remove(0)
            } else {
                0
            };
        }
        let fifo_b_timer: usize = if self.soundcnt_h & 0x4000 != 0 { 1 } else { 0 };
        if timer_id == fifo_b_timer {
            self.fifo_b_sample = if self.fifo_b.len() > 0 {
                self.fifo_b.remove(0)
            } else {
                0
            };
        }
        assert(self@ =~~= gba_timer_overflow_spec(old(self)@, timer_id as int));
    }

    /// Pushes the four bytes of `val` to FIFO A (`fifo == 0`) or B, when
    /// fewer than 32 are queued.
    pub fn write_fifo(&mut self, fifo: usize, val: u32)
        requires
            gba_apu_wf(old(self)@),
        ensures
            fifo == 0 ==> final(self)@ == (GbaApuView { fifo_a: fifo_push_word(old(self)@.fifo_a, val), ..old(self)@ }),
            fifo != 0 ==> final(self)@ == (GbaApuView { fifo_b: fifo_push_word(old(self)@.fifo_b, val), ..old(self)@ }),
            gba_apu_wf(final(self)@),
    {
        if fifo == 0 {
            if self.fifo_a.len() < 32 {
                self.fifo_a.push(val as i8);
                self.fifo_a.push((val >> 8u32) as i8);
                self.fifo_a.push((val >> 16u32) as i8);
                self.fifo_a.push((val >> 24u32) as i8);
            }
        } else {
            if self.fifo_b.len() < 32 {
                self.fifo_b.push(val as i8);
                self.fifo_b.push((val >> 8u32) as i8);
                self.fifo_b.push((val >> 16u32) as i8);
                self.fifo_b.push((val >> 24u32) as i8);
            }
        }
        assert(self@.fifo_a =~= (if fifo == 0 { fifo_push_word(old(self)@.fifo_a, val) } else { old(self)@.fifo_a }));
        assert(self@.fifo_b =~= (if fifo != 0 { fifo_push_word(old(self)@.fifo_b, val) } else { old(self)@.fifo_b }));
    }

    /// Reads sound register `offset` (0x60-0xA7 of the I/O area).
    pub fn read_io(&self, offset: u32) -> (v: u8)
        ensures
            v == gba_apu_read_spec(self@, offset),
    {
        let (ch, reg) = psg_read_reg_exec(offset);
        if ch == 1 {
            read_square_gba(&self.ch1, reg)
        } else if ch == 2 {
            read_square_gba(&self.ch2, reg)
        } else if ch == 3 {
            let c = &self.ch3;
            if reg == 0 {
                (if c.dac_enabled { 0x80u8 } else { 0u8 }) | 0x7F
            } else if reg == 2 {
                (c.volume_code << 5u8) | 0x9F
            } else {
                (if c.length_enabled { 0x40u8 } else { 0u8 }) | 0xBF
            }
        } else if ch == 4 {
            let c = &self.ch4;
            if reg == 2 {
                (c.volume_initial << 4u8) | (if c.envelope_add { 0x08u8 } else { 0u8 }) | c.envelope_period
            } else if reg == 3 {
                (c.clock_shift << 4u8) | (if c.width_mode { 0x08u8 } else { 0u8 }) | c.divisor_code
            } else {
                (if c.length_enabled { 0x40u8 } else { 0u8 }) | 0xBF
            }
        } else if offset == 0x80 {
            self.nr50
        } else if offset == 0x81 {
            self.nr51
        } else if offset == 0x82 {
            self.soundcnt_h as u8
        } else if offset == 0x83 {
            (self.soundcnt_h >> 8u16) as u8
        } else if offset == 0x84 {
            (if self.enabled { 0x80u8 } else { 0u8 }) | (if self.ch1.enabled { 0x01u8 } else { 0u8 }) | (if self.ch2.enabled {
                0x02u8
            } else {
                0u8
            }) | (if self.ch3.enabled { 0x04u8 } else { 0u8 }) | (if self.ch4.enabled { 0x08u8 } else { 0u8 }) | 0x70
        } else if offset == 0x88 {
            self.soundbias as u8
        } else if offset == 0x89 {
            (self.soundbias >> 8u16) as u8
        } else if 0x90 <= offset && offset <= 0x9F {
            self.ch3.wave_ram[(offset - 0x90) as usize]
        } else {
            0
        }
    }

    /// Writes sound register `offset`.
    pub fn write_io(&mut self, offset: u32, val: u8)
        requires
            gba_apu_wf(old(self)@),
        ensures
            final(self)@ == gba_apu_write_spec(old(self)@, offset, val),
            gba_apu_wf(final(self)@),
    {
        let (ch, reg) = psg_write_reg_exec(offset);
        if ch == 1 {
            crate::apu::gbc_apu::write_square(&mut self.ch1, reg, val);
        } else if ch == 2 {
            crate::apu::gbc_apu::write_square(&mut self.ch2, reg, val);
        } else if ch == 3 {
            crate::apu::gbc_apu::write_wave(&mut self.ch3, reg, val);
        } else if ch == 4 {
            crate::apu::gbc_apu::write_noise(&mut self.ch4, reg, val);
        } else if offset == 0x80 {
            self.nr50 = val;
        } else if offset == 0x81 {
            self.nr51 = val;
        } else if offset == 0x82 {
            self.soundcnt_h = (self.soundcnt_h & 0xFF00) | val as u16;
        } else if offset == 0x83 {
            self.soundcnt_h = (self.soundcnt_h & 0x00FF) | ((val as u16) << 8u16);
            if val & 0x08 != 0 {
                self.fifo_a.clear();
                self.fifo_a_sample = 0;
            }
            if val & 0x80 != 0 {
                self.fifo_b.clear();
                self.fifo_b_sample = 0;
            }
        } else if offset == 0x84 {
            let was_enabled = self.enabled;
            self.enabled = val & 0x80 != 0;
            if was_enabled && !self.enabled {
                self.ch1 = SquareChannel::new();
                self.ch2 = SquareChannel::new();
                self.ch3.enabled = false;
                self.ch4 = NoiseChannel::new();
                self.nr50 = 0;
                self.nr51 = 0;
            }
        } else if offset == 0x88 {
            self.soundbias = (self.soundbias & 0xFF00) | val as u16;
        } else if offset == 0x89 {
            self.soundbias = (self.soundbias & 0x00FF) | ((val as u16) << 8u16);
        } else if 0x90 <= offset && offset <= 0x9F {
            self.ch3.wave_ram[(offset - 0x90) as usize] = val;
            assert(self.ch3.wave_ram =~= vstd::array::spec_array_update(
                old(self).ch3.wave_ram,
                (offset - 0x90) as int,
                val,
            ));
        } else if 0xA0 <= offset && offset <= 0xA3 {
            if self.fifo_a.len() < 32 {
                self.fifo_a.push(val as i8);
            }
        } else if 0xA4 <= offset && offset <= 0xA7 {
            if self.fifo_b.len() < 32 {
                self.fifo_b.push(val as i8);
            }
        }
        assert(self@ =~~= gba_apu_write_spec(old(self)@, offset, val));
    }
}

/// Frame-sequencer steps leave the cycle counter alone.
proof fn lemma_frame_steps_fs(p: GbcApuView, x: u32, m: nat)
    ensures
        frame_steps(GbcApuView { frame_sequencer: x, ..p }, m) == (GbcApuView {
            frame_sequencer: x,
            ..frame_steps(p, m)
        }),
    decreases m,
{
    if m > 0 {
        lemma_frame_steps_fs(p, x, (m - 1) as nat);
        assert(frame_steps(GbcApuView { frame_sequencer: x, ..p }, m) =~~= GbcApuView {
            frame_sequencer: x,
            ..frame_steps(p, m)
        });
    } else {
        assert(frame_steps(GbcApuView { frame_sequencer: x, ..p }, m) =~~= GbcApuView {
            frame_sequencer: x,
            ..frame_steps(p, m)
        });
    }
}

/// A frame-sequencer step keeps the channel ranges of the GBA unit.
proof fn lemma_frame_step_gba_wf(p: GbcApuView)
    requires
        square_wf(p.ch1),
        square_wf(p.ch2),
        p.ch3.frequency <= 2047,
        p.ch3.wave_pos < 32,
        p.ch4.clock_shift < 16,
        p.ch4.volume <= 15,
        p.ch4.volume_initial <= 15,
        p.frame_step < 8,
    ensures
        ({
            let q = frame_step_spec(p);
            &&& square_wf(q.ch1) && square_wf(q.ch2)
            &&& q.ch3.frequency <= 2047 && q.ch3.wave_pos < 32
            &&& q.ch4.clock_shift < 16 && q.ch4.volume <= 15 && q.ch4.volume_initial <= 15
            &&& q.frame_step < 8
            &&& q.frame_sequencer == p.frame_sequencer && q.sample_counter == p.sample_counter
            &&& q.sample_rate == p.sample_rate
        }),
{
    lemma_frame_step_wf(GbcApuView { frame_sequencer: 0, sample_counter: 0, sample_rate: 0, ..p });
}

/// The channel and register of a readable PSG register offset; channel 0
/// for other offsets.
fn psg_read_reg_exec(off: u32) -> (r: (u8, u16))
    ensures
        match psg_read_reg(off) {
            Some((ch, reg)) => r.0 == ch && r.1 == reg,
            None => r.0 == 0,
        },
{
    match off {
        0x60 => (1, 0),
        0x62 => (1, 1),
        0x63 => (1, 2),
        0x65 => (1, 4),
        0x68 => (2, 1),
        0x69 => (2, 2),
        0x6D => (2, 4),
        0x70 => (3, 0),
        0x73 => (3, 2),
        0x75 => (3, 4),
        0x79 => (4, 2),
        0x7C => (4, 3),
        0x7D => (4, 4),
        _ => (0, 0),
    }
}

/// The channel and register of a writable PSG register offset; channel 0
/// for other offsets.
fn psg_write_reg_exec(off: u32) -> (r: (u8, u16))
    ensures
        match psg_write_reg(off) {
            Some((ch, reg)) => r.0 == ch && r.1 == reg,
            None => r.0 == 0,
        },
{
    match off {
        0x60 => (1, 0),
        0x62 => (1, 1),
        0x63 => (1, 2),
        0x64 => (1, 3),
        0x65 => (1, 4),
        0x68 => (2, 1),
        0x69 => (2, 2),
        0x6C => (2, 3),
        0x6D => (2, 4),
        0x70 => (3, 0),
        0x72 => (3, 1),
        0x73 => (3, 2),
        0x74 => (3, 3),
        0x75 => (3, 4),
        0x78 => (4, 1),
        0x79 => (4, 2),
        0x7C => (4, 3),
        0x7D => (4, 4),
        _ => (0, 0),
    }
}

/// Reads register `reg` of a square channel.
fn read_square_gba(c: &SquareChannel, reg: u16) -> (v: u8)
    ensures
        v == square_read_spec(*c, reg),
{
    if reg == 0 {
        (c.sweep_period << 4u8) | (if c.sweep_negate { 0x08u8 } else { 0u8 }) | c.sweep_shift
    } else if reg == 1 {
        (c.duty << 6u8) | 0x3F
    } else if reg == 2 {
        (c.volume_initial << 4u8) | (if c.envelope_add { 0x08u8 } else { 0u8 }) | c.envelope_period
    } else if reg == 4 {
        (if c.length_enabled { 0x40u8 } else { 0u8 }) | 0xBF
    } else {
        0xFF
    }
}

/// The routed outputs of one side, in sixtieths: the square and noise
/// levels `l1`, `l2`, `l4` count four sixtieths each.
fn routed(nr51: u8, l1: u8, l2: u8, l3: i16, l4: u8, m1: u8, m2: u8, m3: u8, m4: u8) -> (s: i32)
    requires
        l1 <= 15,
        l2 <= 15,
        -1980 <= l3 <= 1980,
        l4 <= 15,
    ensures
        s == (if nr51 & m1 != 0 { 4 * l1 } else { 0 }) + (if nr51 & m2 != 0 { 4 * l2 } else { 0 }) + (if nr51 & m3
            != 0 {
            l3 as int
        } else {
            0
        }) + (if nr51 & m4 != 0 { 4 * l4 } else { 0 }),
        -1980 <= s <= 2160,
{
    let mut sum: i32 = 0;
    if nr51 & m1 != 0 {
        sum = sum + 4 * l1 as i32;
    }
    if nr51 & m2 != 0 {
        sum = sum + 4 * l2 as i32;
    }
    if nr51 & m3 != 0 {
        sum = sum + l3 as i32;
    }
    if nr51 & m4 != 0 {
        sum = sum + 4 * l4 as i32;
    }
    sum
}

/// One side of a sample: routed outputs times volume and PSG quarters,
/// plus the FIFO parts routed to it, clamped.
fn side(sum: i32, vol: i32, q: i32, fa: i32, fb: i32, use_a: bool, use_b: bool) -> (r: i32)
    requires
        -1980 <= sum <= 2160,
        0 <= vol <= 7,
        0 <= q <= 4,
        -26880 <= fa <= 26880,
        -26880 <= fb <= 26880,
    ensures
        r == clamp_mix(sum * vol * q * 4 + (if use_a { fa as int } else { 0 }) + (if use_b { fb as int } else { 0 })),
{
    assert(-1980 * 7 <= sum * vol <= 2160 * 7 && -1980 * 28 <= sum * vol * q <= 2160 * 28 && -1980 * 112
        <= sum * vol * q * 4 <= 2160 * 112) by (nonlinear_arith)
        requires
            -1980 <= sum <= 2160,
            0 <= vol <= 7,
            0 <= q <= 4,
    ;
    let p = sum * vol * q * 4;
    let a = if use_a { fa } else { 0 };
    let b = if use_b { fb } else { 0 };
    clamp_exec(p + a + b)
}

/// `v` clamped to the sample range.
fn clamp_exec(v: i32) -> (r: i32)
    ensures
        r == clamp_mix(v as int),
{
    if v > MIX_SCALE {
        MIX_SCALE
    } else if v < -MIX_SCALE {
        -MIX_SCALE
    } else {
        v
    }
}

} // verus!
