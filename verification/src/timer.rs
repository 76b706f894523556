use vstd::prelude::*;

verus! {

// ---------------------------------------------------------------------------
// Game Boy Color timer
// ---------------------------------------------------------------------------

/// The Game Boy Color divider and timer.
#[derive(Debug, Clone, Copy)]
pub struct GbcTimer {
    /// Internal 16-bit counter; DIV is its upper byte.
    pub div: u16,
    pub tima: u8,
    pub tma: u8,
    pub tac: u8,
}

/// The divider bit whose falling edge clocks TIMA for a TAC frequency setting.
pub open spec fn tac_bit(tac: u8) -> u16 {
    let f = tac & 0x03;
    if f == 0 {
        9
    } else if f == 1 {
        3
    } else if f == 2 {
        5
    } else {
        7
    }
}

/// One machine cycle: the divider counts; when enabled, a falling edge of
/// the selected divider bit increments TIMA, which reloads from TMA and
/// requests an interrupt when it overflows.
pub open spec fn gbc_timer_step(t: GbcTimer) -> (GbcTimer, bool) {
    let div = t.div.wrapping_add(1);
    if t.tac & 0x04 != 0 && (t.div >> tac_bit(t.tac)) & 1 == 1 && (div >> tac_bit(t.tac)) & 1 == 0 {
        if t.tima == 0xFF {
            (GbcTimer { div, tima: t.tma, ..t }, true)
        } else {
            (GbcTimer { div, tima: (t.tima + 1) as u8, ..t }, false)
        }
    } else {
        (GbcTimer { div, ..t }, false)
    }
}

/// `n` cycles: the timer after them and whether any requested an interrupt.
pub open spec fn gbc_timer_run(t: GbcTimer, n: nat) -> (GbcTimer, bool)
    decreases n,
{
    if n == 0 {
        (t, false)
    } else {
        let (t1, i1) = gbc_timer_run(t, (n - 1) as nat);
        let (t2, i2) = gbc_timer_step(t1);
        (t2, i1 || i2)
    }
}

/// What a read of timer register `addr` returns.
pub open spec fn gbc_timer_read_spec(t: GbcTimer, addr: u16) -> u8 {
    if addr == 0xFF04 {
        (t.div >> 8u16) as u8
    } else if addr == 0xFF05 {
        t.tima
    } else if addr == 0xFF06 {
        t.tma
    } else if addr == 0xFF07 {
        t.tac | 0xF8
    } else {
        0xFF
    }
}

/// The timer after a write of `val` to register `addr` (any write to DIV
/// clears the counter).
pub open spec fn gbc_timer_write_spec(t: GbcTimer, addr: u16, val: u8) -> GbcTimer {
    if addr == 0xFF04 {
        GbcTimer { div: 0, ..t }
    } else if addr == 0xFF05 {
        GbcTimer { tima: val, ..t }
    } else if addr == 0xFF06 {
        GbcTimer { tma: val, ..t }
    } else if addr == 0xFF07 {
        GbcTimer { tac: val & 0x07, ..t }
    } else {
        t
    }
}

impl GbcTimer {
    pub fn new() -> (t: Self)
        ensures
            t.div == 0 && t.tima == 0 && t.tma == 0 && t.tac == 0,
    {
        GbcTimer { div: 0, tima: 0, tma: 0, tac: 0 }
    }

    fn step(&mut self) -> (irq: bool)
        ensures
            (*final(self), irq) == gbc_timer_step(*old(self)),
    {
        let old_div = self.div;
        self.div = self.div.wrapping_add(1);
        if self.tac & 0x04 != 0 {
            let bit: u16 = match self.tac & 0x03 {
                0 => 9,
                1 => 3,
                2 => 5,
                _ => 7,
            };
            assert(bit == tac_bit(self.tac));
            // Falling edge
            let old_bit = (old_div >> bit) & 1;
            let new_bit = (self.div >> bit) & 1;
            if old_bit == 1 && new_bit == 0 {
                if self.tima == 0xFF {
                    self.tima = self.tma;
                    return true;
                } else {
                    self.tima = self.tima + 1;
                }
            }
        }
        false
    }

    /// Runs `cycles` machine cycles; returns whether the timer requested an
    /// interrupt in any of them.
    pub fn tick(&mut self, cycles: u32) -> (irq: bool)
        ensures
            (*final(self), irq) == gbc_timer_run(*old(self), cycles as nat),
    {
        let mut irq = false;
        let mut i: u32 = 0;
        while i < cycles
            invariant
                i <= cycles,
                (*self, irq) == gbc_timer_run(*old(self), i as nat),
            decreases cycles - i,
        {
            let fired = self.step();
            irq = irq || fired;
            i = i + 1;
        }
        irq
    }

    /// Reads DIV, TIMA, TMA or TAC (unused TAC bits read as 1).
    pub fn read(&self, addr: u16) -> (v: u8)
        ensures
            v == gbc_timer_read_spec(*self, addr),
    {
        match addr {
            0xFF04 => (self.div >> 8u16) as u8,
            0xFF05 => self.tima,
            0xFF06 => self.tma,
            0xFF07 => self.tac | 0xF8,
            _ => 0xFF,
        }
    }

    /// Writes DIV (clearing it), TIMA, TMA or TAC.
    pub fn write(&mut self, addr: u16, val: u8)
        ensures
            *final(self) == gbc_timer_write_spec(*old(self), addr, val),
    {
        match addr {
            0xFF04 => self.div = 0,
            0xFF05 => self.tima = val,
            0xFF06 => self.tma = val,
            0xFF07 => self.tac = val & 0x07,
            _ => {},
        }
    }
}

impl Default for GbcTimer {
    fn default() -> (t: Self)
        ensures
            t.div == 0 && t.tima == 0 && t.tma == 0 && t.tac == 0,
    {
        Self::new()
    }
}

/// The divider counts every cycle: after `n` cycles it has advanced by `n`
/// (modulo 2^16), whatever the timer setting.
pub proof fn lemma_gbc_div_counts_cycles(t: GbcTimer, n: nat)
    ensures
        gbc_timer_run(t, n).0.div == (t.div + n) % 0x1_0000,
    decreases n,
{
    if n > 0 {
        lemma_gbc_div_counts_cycles(t, (n - 1) as nat);
    }
}

/// TIMA, TMA and the three TAC bits read back what was written.
pub proof fn lemma_gbc_timer_write_read(t: GbcTimer, addr: u16, val: u8)
    requires
        addr == 0xFF05 || addr == 0xFF06 || addr == 0xFF07,
    ensures
        gbc_timer_read_spec(gbc_timer_write_spec(t, addr, val), addr) == if addr == 0xFF07 {
            (val & 0x07) | 0xF8
        } else {
            val
        },
{
}

// ---------------------------------------------------------------------------
// Game Boy Advance timers
// ---------------------------------------------------------------------------

/// One of the four Game Boy Advance timers.
#[derive(Debug, Clone, Copy)]
pub struct GbaTimer {
    pub counter: u16,
    pub reload: u16,
    pub control: u16,
    pub prescaler: u16,
    pub internal_counter: u32,
    pub enabled: bool,
    pub cascade: bool,
    pub irq_enabled: bool,
}

impl GbaTimer {
    pub fn new() -> (t: Self)
        ensures
            t.counter == 0 && t.reload == 0 && t.control == 0 && t.prescaler == 1,
            t.internal_counter == 0 && !t.enabled && !t.cascade && !t.irq_enabled,
    {
        GbaTimer {
            counter: 0,
            reload: 0,
            control: 0,
            prescaler: 1,
            internal_counter: 0,
            enabled: false,
            cascade: false,
            irq_enabled: false,
        }
    }
}

/// The four timers.
pub struct GbaTimers {
    pub timers: [GbaTimer; 4],
}

/// `k` counter increments: the counter wraps to the reload value; whether
/// it overflowed at least once.
pub open spec fn count_up(counter: u16, reload: u16, k: nat) -> (u16, bool)
    decreases k,
{
    if k == 0 {
        (counter, false)
    } else {
        let (c, o) = count_up(counter, reload, (k - 1) as nat);
        if c == 0xFFFF {
            (reload, true)
        } else {
            ((c + 1) as u16, o)
        }
    }
}

/// Whether timer `i` counts prescaled cycles (enabled, not cascading).
pub open spec fn counts_cycles(t: GbaTimer, i: int) -> bool {
    t.enabled && !(t.cascade && i > 0)
}

/// One timer over `cycles` cycles, given whether the previous timer
/// overflowed: the timer after, whether it overflowed, and whether it
/// requests its interrupt.
pub open spec fn gba_timer_tick_spec(t: GbaTimer, i: int, prev_overflow: bool, cycles: u32) -> (GbaTimer, bool, bool) {
    if !t.enabled {
        (t, false, false)
    } else if t.cascade && i > 0 {
        if prev_overflow {
            let (c, o) = count_up(t.counter, t.reload, 1);
            (GbaTimer { counter: c, ..t }, o, o && t.irq_enabled)
        } else {
            (t, false, false)
        }
    } else {
        let total = t.internal_counter + cycles;
        let (c, o) = count_up(t.counter, t.reload, (total / (t.prescaler as int)) as nat);
        (GbaTimer { counter: c, internal_counter: (total % (t.prescaler as int)) as u32, ..t }, o, o && t.irq_enabled)
    }
}

/// What ticking the timers must not meet: a zero prescaler on a counting
/// timer, or its cycle accumulator overflowing.
pub open spec fn gba_tick_defined(ts: Seq<GbaTimer>, cycles: u32) -> bool {
    forall|i: int|
        0 <= i < 4 && counts_cycles(#[trigger] ts[i], i) ==> ts[i].prescaler > 0 && ts[i].internal_counter
            + cycles <= u32::MAX
}

/// The interrupt bit (IE/IF) of timer `i`.
pub open spec fn timer_irq_bit(i: int, fired: bool) -> u16 {
    if fired {
        (1u16 << ((3 + i) as u16))
    } else {
        0
    }
}

/// Four stopped timers with cleared registers.
pub open spec fn gba_timers_at_reset(t: GbaTimers) -> bool {
    &&& forall|i: int|
        0 <= i < 4 ==> (#[trigger] t.timers[i]).counter == 0 && t.timers[i].reload == 0
            && t.timers[i].control == 0 && t.timers[i].prescaler == 1 && t.timers[i].internal_counter
            == 0 && !t.timers[i].enabled && !t.timers[i].cascade && !t.timers[i].irq_enabled
}

impl GbaTimers {
    pub fn new() -> (t: Self)
        ensures
            gba_timers_at_reset(t),
    {
        GbaTimers { timers: [GbaTimer::new(), GbaTimer::new(), GbaTimer::new(), GbaTimer::new()] }
    }

    fn tick_one(&mut self, i: usize, prev_overflow: bool, cycles: u32) -> (r: (bool, bool))
        requires
            i < 4,
            counts_cycles(old(self).timers[i as int], i as int) ==> old(self).timers[i as int].prescaler > 0
                && old(self).timers[i as int].internal_counter + cycles <= u32::MAX,
        ensures
            final(self).timers@ == old(self).timers@.update(
                i as int,
                gba_timer_tick_spec(old(self).timers[i as int], i as int, prev_overflow, cycles).0,
            ),
            r == (
                gba_timer_tick_spec(old(self).timers[i as int], i as int, prev_overflow, cycles).1,
                gba_timer_tick_spec(old(self).timers[i as int], i as int, prev_overflow, cycles).2,
            ),
    {
        if !self.timers[i].enabled {
            return (false, false);
        }
        if self.timers[i].cascade && i > 0 {
            if prev_overflow {
                assert(count_up(self.timers[i as int].counter, self.timers[i as int].reload, 0) == (
                self.timers[i as int].counter, false));
                if self.timers[i].counter == 0xFFFF {
                    self.timers[i].counter = self.timers[i].reload;
                    let irq = self.timers[i].irq_enabled;
                    return (true, irq);
                } else {
                    self.timers[i].counter = self.timers[i].counter + 1;
                }
            }
            return (false, false);
        }
        let ghost t0 = self.timers[i as int];
        self.timers[i].internal_counter = self.timers[i].internal_counter + cycles;
        let prescaler = self.timers[i].prescaler as u32;
        let ghost total = t0.internal_counter + cycles;
        let mut overflow = false;
        let ghost mut k: nat = 0;
        while self.timers[i].internal_counter >= prescaler
            invariant
                i < 4,
                prescaler == t0.prescaler,
                prescaler > 0,
                self.timers@ == old(self).timers@.update(i as int, self.timers[i as int]),
                self.timers[i as int] == (GbaTimer {
                    counter: self.timers[i as int].counter,
                    internal_counter: self.timers[i as int].internal_counter,
                    ..t0
                }),
                self.timers[i as int].internal_counter + k * prescaler == total,
                (self.timers[i as int].counter, overflow) == count_up(t0.counter, t0.reload, k),
            decreases self.timers[i as int].internal_counter,
        {
            self.timers[i].internal_counter = self.timers[i].internal_counter - prescaler;
            if self.timers[i].counter == 0xFFFF {
                self.timers[i].counter = self.timers[i].reload;
                overflow = true;
            } else {
                self.timers[i].counter = self.timers[i].counter + 1;
            }
            proof {
                let k0 = k;
                k = k + 1;
                assert(k * prescaler == k0 * prescaler + prescaler) by (nonlinear_arith)
                    requires
                        k == k0 + 1,
                ;
            }
        }
        proof {
            let ic = self.timers[i as int].internal_counter as int;
            let p = prescaler as int;
            assert(total / p == k && total % p == ic) by (nonlinear_arith)
                requires
                    ic + k * p == total,
                    0 <= ic < p,
                    p > 0,
            ;
        }
        let irq = overflow && self.timers[i].irq_enabled;
        (overflow, irq)
    }

    /// Runs the timers for `cycles` cycles, in order so that a cascading
    /// timer sees its predecessor's overflow. Returns the interrupt request
    /// bits and which timers overflowed.
    pub fn tick(&mut self, cycles: u32) -> (r: (u16, [bool; 4]))
        requires
            gba_tick_defined(old(self).timers@, cycles),
        ensures
            ({
                let (t0, o0, q0) = gba_timer_tick_spec(old(self).timers[0], 0, false, cycles);
                let (t1, o1, q1) = gba_timer_tick_spec(old(self).timers[1], 1, o0, cycles);
                let (t2, o2, q2) = gba_timer_tick_spec(old(self).timers[2], 2, o1, cycles);
                let (t3, o3, q3) = gba_timer_tick_spec(old(self).timers[3], 3, o2, cycles);
                &&& final(self).timers@ == seq![t0, t1, t2, t3]
                &&& r.0 == timer_irq_bit(0, q0) | timer_irq_bit(1, q1) | timer_irq_bit(2, q2) | timer_irq_bit(3, q3)
                &&& r.1@ == seq![o0, o1, o2, o3]
            }),
    {
        assert(counts_cycles(self.timers[0], 0) ==> self.timers[0].prescaler > 0);
        assert(counts_cycles(self.timers[1], 1) ==> self.timers[1].prescaler > 0);
        assert(counts_cycles(self.timers[2], 2) ==> self.timers[2].prescaler > 0);
        assert(counts_cycles(self.timers[3], 3) ==> self.timers[3].prescaler > 0);
        let (o0, q0) = self.tick_one(0, false, cycles);
        let (o1, q1) = self.tick_one(1, o0, cycles);
        let (o2, q2) = self.tick_one(2, o1, cycles);
        let (o3, q3) = self.tick_one(3, o2, cycles);
        let b0: u16 = if q0 { 0x08 } else { 0 };
        let b1: u16 = if q1 { 0x10 } else { 0 };
        let b2: u16 = if q2 { 0x20 } else { 0 };
        let b3: u16 = if q3 { 0x40 } else { 0 };
        assert(1u16 << 3u16 == 0x08 && 1u16 << 4u16 == 0x10 && 1u16 << 5u16 == 0x20 && 1u16 << 6u16 == 0x40) by (bit_vector);
        let overflow = [o0, o1, o2, o3];
        assert(self.timers@ =~= seq![self.timers[0], self.timers[1], self.timers[2], self.timers[3]]);
        assert(overflow@ =~= seq![o0, o1, o2, o3]);
        (b0 | b1 | b2 | b3, overflow)
    }
}


/// The prescaler of a control value (bits 0-1): 1, 64, 256 or 1024 cycles.
pub open spec fn prescaler_of(control: u16) -> u16 {
    let p = control & 3;
    if p == 0 {
        1
    } else if p == 1 {
        64
    } else if p == 2 {
        256
    } else {
        1024
    }
}

/// A timer after its control register became `control`: enable (bit 7),
/// cascade (bit 2), interrupt (bit 6) and prescaler follow it, and a timer
/// that was off and is now on starts from its reload value.
pub open spec fn control_spec(t: GbaTimer, control: u16) -> GbaTimer {
    let enabled = control & 0x80 != 0;
    let t1 = GbaTimer {
        control,
        enabled,
        cascade: control & 0x04 != 0,
        irq_enabled: control & 0x40 != 0,
        prescaler: prescaler_of(control),
        ..t
    };
    if !t.enabled && enabled {
        GbaTimer { counter: t.reload, internal_counter: 0, ..t1 }
    } else {
        t1
    }
}

/// What a read of timer I/O byte `offset` (0x100-0x10F) returns: the
/// counter and the control register, low byte first.
pub open spec fn gba_timers_read_spec(ts: Seq<GbaTimer>, offset: u32) -> u8 {
    let idx = (offset - 0x100) / 4;
    let reg = (offset - 0x100) % 4;
    if idx >= 4 {
        0
    } else if reg == 0 {
        ts[idx].counter as u8
    } else if reg == 1 {
        (ts[idx].counter >> 8u16) as u8
    } else if reg == 2 {
        ts[idx].control as u8
    } else {
        (ts[idx].control >> 8u16) as u8
    }
}

/// The timers after a write of `val` to I/O byte `offset`: the reload value
/// or the control register, one byte of it.
pub open spec fn gba_timers_write_spec(ts: Seq<GbaTimer>, offset: u32, val: u8) -> Seq<GbaTimer> {
    let idx = (offset - 0x100) / 4;
    let reg = (offset - 0x100) % 4;
    if idx >= 4 {
        ts
    } else {
        let t = ts[idx];
        ts.update(
            idx,
            if reg == 0 {
                GbaTimer { reload: (t.reload & 0xFF00) | (val as u16), ..t }
            } else if reg == 1 {
                GbaTimer { reload: (t.reload & 0x00FF) | ((val as u16) << 8u16), ..t }
            } else if reg == 2 {
                control_spec(t, (t.control & 0xFF00) | (val as u16))
            } else {
                control_spec(t, (t.control & 0x00FF) | ((val as u16) << 8u16))
            },
        )
    }
}

impl GbaTimers {
    /// Reads timer I/O byte `offset` (offsets from 0x0400_0000).
    pub fn read(&self, offset: u32) -> (v: u8)
        requires
            offset >= 0x100,
        ensures
            v == gba_timers_read_spec(self.timers@, offset),
    {
        let timer_idx = ((offset - 0x100) / 4) as usize;
        let reg = (offset - 0x100) % 4;
        if timer_idx >= 4 {
            return 0;
        }
        if reg == 0 {
            self.timers[timer_idx].counter as u8
        } else if reg == 1 {
            (self.timers[timer_idx].counter >> 8u16) as u8
        } else if reg == 2 {
            self.timers[timer_idx].control as u8
        } else {
            (self.timers[timer_idx].control >> 8u16) as u8
        }
    }

    /// Writes timer I/O byte `offset`.
    pub fn write(&mut self, offset: u32, val: u8)
        requires
            offset >= 0x100,
        ensures
            final(self).timers@ == gba_timers_write_spec(old(self).timers@, offset, val),
    {
        let timer_idx = ((offset - 0x100) / 4) as usize;
        let reg = (offset - 0x100) % 4;
        if timer_idx >= 4 {
            return;
        }
        if reg == 0 {
            self.timers[timer_idx].reload = (self.timers[timer_idx].reload & 0xFF00) | val as u16;
        } else if reg == 1 {
            self.timers[timer_idx].reload = (self.timers[timer_idx].reload & 0x00FF) | ((val as u16) << 8u16);
        } else if reg == 2 {
            let old_enabled = self.timers[timer_idx].enabled;
            let control = (self.timers[timer_idx].control & 0xFF00) | val as u16;
            self.timers[timer_idx].control = control;
            self.update_timer_control(timer_idx, old_enabled);
        } else {
            let old_enabled = self.timers[timer_idx].enabled;
            let control = (self.timers[timer_idx].control & 0x00FF) | ((val as u16) << 8u16);
            self.timers[timer_idx].control = control;
            self.update_timer_control(timer_idx, old_enabled);
        }
        assert(self.timers@ =~= gba_timers_write_spec(old(self).timers@, offset, val));
    }

    fn update_timer_control(&mut self, idx: usize, old_enabled: bool)
        requires
            idx < 4,
        ensures
            final(self).timers@ == old(self).timers@.update(
                idx as int,
                control_spec(
                    GbaTimer { enabled: old_enabled, ..old(self).timers[idx as int] },
                    old(self).timers[idx as int].control,
                ),
            ),
    {
        let control = self.timers[idx].control;
        self.timers[idx].enabled = control & 0x80 != 0;
        self.timers[idx].cascade = control & 0x04 != 0;
        self.timers[idx].irq_enabled = control & 0x40 != 0;
        self.timers[idx].prescaler = if control & 3 == 0 {
            1
        } else if control & 3 == 1 {
            64
        } else if control & 3 == 2 {
            256
        } else {
            1024
        };
        // A timer that is switched on starts from its reload value.
        if !old_enabled && self.timers[idx].enabled {
            self.timers[idx].counter = self.timers[idx].reload;
            self.timers[idx].internal_counter = 0;
        }
        assert(self.timers@ =~= old(self).timers@.update(
            idx as int,
            control_spec(
                GbaTimer { enabled: old_enabled, ..old(self).timers[idx as int] },
                old(self).timers[idx as int].control,
            ),
        ));
    }
}

/// Switching a timer on (writing a control byte with bit 7 to a stopped
/// timer) starts its counter from the reload value, which the counter
/// registers then read back.
pub proof fn lemma_gba_timer_start_loads_reload(ts: Seq<GbaTimer>, i: int, val: u8)
    requires
        ts.len() == 4,
        0 <= i < 4,
        !ts[i].enabled,
        val & 0x80 != 0,
    ensures
        gba_timers_write_spec(ts, (0x102 + 4 * i) as u32, val)[i].counter == ts[i].reload,
        gba_timers_write_spec(ts, (0x102 + 4 * i) as u32, val)[i].enabled,
        gba_timers_read_spec(gba_timers_write_spec(ts, (0x102 + 4 * i) as u32, val), (0x100 + 4 * i) as u32)
            == ts[i].reload as u8,
{
    let hi = ts[i].control & 0xFF00;
    let tc = ts[i].control;
    let c = hi | (val as u16);
    assert(hi & 0xFF == 0 && c & 0x80 != 0) by (bit_vector)
        requires
            hi == tc & 0xFF00,
            c == hi | (val as u16),
            val & 0x80 != 0,
    ;
    assert((0x102 + 4 * i - 0x100) / 4 == i && (0x102 + 4 * i - 0x100) % 4 == 2);
    assert((0x100 + 4 * i - 0x100) / 4 == i && (0x100 + 4 * i - 0x100) % 4 == 0);
}

/// The prescaler is never zero after a control write, and the reload bytes
/// read back through the reload register as written.
pub proof fn lemma_gba_timer_prescaler_positive(t: GbaTimer, control: u16)
    ensures
        control_spec(t, control).prescaler >= 1,
{
}

} // verus!
