use vstd::prelude::*;

use crate::cartridge::GbaCartridge;
use crate::cpu::arm7tdmi::{advanced, fetch, irq_spec, step_defined, step_spec, swi_bus, Arm7Tdmi, ArmState};
use crate::memory::gba_bus::{eeprom_ok, gba_bus_inv, gba_bus_tick_spec, GbaBus, GbaBusView};
use crate::ppu::gba_ppu::GbaPpuView;
use crate::save::{any_repaired, palette_has_dup_spec, repair_spec};
use crate::{GBA_HEIGHT, GBA_WIDTH};

verus! {

/// CPU cycles in one frame: 228 lines of 1232 cycles.
pub const GBA_CYCLES_PER_FRAME: u32 = 280896;

/// A Game Boy Advance: the CPU on its bus.
pub struct GbaEmulator {
    pub cpu: Arm7Tdmi,
    pub bus: GbaBus,
    pub frame_cycles: u32,
    pub total_frames: u64,
    pub repair_legacy_palette_state: bool,
}

/// Where a frame has got to: the CPU, the bus, the cycles run, and whether
/// it stopped early.
pub struct GbaFrameState {
    pub cpu: ArmState,
    pub bus: GbaBusView,
    pub frame_cycles: u32,
    pub stopped: bool,
}

/// What precedes each step: a HALTCNT write halts the CPU (and is
/// consumed), then an enabled pending interrupt is taken.
pub open spec fn gba_pre_step(cpu: ArmState, bus: GbaBusView) -> (ArmState, GbaBusView) {
    let (c1, b1) = if bus.halt {
        (ArmState { halted: true, ..cpu }, GbaBusView { halt: false, ..bus })
    } else {
        (cpu, bus)
    };
    (if b1.ime && b1.ie & b1.iflag != 0 { irq_spec(c1) } else { c1 }, b1)
}

/// One step within a frame: after `gba_pre_step`, the CPU steps and the
/// bus devices run for the cycles it took. The frame stops when the CPU's
/// cycle counter nears its limit, at an instruction the core cannot run
/// (the bus as after its fetch), or when a step takes no cycles or too many
/// for the devices.
#[verifier::opaque]
pub open spec fn gba_emu_step(s: GbaFrameState) -> GbaFrameState {
    let (c, b) = gba_pre_step(s.cpu, s.bus);
    if c.cycles > u64::MAX - 0xFFFF_FFFF {
        GbaFrameState { cpu: c, bus: b, frame_cycles: s.frame_cycles, stopped: true }
    } else if !step_defined(c, b) {
        GbaFrameState { cpu: c, bus: swi_bus(advanced(c), fetch(c, b).1), frame_cycles: s.frame_cycles, stopped: true }
    } else {
        let (c2, b2, cycles) = step_spec(c, b);
        if cycles == 0 || cycles > 0xFFF0_0000 {
            GbaFrameState { cpu: c2, bus: b2, frame_cycles: s.frame_cycles, stopped: true }
        } else {
            GbaFrameState {
                cpu: c2,
                bus: gba_bus_tick_spec(b2, cycles),
                frame_cycles: (s.frame_cycles + cycles) as u32,
                stopped: false,
            }
        }
    }
}

/// Steps until the frame's cycles reach a frame (at most `fuel` steps) or
/// the frame stops.
pub open spec fn gba_run(s: GbaFrameState, fuel: nat) -> GbaFrameState
    decreases fuel,
{
    if fuel == 0 || s.stopped || s.frame_cycles >= GBA_CYCLES_PER_FRAME {
        s
    } else {
        gba_run(gba_emu_step(s), (fuel - 1) as nat)
    }
}

/// The frame that `run_frame` runs from `cpu` and `bus`, before the
/// palette repair.
pub open spec fn gba_frame_spec(cpu: ArmState, bus: GbaBusView) -> GbaFrameState {
    gba_run(GbaFrameState { cpu, bus, frame_cycles: 0, stopped: false }, GBA_CYCLES_PER_FRAME as nat + 1)
}

/// The bus after the end-of-frame palette repair: banks in lost-halfword
/// form restored from work RAM, when any bank is in that form.
pub open spec fn gba_repaired_bus(b: GbaBusView) -> GbaBusView {
    if palette_has_dup_spec(b.ppu.palette) {
        let r = repair_spec(b.ewram, b.ppu.palette);
        GbaBusView { ewram: r.ewram, ppu: GbaPpuView { palette: r.palette, ..b.ppu }, ..b }
    } else {
        b
    }
}

/// Whether the end-of-frame repair restored a bank.
pub open spec fn gba_repair_happened(b: GbaBusView) -> bool {
    palette_has_dup_spec(b.ppu.palette) && any_repaired(repair_spec(b.ewram, b.ppu.palette).repaired)
}

/// The emulator's bus is well formed.
pub open spec fn gba_emu_wf(e: GbaEmulator) -> bool {
    gba_bus_inv(&e.bus)
}

impl GbaEmulator {
    /// A machine at reset with `cart` inserted.
    pub fn new(cart: GbaCartridge) -> (e: Self)
        requires
            eeprom_ok(cart@.eeprom),
        ensures
            gba_emu_wf(e),
            crate::cpu::arm7tdmi::entry_state(e.cpu),
            e.bus.cart == cart,
            e.bus@.ewram == Seq::new(crate::memory::gba_bus::EWRAM_SIZE as nat, |i: int| 0u8),
            e.bus@.iwram == Seq::new(crate::memory::gba_bus::IWRAM_SIZE as nat, |i: int| 0u8),
            e.bus@.io == Seq::new(crate::memory::gba_bus::GBA_IO_SIZE as nat, |i: int| 0u8),
            e.bus@.bios == crate::memory::gba_bus::gba_hle_bios(),
            e.bus.ie == 0 && e.bus.iflag == 0 && !e.bus.ime && e.bus.waitcnt == 0 && !e.bus.halt && e.bus.post_boot,
            e.bus.last_bios_value == 0,
            crate::ppu::gba_ppu::gba_ppu_at_reset(e.bus.ppu),
            crate::apu::gba_apu::gba_apu_at_reset(e.bus.apu),
            crate::timer::gba_timers_at_reset(e.bus.timers),
            crate::dma::gba_dma_at_reset(e.bus.dma),
            e.bus.input.keyinput == 0x03FF && e.bus.input.keycnt == 0,
            e.frame_cycles == 0,
            e.total_frames == 0,
            !e.repair_legacy_palette_state,
    {
        GbaEmulator {
            cpu: Arm7Tdmi::new(),
            bus: GbaBus::new(cart),
            frame_cycles: 0,
            total_frames: 0,
            repair_legacy_palette_state: false,
        }
    }

    /// Runs one frame (280896 cycles) and returns the picture. Each step
    /// first hands a HALTCNT write to the CPU and takes a pending
    /// interrupt; a frame ends early at an instruction the core cannot run
    /// or when a counter would overflow. After the frame, palette banks in
    /// lost-halfword form are repaired from work RAM when possible.
    pub fn run_frame(&mut self) -> (fb: &[u32])
        requires
            gba_emu_wf(*old(self)),
            old(self).total_frames < u64::MAX,
        ensures
            gba_emu_wf(*final(self)),
            ({
                let f = gba_frame_spec(old(self).cpu@, old(self).bus@);
                &&& final(self).cpu@ == f.cpu
                &&& final(self).bus@ == gba_repaired_bus(f.bus)
                &&& fb@ == f.bus.picture
                &&& final(self).frame_cycles == f.frame_cycles
                &&& final(self).repair_legacy_palette_state == (old(self).repair_legacy_palette_state
                    || gba_repair_happened(f.bus))
            }),
            final(self).total_frames == old(self).total_frames + 1,
            fb@ == final(self).bus.ppu.framebuffer@,
    {
        self.frame_cycles = 0;
        let ghost s0 = GbaFrameState { cpu: self.cpu@, bus: self.bus@, frame_cycles: 0, stopped: false };
        let ghost fuel: nat = GBA_CYCLES_PER_FRAME as nat + 1;
        let ghost mut k: nat = 0;
        let ghost mut stopped = false;
        loop
            invariant_except_break
                self.frame_cycles < GBA_CYCLES_PER_FRAME + 0xFFF0_0000,
                k <= self.frame_cycles,
                !stopped,
            invariant
                gba_emu_wf(*self),
                self.total_frames == old(self).total_frames,
                old(self).total_frames < u64::MAX,
                self.repair_legacy_palette_state == old(self).repair_legacy_palette_state,
                k <= fuel,
                fuel == GBA_CYCLES_PER_FRAME as nat + 1,
                s0 == (GbaFrameState { cpu: old(self).cpu@, bus: old(self).bus@, frame_cycles: 0, stopped: false }),
                gba_run(
                    GbaFrameState { cpu: self.cpu@, bus: self.bus@, frame_cycles: self.frame_cycles, stopped },
                    (fuel - k) as nat,
                ) == gba_run(s0, fuel),
            ensures
                gba_emu_wf(*self),
                self.total_frames == old(self).total_frames,
                old(self).total_frames < u64::MAX,
                self.repair_legacy_palette_state == old(self).repair_legacy_palette_state,
                gba_run(s0, fuel) == (GbaFrameState {
                    cpu: self.cpu@,
                    bus: self.bus@,
                    frame_cycles: self.frame_cycles,
                    stopped,
                }),
            decreases GBA_CYCLES_PER_FRAME + 0xFFF0_0000 - self.frame_cycles,
        {
            let ghost cur = GbaFrameState { cpu: self.cpu@, bus: self.bus@, frame_cycles: self.frame_cycles, stopped };
            if self.frame_cycles >= GBA_CYCLES_PER_FRAME {
                break;
            }
            assert(fuel - k > 0);
            assert(gba_run(cur, (fuel - k) as nat) == gba_run(gba_emu_step(cur), (fuel - k - 1) as nat));
            let stop = self.frame_step();
            proof {
                k = k + 1;
            }
            if stop {
                proof {
                    stopped = true;
                }
                break;
            }
        }
        self.total_frames = self.total_frames + 1;
        let ghost f = gba_run(s0, fuel);
        assert(f == gba_frame_spec(old(self).cpu@, old(self).bus@));
        assert(f.bus == self.bus@);
        if crate::save::gba_palette_has_duplicated_banks(self) {
            let repaired = self.repair_gba_palette_state_if_needed();
            self.repair_legacy_palette_state = self.repair_legacy_palette_state || repaired;
            assert(self.bus@ =~~= gba_repaired_bus(f.bus));
        }
        self.bus.ppu.framebuffer.as_slice()
    }

    /// One step of the frame (`gba_emu_step`); whether the frame stops.
    #[verifier::spinoff_prover]
    #[verifier::rlimit(60)]
    fn frame_step(&mut self) -> (stop: bool)
        requires
            gba_emu_wf(*old(self)),
            old(self).frame_cycles < GBA_CYCLES_PER_FRAME,
        ensures
            gba_emu_wf(*final(self)),
            final(self).total_frames == old(self).total_frames,
            final(self).repair_legacy_palette_state == old(self).repair_legacy_palette_state,
            (GbaFrameState {
                cpu: final(self).cpu@,
                bus: final(self).bus@,
                frame_cycles: final(self).frame_cycles,
                stopped: stop,
            }) == gba_emu_step(
                GbaFrameState {
                    cpu: old(self).cpu@,
                    bus: old(self).bus@,
                    frame_cycles: old(self).frame_cycles,
                    stopped: false,
                },
            ),
            !stop ==> final(self).frame_cycles > old(self).frame_cycles,
            final(self).frame_cycles < GBA_CYCLES_PER_FRAME + 0xFFF0_0000,
    {
        reveal(gba_emu_step);
        let ghost cur = GbaFrameState { cpu: self.cpu@, bus: self.bus@, frame_cycles: self.frame_cycles, stopped: false };
        if self.bus.halt {
            self.cpu.halted = true;
            self.bus.halt = false;
        }
        if self.bus.check_irq() {
            self.cpu.handle_irq();
        }
        assert((self.cpu@, self.bus@) =~~= gba_pre_step(cur.cpu, cur.bus));
        if self.cpu.cycles > u64::MAX - 0xFFFF_FFFF {
            return true;
        }
        let cycles = match self.step_cpu() {
            Some(c) => c,
            None => {
                return true;
            },
        };
        if cycles == 0 || cycles > 0xFFF0_0000 {
            return true;
        }
        self.tick_bus(cycles);
        self.frame_cycles = self.frame_cycles + cycles;
        false
    }

    /// One CPU step on the bus, or `None` for an instruction the core
    /// cannot run.
    #[verifier::spinoff_prover]
    #[verifier::rlimit(60)]
    fn step_cpu(&mut self) -> (r: Option<u32>)
        requires
            gba_emu_wf(*old(self)),
            old(self).cpu.cycles <= u64::MAX - 0xFFFF_FFFF,
        ensures
            gba_emu_wf(*final(self)),
            final(self).total_frames == old(self).total_frames,
            final(self).frame_cycles == old(self).frame_cycles,
            final(self).repair_legacy_palette_state == old(self).repair_legacy_palette_state,
            r is Some <==> step_defined(old(self).cpu@, old(self).bus@),
            r matches Some(cycles) ==> (final(self).cpu@, final(self).bus@, cycles) =~~= step_spec(
                old(self).cpu@,
                old(self).bus@,
            ),
            r is None ==> final(self).cpu@ =~~= old(self).cpu@ && final(self).bus@ == swi_bus(
                advanced(old(self).cpu@),
                fetch(old(self).cpu@, old(self).bus@).1,
            ),
    {
        self.cpu.step_checked(&mut self.bus)
    }

    /// Runs the bus devices for `cycles` cycles.
    #[verifier::spinoff_prover]
    fn tick_bus(&mut self, cycles: u32)
        requires
            gba_emu_wf(*old(self)),
            cycles <= 0xFFFF_0000,
        ensures
            gba_emu_wf(*final(self)),
            final(self).cpu == old(self).cpu,
            final(self).total_frames == old(self).total_frames,
            final(self).frame_cycles == old(self).frame_cycles,
            final(self).repair_legacy_palette_state == old(self).repair_legacy_palette_state,
            final(self).bus@ == gba_bus_tick_spec(old(self).bus@, cycles),
    {
        assert(crate::memory::gba_bus::gba_bus_tick_defined(self.bus@, cycles));
        self.bus.tick(cycles);
    }

    /// The screen width in pixels.
    pub fn screen_width(&self) -> (w: u32)
        ensures
            w == GBA_WIDTH,
    {
        GBA_WIDTH as u32
    }

    /// The screen height in pixels.
    pub fn screen_height(&self) -> (h: u32)
        ensures
            h == GBA_HEIGHT,
    {
        GBA_HEIGHT as u32
    }

    /// Takes the mixed samples produced so far (left, right, ...; each a
    /// fraction of the mixer's full scale), leaving the buffer empty.
    pub fn audio_buffer(&mut self) -> (samples: Vec<i32>)
        ensures
            samples@ == old(self).bus.apu.audio_buffer@,
            final(self).bus.apu.audio_buffer@ == Seq::<i32>::empty(),
            final(self).bus@ == (GbaBusView {
                apu: crate::apu::gba_apu::GbaApuView { audio_buffer: Seq::empty(), ..old(self).bus@.apu },
                ..old(self).bus@
            }),
            final(self).bus.ppu.framebuffer@ == old(self).bus.ppu.framebuffer@,
            final(self).cpu == old(self).cpu,
            final(self).frame_cycles == old(self).frame_cycles,
            final(self).total_frames == old(self).total_frames,
            final(self).repair_legacy_palette_state == old(self).repair_legacy_palette_state,
    {
        let mut samples: Vec<i32> = Vec::new();
        std::mem::swap(&mut samples, &mut self.bus.apu.audio_buffer);
        assert(self.bus@ =~~= GbaBusView {
            apu: crate::apu::gba_apu::GbaApuView { audio_buffer: Seq::empty(), ..old(self).bus@.apu },
            ..old(self).bus@
        });
        samples
    }
}

} // verus!
