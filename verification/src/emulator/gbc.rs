use vstd::prelude::*;

use crate::cartridge::GbcCartridge;
use crate::cpu::sm83::{boot_state, lemma_step_cycles, step_spec, Sm83, Sm83Bus};
use crate::memory::gbc_bus::{gbc_bus_tick_spec, gbc_bus_wf, GbcBus, GbcBusView};
use crate::ppu::gbc_ppu::GbcPpuView;
use crate::{GBC_HEIGHT, GBC_WIDTH};

verus! {

/// A Game Boy (Color): the CPU and its bus.
pub struct GbcEmulator {
    pub cpu: Sm83,
    pub bus: GbcBus,
    pub frame_cycles: u32,
    pub total_frames: u64,
}

/// The machine within a frame, as values; `stopped` is set when the video
/// unit could not take the cycles of a step.
pub struct GbcFrameState {
    pub cpu: Sm83,
    pub bus: GbcBusView,
    pub frame_cycles: u32,
    pub stopped: bool,
}

/// The CPU cycles in one frame: 70224, twice that in double speed.
pub open spec fn frame_budget(double_speed: bool) -> u32 {
    if double_speed {
        140448
    } else {
        70224
    }
}

/// Whether the video unit can take `cycles` more cycles: its cycle counter
/// and window line counter stay in range.
pub open spec fn tick_fits(p: GbcPpuView, cycles: u32) -> bool {
    p.regs.cycles + cycles <= u32::MAX && p.regs.window_line < 255
}

/// One step within a frame: the CPU executes an instruction (or serves an
/// interrupt, or idles while halted), and the rest of the machine runs for
/// the same time (half of it in double speed).
pub open spec fn gbc_emu_step(s: GbcFrameState) -> GbcFrameState {
    let (cpu, bus, cycles) = step_spec(s.cpu, s.bus);
    let bus_cycles = if bus.regs.double_speed {
        cycles / 2
    } else {
        cycles
    };
    if tick_fits(bus.ppu, bus_cycles) {
        GbcFrameState {
            cpu,
            bus: gbc_bus_tick_spec(bus, bus_cycles),
            frame_cycles: (s.frame_cycles + cycles) as u32,
            stopped: false,
        }
    } else {
        GbcFrameState { cpu, bus, frame_cycles: (s.frame_cycles + cycles) as u32, stopped: true }
    }
}

/// Steps until the frame's cycles reach `budget` (at most `fuel` steps),
/// stopping early when the video unit cannot take a step or the CPU cycle
/// counter is about to overflow.
pub open spec fn gbc_run(s: GbcFrameState, budget: u32, fuel: nat) -> GbcFrameState
    decreases fuel,
{
    if fuel == 0 || s.stopped || s.frame_cycles >= budget || s.cpu.cycles + 24 > u64::MAX {
        s
    } else {
        gbc_run(gbc_emu_step(s), budget, (fuel - 1) as nat)
    }
}

/// The frame that `run_frame` computes from `cpu` and `bus`.
pub open spec fn gbc_frame_spec(cpu: Sm83, bus: GbcBusView) -> GbcFrameState {
    let budget = frame_budget(bus.regs.double_speed);
    gbc_run(GbcFrameState { cpu, bus, frame_cycles: 0, stopped: false }, budget, budget as nat + 1)
}

impl GbcEmulator {
    /// A machine at power-on with cartridge `cart`.
    pub fn new(cart: GbcCartridge) -> (e: Self)
        ensures
            boot_state(e.cpu),
            gbc_bus_wf(e.bus@),
            e.bus@.rom == cart.rom@,
            e.bus@.ram == cart.ram@,
            e.bus.ppu.is_cgb == cart.is_cgb,
            e.frame_cycles == 0,
            e.total_frames == 0,
    {
        GbcEmulator { cpu: Sm83::new(), bus: GbcBus::new(cart), frame_cycles: 0, total_frames: 0 }
    }

    /// Runs one frame (70224 cycles, 140448 in double speed) and returns the
    /// framebuffer.
    pub fn run_frame(&mut self) -> (fb: &[u32])
        requires
            gbc_bus_wf(old(self).bus@),
            old(self).total_frames < u64::MAX,
        ensures
            gbc_bus_wf(final(self).bus@),
            ({
                let s = gbc_frame_spec(old(self).cpu, old(self).bus@);
                final(self).cpu == s.cpu && final(self).bus@ == s.bus && final(self).frame_cycles == s.frame_cycles
            }),
            final(self).total_frames == old(self).total_frames + 1,
            fb@ == final(self).bus.ppu.framebuffer@,
    {
        let budget: u32 = if self.bus.double_speed {
            70224 * 2
        } else {
            70224
        };
        self.frame_cycles = 0;
        let ghost s0 = GbcFrameState { cpu: self.cpu, bus: self.bus@, frame_cycles: 0, stopped: false };
        let ghost fuel: nat = budget as nat + 1;
        let ghost mut k: nat = 0;
        let mut stopped = false;
        while self.frame_cycles < budget && !stopped && self.cpu.cycles <= u64::MAX - 24
            invariant
                budget == frame_budget(s0.bus.regs.double_speed),
                fuel == budget as nat + 1,
                self.total_frames == old(self).total_frames,
                old(self).total_frames < u64::MAX,
                gbc_bus_wf(self.bus@),
                k <= self.frame_cycles,
                self.frame_cycles <= budget + 24,
                gbc_run(
                    GbcFrameState { cpu: self.cpu, bus: self.bus@, frame_cycles: self.frame_cycles, stopped },
                    budget,
                    (fuel - k) as nat,
                ) == gbc_run(s0, budget, fuel),
            decreases budget + 24 - self.frame_cycles,
        {
            let ghost cur = GbcFrameState { cpu: self.cpu, bus: self.bus@, frame_cycles: self.frame_cycles, stopped };
            proof {
                lemma_step_cycles(self.cpu, self.bus@);
            }
            let cpu_cycles = self.cpu.step(&mut self.bus);
            let bus_cycles = if self.bus.double_speed {
                cpu_cycles / 2
            } else {
                cpu_cycles
            };
            if self.bus.ppu.window_line < 255 && self.bus.ppu.cycles <= u32::MAX - bus_cycles {
                self.bus.tick(bus_cycles);
            } else {
                stopped = true;
            }
            self.frame_cycles = self.frame_cycles + cpu_cycles;
            proof {
                assert(GbcFrameState { cpu: self.cpu, bus: self.bus@, frame_cycles: self.frame_cycles, stopped }
                    == gbc_emu_step(cur));
                k = k + 1;
            }
        }
        self.total_frames = self.total_frames + 1;
        self.bus.ppu.framebuffer.as_slice()
    }

    /// The screen width in pixels.
    pub fn screen_width(&self) -> (w: u32)
        ensures
            w == GBC_WIDTH,
    {
        GBC_WIDTH as u32
    }

    /// The screen height in pixels.
    pub fn screen_height(&self) -> (h: u32)
        ensures
            h == GBC_HEIGHT,
    {
        GBC_HEIGHT as u32
    }

    /// Takes the mixed samples produced so far (left, right, ...), each over
    /// `GBC_MIX_SCALE`, leaving the buffer empty.
    pub fn audio_buffer(&mut self) -> (samples: Vec<i32>)
        ensures
            samples@ == old(self).bus.apu.audio_buffer@,
            final(self).bus.apu.audio_buffer@ == Seq::<i32>::empty(),
            final(self).bus@ == (GbcBusView {
                apu: crate::apu::gbc_apu::GbcApuView { audio_buffer: Seq::empty(), ..old(self).bus@.apu },
                ..old(self).bus@
            }),
            final(self).cpu == old(self).cpu,
    {
        let mut samples: Vec<i32> = Vec::new();
        std::mem::swap(&mut samples, &mut self.bus.apu.audio_buffer);
        assert(self.bus@ =~~= GbcBusView {
            apu: crate::apu::gbc_apu::GbcApuView { audio_buffer: Seq::empty(), ..old(self).bus@.apu },
            ..old(self).bus@
        });
        samples
    }
}

} // verus!
